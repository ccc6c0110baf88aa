use bevy::color::palettes::tailwind;
use bevy::color::Color;
use bevy::render::alpha::AlphaMode;
use debug_grid::{
    ClippedLineMaterial, GridAlignment, GridAxis, SimpleLineMaterial, TrackedGrid, Vec3i,
};

#[test]
fn alignment_vectors() {
    assert_eq!(GridAlignment::X.to_axis_vec3(), Vec3i::new(1, 0, 0));
    assert_eq!(GridAlignment::Y.to_axis_vec3(), Vec3i::new(0, 1, 0));
    assert_eq!(GridAlignment::Z.to_axis_vec3(), Vec3i::new(0, 0, 1));
    assert_eq!(GridAlignment::X.to_inverted_axis_vec3(), Vec3i::new(0, 1, 1));
    assert_eq!(GridAlignment::Y.to_inverted_axis_vec3(), Vec3i::new(1, 0, 1));
    assert_eq!(GridAlignment::Z.to_inverted_axis_vec3(), Vec3i::new(1, 1, 0));
    assert_eq!(GridAlignment::default(), GridAlignment::Y);
}

#[test]
fn alignment_shift() {
    let p = Vec3i::new(1, 2, 3);
    assert_eq!(GridAlignment::X.shift_vec3(p), Vec3i::new(2, 3, 1));
    assert_eq!(GridAlignment::Y.shift_vec3(p), p);
    assert_eq!(GridAlignment::Z.shift_vec3(p), Vec3i::new(3, 1, 2));
}

#[test]
fn single_axis_endpoints() {
    assert_eq!(
        GridAxis::create_single_axis(7, GridAlignment::X),
        [Vec3i::new(7, 0, 0), Vec3i::new(-7, 0, 0)]
    );
    assert_eq!(
        GridAxis::create_single_axis(7, GridAlignment::Y),
        [Vec3i::new(0, 7, 0), Vec3i::new(0, -7, 0)]
    );
    assert_eq!(
        GridAxis::create_single_axis(7, GridAlignment::Z),
        [Vec3i::new(0, 0, 7), Vec3i::new(0, 0, -7)]
    );
}

#[test]
fn rgb_axis_colors() {
    let axis = GridAxis::new_rgb();
    assert_eq!(axis.x, Some(Color::Srgba(tailwind::RED_500)));
    assert_eq!(axis.y, Some(Color::Srgba(tailwind::GREEN_500)));
    assert_eq!(axis.z, Some(Color::Srgba(tailwind::BLUE_500)));
}

#[test]
fn create_axis_splits_used_and_unused() {
    let (used, unused) = GridAxis::new_empty().create_axis();
    assert!(used.is_empty());
    assert_eq!(unused, vec![GridAlignment::X, GridAlignment::Z]);

    let (used, unused) = GridAxis::new_rgb().create_axis();
    assert_eq!(
        used,
        vec![
            (GridAlignment::X, Color::Srgba(tailwind::RED_500)),
            (GridAlignment::Y, Color::Srgba(tailwind::GREEN_500)),
            (GridAlignment::Z, Color::Srgba(tailwind::BLUE_500)),
        ]
    );
    assert!(unused.is_empty());

    let (used, unused) = GridAxis { x: None, y: Some(Color::BLACK), z: None }.create_axis();
    assert_eq!(used, vec![(GridAlignment::Y, Color::BLACK)]);
    assert_eq!(unused, vec![GridAlignment::X, GridAlignment::Z]);
}

#[test]
fn default_axis_is_x_and_z() {
    assert_eq!(GridAxis::default_axis(), [GridAlignment::X, GridAlignment::Z]);
    let axis = GridAxis::default();
    assert!(axis.x.is_none() && axis.y.is_none() && axis.z.is_none());
}

#[test]
fn axis_color_by_alignment() {
    let axis = GridAxis { x: Some(Color::BLACK), y: None, z: Some(Color::WHITE) };
    assert_eq!(axis.get_by_alignment(&GridAlignment::X), Some(Color::BLACK));
    assert_eq!(axis.get_by_alignment(&GridAlignment::Y), None);
    assert_eq!(axis.get_by_alignment(&GridAlignment::Z), Some(Color::WHITE));
}

#[test]
fn clipped_material_axis_colors() {
    let axis = GridAxis { x: Some(Color::BLACK), y: None, z: None };
    let m = ClippedLineMaterial::new(Color::WHITE, AlphaMode::Opaque, GridAlignment::Z, 40, -2, Some(&axis));
    assert_eq!(m.color, Color::WHITE);
    assert_eq!(m.alpha_mode, AlphaMode::Opaque);
    assert_eq!(m.alignment, GridAlignment::Z);
    assert_eq!(m.radius, 40);
    assert_eq!(m.offset, -2);
    assert_eq!(m.x_axis_color, Color::BLACK);
    assert_eq!(m.y_axis_color, Color::WHITE);
    assert_eq!(m.z_axis_color, Color::WHITE);

    let m = ClippedLineMaterial::new(Color::WHITE, AlphaMode::Blend, GridAlignment::Y, 1, 0, None);
    assert_eq!(m.x_axis_color, Color::WHITE);
}

#[test]
fn simple_material_keeps_its_color() {
    let m = SimpleLineMaterial::new(Color::BLACK, AlphaMode::Add);
    assert_eq!(m.color, Color::BLACK);
    assert_eq!(m.alpha_mode, AlphaMode::Add);
}

#[test]
fn tracked_grid_default() {
    let t = TrackedGrid::default();
    assert_eq!(t.alignment, GridAlignment::Y);
    assert_eq!(t.offset, 0);
    assert!(t.tracking_override.is_none());
}
