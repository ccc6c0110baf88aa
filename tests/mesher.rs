use bevy::color::palettes::tailwind;
use bevy::color::Color;
use bevy::render::alpha::AlphaMode;
use debug_grid::{
    grid_axis_mesher, main_grid_mesher_tracked, main_grid_mesher_untracked, sub_grid_mesher,
    ChildKind, ClippedLineMaterial, EntityId, Grid, GridAlignment, GridAxis, LineMaterial,
    SimpleLineMaterial, SubGrid, TrackedGrid, Vec3i,
};

fn grid() -> Grid {
    Grid { spacing: 1000, count: 2, color: Color::WHITE, alpha_mode: AlphaMode::Blend }
}

fn v(x: i64, y: i64, z: i64) -> Vec3i {
    Vec3i::new(x, y, z)
}

fn clipped(m: &LineMaterial) -> ClippedLineMaterial {
    match m {
        LineMaterial::Clipped(c) => *c,
        LineMaterial::Simple(_) => panic!("expected a clipped material"),
    }
}

fn simple(m: &LineMaterial) -> SimpleLineMaterial {
    match m {
        LineMaterial::Simple(s) => *s,
        LineMaterial::Clipped(_) => panic!("expected a simple material"),
    }
}

#[test]
fn untracked_main_child() {
    let child = main_grid_mesher_untracked(&grid());
    assert_eq!(child.kind, ChildKind::Grid);
    assert_eq!(child.mesh.vertices.len(), 16);
    assert_eq!(child.mesh.scale, 1);
    assert_eq!(child.translation, v(0, 0, 0));
    assert!(child.follows_grid);
    let m = simple(&child.material);
    assert_eq!(m.color, Color::WHITE);
    assert_eq!(m.alpha_mode, AlphaMode::Blend);
}

#[test]
fn tracked_main_child_without_axis() {
    let tracking = TrackedGrid { alignment: GridAlignment::Y, offset: 5, tracking_override: None };
    let children = main_grid_mesher_tracked(&grid(), &tracking, None);
    assert_eq!(children.len(), 1);
    let lines = &children[0];
    assert_eq!(lines.mesh.vertices.len(), 16 + 4);
    // the X axis, then the Z axis, through the origin
    assert_eq!(lines.mesh.vertices[16], v(2000, 0, 0));
    assert_eq!(lines.mesh.vertices[17], v(-2000, 0, 0));
    assert_eq!(lines.mesh.vertices[18], v(0, 0, 2000));
    assert_eq!(lines.mesh.vertices[19], v(0, 0, -2000));
    let m = clipped(&lines.material);
    // one cell less than the half-size
    assert_eq!(m.radius, 1000);
    assert_eq!(m.offset, 5);
    assert_eq!(m.alignment, GridAlignment::Y);
    assert_eq!(m.x_axis_color, Color::WHITE);
    assert_eq!(m.y_axis_color, Color::WHITE);
    assert_eq!(m.z_axis_color, Color::WHITE);
}

#[test]
fn tracked_main_children_with_normal_axis() {
    let tracking = TrackedGrid { alignment: GridAlignment::Y, offset: 0, tracking_override: None };
    let axis = GridAxis::new_rgb();
    let children = main_grid_mesher_tracked(&grid(), &tracking, Some(&axis));
    assert_eq!(children.len(), 2);
    let lines = clipped(&children[0].material);
    assert_eq!(lines.x_axis_color, Color::Srgba(tailwind::RED_500));
    assert_eq!(lines.y_axis_color, Color::Srgba(tailwind::GREEN_500));
    assert_eq!(lines.z_axis_color, Color::Srgba(tailwind::BLUE_500));
    let normal = &children[1];
    assert_eq!(normal.kind, ChildKind::Grid);
    assert!(!normal.follows_grid);
    assert_eq!(normal.mesh.vertices, vec![v(0, 2000, 0), v(0, -2000, 0)]);
    let m = clipped(&normal.material);
    assert_eq!(m.color, Color::Srgba(tailwind::GREEN_500));
    assert_eq!(m.x_axis_color, m.color);
}

#[test]
fn tracked_main_child_in_x_alignment() {
    let tracking = TrackedGrid { alignment: GridAlignment::X, offset: 0, tracking_override: None };
    let axis = GridAxis { x: None, y: Some(Color::BLACK), z: None };
    let children = main_grid_mesher_tracked(&grid(), &tracking, Some(&axis));
    // only an override on the normal axis (X) adds a child
    assert_eq!(children.len(), 1);
    let vertices = &children[0].mesh.vertices;
    assert!(vertices.iter().all(|p| p.x == 0));
    assert_eq!(vertices[16], v(0, 0, 2000));
}

#[test]
fn sub_grid_child_untracked() {
    let sub = SubGrid { count: 1, color: Color::BLACK };
    let child = sub_grid_mesher(&grid(), &sub, None);
    assert_eq!(child.kind, ChildKind::SubGrid);
    assert_eq!(child.mesh.scale, 2);
    assert_eq!(child.mesh.vertices.len(), 16);
    assert_eq!(child.translation, v(0, 1, 0));
    let m = simple(&child.material);
    assert_eq!(m.color, Color::BLACK);
    assert_eq!(m.alpha_mode, AlphaMode::Blend);
}

#[test]
fn sub_grid_child_tracked() {
    let sub = SubGrid { count: 4, color: Color::BLACK };
    let tracking = TrackedGrid { alignment: GridAlignment::Z, offset: -3, tracking_override: None };
    let child = sub_grid_mesher(&grid(), &sub, Some(&tracking));
    assert_eq!(child.mesh.vertices.len(), 8 * 2 * 4);
    assert_eq!(child.translation, v(0, 0, 1));
    let m = clipped(&child.material);
    assert_eq!(m.color, Color::BLACK);
    assert_eq!(m.radius, 1000);
    assert_eq!(m.offset, -3);
    assert_eq!(m.alignment, GridAlignment::Z);
}

#[test]
fn default_axis_gives_one_merged_child_without_y() {
    let children = grid_axis_mesher(&grid(), Some(&GridAxis::default()));
    assert_eq!(children.len(), 1);
    let child = &children[0];
    assert_eq!(child.kind, ChildKind::GridAxis);
    assert_eq!(
        child.mesh.vertices,
        vec![v(2000, 0, 0), v(-2000, 0, 0), v(0, 0, 2000), v(0, 0, -2000)]
    );
    assert!(child.mesh.vertices.iter().all(|p| p.y == 0));
    assert_eq!(simple(&child.material).color, Color::WHITE);
}

#[test]
fn missing_axis_gives_default_axes() {
    let children = grid_axis_mesher(&grid(), None);
    assert_eq!(children.len(), 1);
    assert_eq!(children[0].mesh.vertices.len(), 4);
}

#[test]
fn colored_axes_get_their_own_children() {
    let axis = GridAxis { x: Some(Color::BLACK), y: Some(Color::WHITE), z: None };
    let children = grid_axis_mesher(&grid(), Some(&axis));
    assert_eq!(children.len(), 3);
    assert_eq!(children[0].mesh.vertices, vec![v(2000, 0, 0), v(-2000, 0, 0)]);
    assert_eq!(simple(&children[0].material).color, Color::BLACK);
    assert_eq!(children[1].mesh.vertices, vec![v(0, 2000, 0), v(0, -2000, 0)]);
    assert_eq!(simple(&children[1].material).color, Color::WHITE);
    // the Z axis falls back to the shared child in the grid's color
    assert_eq!(children[2].mesh.vertices, vec![v(0, 0, 2000), v(0, 0, -2000)]);
    assert_eq!(simple(&children[2].material).color, Color::WHITE);
}

#[test]
fn all_colored_axes_leave_no_shared_child() {
    let children = grid_axis_mesher(&grid(), Some(&GridAxis::new_rgb()));
    assert_eq!(children.len(), 3);
    assert!(children.iter().all(|c| c.mesh.vertices.len() == 2));
}

#[test]
fn regeneration_gives_identical_children() {
    let tracking = TrackedGrid { alignment: GridAlignment::Y, offset: 2, tracking_override: Some(EntityId(9)) };
    let axis = GridAxis::new_rgb();
    let first = main_grid_mesher_tracked(&grid(), &tracking, Some(&axis));
    let second = main_grid_mesher_tracked(&grid(), &tracking, Some(&axis));
    assert_eq!(first.len(), second.len());
    for (a, b) in first.iter().zip(second.iter()) {
        assert_eq!(a.mesh.vertices, b.mesh.vertices);
        assert_eq!(a.mesh.scale, b.mesh.scale);
        let (ma, mb) = (clipped(&a.material), clipped(&b.material));
        assert_eq!((ma.color, ma.radius, ma.offset, ma.alignment), (mb.color, mb.radius, mb.offset, mb.alignment));
    }
}
