use bevy::color::Color;
use bevy::render::alpha::AlphaMode;
use debug_grid::{
    custom_tracked_grid_updater, tracked_grid_updater, tracked_translation, EntityId, Grid,
    GridAlignment, TrackedGrid, Vec3i,
};

fn grid(spacing: u32) -> Grid {
    Grid { spacing, count: 8, color: Color::WHITE, alpha_mode: AlphaMode::Blend }
}

fn floor(offset: i64) -> TrackedGrid {
    TrackedGrid { alignment: GridAlignment::Y, offset, tracking_override: None }
}

#[test]
fn snaps_floor_grid_to_cell() {
    // (7.3, 2.0, -4.9) with spacing 2.0, in thousandths
    let r = tracked_translation(Vec3i::new(7300, 2000, -4900), 2000, &floor(0));
    assert_eq!(r, Some(Vec3i::new(6000, 0, -6000)));
}

#[test]
fn snap_adds_offset_along_normal() {
    let r = tracked_translation(Vec3i::new(7300, 2000, -4900), 2000, &floor(150));
    assert_eq!(r, Some(Vec3i::new(6000, 150, -6000)));
    let side = TrackedGrid { alignment: GridAlignment::X, offset: -5, tracking_override: None };
    let r = tracked_translation(Vec3i::new(7300, 2000, -4900), 2000, &side);
    assert_eq!(r, Some(Vec3i::new(-5, 2000, -6000)));
}

#[test]
fn snap_on_exact_multiples() {
    let r = tracked_translation(Vec3i::new(-4000, 0, 4000), 2000, &floor(0));
    assert_eq!(r, Some(Vec3i::new(-4000, 0, 4000)));
}

#[test]
fn zero_spacing_does_not_track() {
    assert_eq!(tracked_translation(Vec3i::new(1, 2, 3), 0, &floor(0)), None);
}

#[test]
fn unrepresentable_position_does_not_track() {
    let r = tracked_translation(Vec3i::new(i64::MIN, 0, 0), 3, &floor(0));
    assert_eq!(r, None);
    let r = tracked_translation(Vec3i::new(i64::MIN, 0, 0), 1, &floor(0));
    assert_eq!(r, Some(Vec3i::new(i64::MIN, 0, 0)));
}

#[test]
fn generic_tracking_needs_exactly_one_target() {
    let start = Vec3i::new(1, 1, 1);
    let mut t = start;
    tracked_grid_updater(&mut t, &grid(1000), &floor(0), &vec![]);
    assert_eq!(t, start);
    tracked_grid_updater(&mut t, &grid(1000), &floor(0), &vec![Vec3i::new(5500, 0, 0), Vec3i::new(0, 0, 0)]);
    assert_eq!(t, start);
    tracked_grid_updater(&mut t, &grid(1000), &floor(0), &vec![Vec3i::new(5500, 9, -1)]);
    assert_eq!(t, Vec3i::new(5000, 0, -1000));
}

#[test]
fn generic_tracking_skips_overridden_grids() {
    let tracking = TrackedGrid { alignment: GridAlignment::Y, offset: 0, tracking_override: Some(EntityId(4)) };
    let mut t = Vec3i::new(1, 1, 1);
    tracked_grid_updater(&mut t, &grid(1000), &tracking, &vec![Vec3i::new(5500, 0, 0)]);
    assert_eq!(t, Vec3i::new(1, 1, 1));
}

#[test]
fn override_tracking_uses_override_position() {
    let tracking = TrackedGrid { alignment: GridAlignment::Y, offset: 0, tracking_override: Some(EntityId(4)) };
    let trackables = vec![Vec3i::new(100_000, 0, 0)];
    let mut t = Vec3i::new(0, 0, 0);
    tracked_grid_updater(&mut t, &grid(1000), &tracking, &trackables);
    custom_tracked_grid_updater(&mut t, &grid(1000), &tracking, Some(Vec3i::new(2500, 0, 2500)));
    assert_eq!(t, Vec3i::new(2000, 0, 2000));

    let many = vec![Vec3i::new(1, 0, 0), Vec3i::new(2, 0, 0), Vec3i::new(3, 0, 0)];
    let mut u = Vec3i::new(0, 0, 0);
    tracked_grid_updater(&mut u, &grid(1000), &tracking, &many);
    custom_tracked_grid_updater(&mut u, &grid(1000), &tracking, Some(Vec3i::new(2500, 0, 2500)));
    assert_eq!(u, t);
}

#[test]
fn override_without_position_is_skipped() {
    let tracking = TrackedGrid { alignment: GridAlignment::Y, offset: 0, tracking_override: Some(EntityId(4)) };
    let mut t = Vec3i::new(7, 7, 7);
    custom_tracked_grid_updater(&mut t, &grid(1000), &tracking, None);
    assert_eq!(t, Vec3i::new(7, 7, 7));
}

#[test]
fn override_updater_ignores_plain_grids() {
    let mut t = Vec3i::new(7, 7, 7);
    custom_tracked_grid_updater(&mut t, &grid(1000), &floor(0), Some(Vec3i::new(2500, 0, 2500)));
    assert_eq!(t, Vec3i::new(7, 7, 7));
}

