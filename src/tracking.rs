//! Per-frame placement of tracked grids: a tracked grid follows its tracked
//! entity in the grid's plane, snapped to whole cells, so that its lines seem
//! fixed in the world.
use crate::model::{point_fits, Grid, GridAlignment, Point, TrackedGrid, Vec3i};
use vstd::arithmetic::div_mod::lemma_fundamental_div_mod;
use vstd::prelude::*;

verus! {

/// The greatest multiple of `s` that is not above `c`, for `s > 0`.
pub open spec fn snap(c: int, s: int) -> int {
    (c / s) * s
}

/// Where a grid of spacing `spacing` goes when it tracks `target`: the
/// target's in-plane coordinates snapped to whole cells, and `offset` along
/// the normal.
pub open spec fn tracked_position(target: Point, spacing: int, alignment: GridAlignment, offset: int) -> Point {
    let keep = alignment.inverted_axis();
    let along = alignment.axis();
    (
        snap(target.0 * keep.0, spacing) + along.0 * offset,
        snap(target.1 * keep.1, spacing) + along.1 * offset,
        snap(target.2 * keep.2, spacing) + along.2 * offset,
    )
}

/// The translation after tracking `target`, if any: the tracked position
/// where it can be computed, else `current` unchanged.
pub open spec fn track_step(current: Point, spacing: int, tracking: TrackedGrid, target: Option<Point>) -> Point {
    match target {
        Some(p) => {
            let q = tracked_position(p, spacing, tracking.alignment, tracking.offset as int);
            if spacing > 0 && point_fits(q) {
                q
            } else {
                current
            }
        },
        None => current,
    }
}

/// The one generic trackable position, if there is exactly one.
pub open spec fn single_target(trackables: Seq<Vec3i>) -> Option<Point> {
    if trackables.len() == 1 {
        Some(trackables[0]@)
    } else {
        None
    }
}

/// The translation after `tracked_grid_updater`.
pub open spec fn generic_step(
    current: Point,
    spacing: int,
    tracking: TrackedGrid,
    trackables: Seq<Vec3i>,
) -> Point {
    if tracking.tracking_override.is_none() {
        track_step(current, spacing, tracking, single_target(trackables))
    } else {
        current
    }
}

/// The translation after `custom_tracked_grid_updater`.
pub open spec fn override_step(
    current: Point,
    spacing: int,
    tracking: TrackedGrid,
    override_position: Option<Point>,
) -> Point {
    if tracking.tracking_override.is_some() {
        track_step(current, spacing, tracking, override_position)
    } else {
        current
    }
}

/// The mathematical value of an optional vector.
pub open spec fn view_opt(v: Option<Vec3i>) -> Option<Point> {
    match v {
        Some(p) => Some(p@),
        None => None,
    }
}

fn snap_component(c: i64, along: i64, spacing: i64, offset: i64) -> (r: Option<i64>)
    requires
        along == 0 || along == 1,
        spacing > 0,
    ensures
        ({
            let v = snap(c * (1 - along), spacing as int) + along * offset;
            r == if i64::MIN <= v <= i64::MAX {
                Some(v as i64)
            } else {
                None
            }
        }),
{
    let projected: i64 = if along == 0 {
        c
    } else {
        0
    };
    assert(projected == c * (1 - along)) by (nonlinear_arith)
        requires
            (along == 0 && projected == c) || (along == 1 && projected == 0),
    ;
    proof {
        lemma_fundamental_div_mod(projected as int, spacing as int);
        assert(0 <= projected % spacing < spacing);
        assert(i64::MIN <= projected / spacing <= i64::MAX) by (nonlinear_arith)
            requires
                projected == spacing * (projected / spacing) + projected % spacing,
                0 <= projected % spacing < spacing,
                spacing >= 1,
                i64::MIN <= projected <= i64::MAX,
        ;
    }
    let cells = projected.checked_div_euclid(spacing).unwrap();
    let lift: i64 = if along == 0 {
        0
    } else {
        offset
    };
    assert(lift == along * offset) by (nonlinear_arith)
        requires
            (along == 0 && lift == 0) || (along == 1 && lift == offset),
    ;
    match cells.checked_mul(spacing) {
        Some(snapped) => {
            assert(along == 1 ==> projected / spacing == 0);
            snapped.checked_add(lift)
        },
        None => None,
    }
}

/// Where a grid of spacing `spacing` goes when it tracks `target`; `None`
/// where the spacing is zero or the position is not an `i64` vector.
pub fn tracked_translation(target: Vec3i, spacing: u32, tracking: &TrackedGrid) -> (r: Option<Vec3i>)
    ensures
        r.is_some() <==> spacing > 0 && point_fits(
            tracked_position(target@, spacing as int, tracking.alignment, tracking.offset as int),
        ),
        r matches Some(v) ==> v@ == tracked_position(
            target@,
            spacing as int,
            tracking.alignment,
            tracking.offset as int,
        ),
{
    if spacing == 0 {
        return None;
    }
    let along = tracking.alignment.to_axis_vec3();
    let s = spacing as i64;
    let x = snap_component(target.x, along.x, s, tracking.offset);
    let y = snap_component(target.y, along.y, s, tracking.offset);
    let z = snap_component(target.z, along.z, s, tracking.offset);
    match (x, y, z) {
        (Some(x), Some(y), Some(z)) => Some(Vec3i::new(x, y, z)),
        _ => None,
    }
}

/// Applies one tracking step towards `target` to `translation`.
fn track(translation: &mut Vec3i, spacing: u32, tracking: &TrackedGrid, target: Option<Vec3i>)
    ensures
        final(translation)@ == track_step(old(translation)@, spacing as int, *tracking, view_opt(target)),
{
    if let Some(p) = target {
        if let Some(v) = tracked_translation(p, spacing, tracking) {
            *translation = v;
        }
    }
}

/// Moves a grid that tracks the generic trackable entity, given the positions
/// of all entities marked trackable. Nothing moves unless there is exactly one
/// such entity, and grids with a tracking override are left to
/// `custom_tracked_grid_updater`.
pub fn tracked_grid_updater(
    translation: &mut Vec3i,
    grid: &Grid,
    tracking: &TrackedGrid,
    trackables: &Vec<Vec3i>,
)
    ensures
        final(translation)@ == generic_step(
            old(translation)@,
            grid.spacing as int,
            *tracking,
            trackables@,
        ),
{
    if tracking.tracking_override.is_some() {
        return;
    }
    if trackables.len() != 1 {
        return;
    }
    track(translation, grid.spacing, tracking, Some(trackables[0]));
}

/// Moves a grid that tracks its override entity, given that entity's
/// position, if it still has one.
pub fn custom_tracked_grid_updater(
    translation: &mut Vec3i,
    grid: &Grid,
    tracking: &TrackedGrid,
    override_position: Option<Vec3i>,
)
    ensures
        final(translation)@ == override_step(
            old(translation)@,
            grid.spacing as int,
            *tracking,
            view_opt(override_position),
        ),
{
    if tracking.tracking_override.is_none() {
        return;
    }
    track(translation, grid.spacing, tracking, override_position);
}

/// A floor grid (alignment `Y`) tracking `p` goes to the cell corner at or
/// below `p` in X and Z, and to `offset` in Y; each snapped coordinate is the
/// greatest multiple of the spacing that is not above the tracked one.
pub proof fn lemma_floor_snap(p: Point, spacing: int, offset: int)
    requires
        spacing > 0,
    ensures
        tracked_position(p, spacing, GridAlignment::Y, offset) == (
            (p.0 / spacing) * spacing,
            offset,
            (p.2 / spacing) * spacing,
        ),
        snap(p.0, spacing) <= p.0 < snap(p.0, spacing) + spacing,
        snap(p.0, spacing) % spacing == 0,
        snap(p.2, spacing) <= p.2 < snap(p.2, spacing) + spacing,
        snap(p.2, spacing) % spacing == 0,
{
    assert(0int / spacing == 0) by (nonlinear_arith)
        requires
            spacing > 0,
    ;
    assert(p.0 * 1 == p.0 && p.1 * 0 == 0 && p.2 * 1 == p.2);
    assert(snap(0, spacing) == 0);
    assert(1 * offset == offset && 0 * offset == 0);
    lemma_snap_bounds(p.0, spacing);
    lemma_snap_bounds(p.2, spacing);
}

proof fn lemma_snap_bounds(c: int, s: int)
    requires
        s > 0,
    ensures
        snap(c, s) <= c < snap(c, s) + s,
        snap(c, s) % s == 0,
{
    lemma_fundamental_div_mod(c, s);
    assert((c / s) * s == s * (c / s)) by (nonlinear_arith);
    vstd::arithmetic::div_mod::lemma_mod_multiples_basic(c / s, s);
}

/// With a tracking override set, a frame of tracking (the generic updater,
/// then the override updater) puts the grid where the override entity's
/// position takes it, whatever the generic trackable entities are.
pub proof fn lemma_override_isolation(
    current: Point,
    spacing: int,
    tracking: TrackedGrid,
    trackables: Seq<Vec3i>,
    other_trackables: Seq<Vec3i>,
    override_position: Option<Point>,
)
    requires
        tracking.tracking_override.is_some(),
    ensures
        override_step(
            generic_step(current, spacing, tracking, trackables),
            spacing,
            tracking,
            override_position,
        ) == override_step(
            generic_step(current, spacing, tracking, other_trackables),
            spacing,
            tracking,
            override_position,
        ),
        override_step(
            generic_step(current, spacing, tracking, trackables),
            spacing,
            tracking,
            override_position,
        ) == track_step(current, spacing, tracking, override_position),
{
}

} // verus!
