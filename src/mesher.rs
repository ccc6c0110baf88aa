//! What each meshing pass generates for a grid entity: the children to spawn,
//! with their geometry, material and local translation.
use crate::axis::{axes_lines, single_axis};
use crate::material::{
    clipped_material, deref_axis, ClippedLineMaterial, LineMaterial, SimpleLineMaterial,
};
use crate::mesh::{
    main_grid_points, main_grid_vertices_and_size, sub_grid_points, sub_grid_vertices_and_scale,
    SUB_GRID_NORMAL_OFFSET,
};
use crate::model::{
    view_points, Grid, GridAlignment, GridAxis, Point, SubGrid, TrackedGrid, Vec3i,
};
use crate::registry::ChildKind;
use bevy::color::Color;
use bevy::render::alpha::AlphaMode;
use vstd::prelude::*;

verus! {

/// A line-list mesh whose vertex coordinates, divided by `scale`, are ticks.
#[derive(Debug)]
pub struct LineMesh {
    pub vertices: Vec<Vec3i>,
    pub scale: i64,
}

/// A child entity to spawn for a grid.
#[derive(Debug)]
pub struct ChildSpec {
    pub kind: ChildKind,
    pub mesh: LineMesh,
    pub material: LineMaterial,
    /// Local translation, in ticks.
    pub translation: Vec3i,
    /// Whether the child moves with the grid entity. A child that does not is
    /// placed at the world origin.
    pub follows_grid: bool,
}

/// Mathematical value of a `ChildSpec`.
pub struct ChildView {
    pub kind: ChildKind,
    pub vertices: Seq<Point>,
    pub scale: int,
    pub material: LineMaterial,
    pub translation: Point,
    pub follows_grid: bool,
}

impl View for ChildSpec {
    type V = ChildView;

    open spec fn view(&self) -> ChildView {
        ChildView {
            kind: self.kind,
            vertices: view_points(self.mesh.vertices@),
            scale: self.mesh.scale as int,
            material: self.material,
            translation: self.translation@,
            follows_grid: self.follows_grid,
        }
    }
}

/// Mathematical values of a sequence of children.
pub open spec fn view_children(s: Seq<ChildSpec>) -> Seq<ChildView> {
    s.map_values(|c: ChildSpec| c@)
}

pub open spec fn simple(color: Color, alpha_mode: AlphaMode) -> LineMaterial {
    LineMaterial::Simple(SimpleLineMaterial { color, alpha_mode })
}

/// Points of `pts` shifted into `alignment`.
pub open spec fn shifted(pts: Seq<Point>, alignment: GridAlignment) -> Seq<Point> {
    pts.map_values(|p: Point| alignment.shift(p))
}

/// The clipped material of a tracked grid's lines, drawn in `color`.
pub open spec fn tracked_material(
    grid: Grid,
    tracking: TrackedGrid,
    color: Color,
    axis: Option<GridAxis>,
) -> LineMaterial {
    LineMaterial::Clipped(
        clipped_material(
            color,
            grid.alpha_mode,
            tracking.alignment,
            (grid.half_size() - grid.spacing) as i64,
            tracking.offset,
            axis,
        ),
    )
}

/// The one child of an untracked grid's main lines.
pub open spec fn untracked_main_plan(grid: Grid) -> ChildView {
    ChildView {
        kind: ChildKind::Grid,
        vertices: main_grid_points(GridAlignment::Y, grid.count as int, grid.spacing as int),
        scale: 1,
        material: simple(grid.color, grid.alpha_mode),
        translation: (0, 0, 0),
        follows_grid: true,
    }
}

/// The children of a tracked grid's main lines: the lines with the X and Z
/// axes of its plane, and, where the normal axis has an override color, that
/// axis alone, which stays at the world origin.
pub open spec fn tracked_main_plan(grid: Grid, tracking: TrackedGrid, axis: Option<GridAxis>) -> Seq<
    ChildView,
> {
    let size = grid.half_size();
    let a = tracking.alignment;
    let lines = ChildView {
        kind: ChildKind::Grid,
        vertices: main_grid_points(a, grid.count as int, grid.spacing as int) + shifted(
            single_axis(size, GridAlignment::X),
            a,
        ) + shifted(single_axis(size, GridAlignment::Z), a),
        scale: 1,
        material: tracked_material(grid, tracking, grid.color, axis),
        translation: (0, 0, 0),
        follows_grid: true,
    };
    let normal_color = match axis {
        Some(ax) => ax.color_for(a),
        None => None,
    };
    match normal_color {
        Some(c) => seq![
            lines,
            ChildView {
                kind: ChildKind::Grid,
                vertices: single_axis(size, a),
                scale: 1,
                material: tracked_material(grid, tracking, c, None),
                translation: (0, 0, 0),
                follows_grid: false,
            },
        ],
        None => seq![lines],
    }
}

/// The one child of a sub-grid. Its vertices are lowered by the normal offset
/// and its translation raises it back.
pub open spec fn sub_grid_plan(grid: Grid, sub_grid: SubGrid, tracking: Option<TrackedGrid>) -> ChildView {
    let a = match tracking {
        Some(t) => t.alignment,
        None => GridAlignment::Y,
    };
    ChildView {
        kind: ChildKind::SubGrid,
        vertices: sub_grid_points(a, grid.count as int, grid.spacing as int, sub_grid.count as int),
        scale: sub_grid.count + 1,
        material: match tracking {
            Some(t) => tracked_material(grid, t, sub_grid.color, None),
            None => simple(sub_grid.color, grid.alpha_mode),
        },
        translation: a.shift((0, -SUB_GRID_NORMAL_OFFSET, 0)),
        follows_grid: true,
    }
}

/// An axis line of an untracked grid in its own color.
pub open spec fn axis_child(size: int, alignment: GridAlignment, color: Color, alpha_mode: AlphaMode) -> ChildView {
    ChildView {
        kind: ChildKind::GridAxis,
        vertices: single_axis(size, alignment),
        scale: 1,
        material: simple(color, alpha_mode),
        translation: (0, 0, 0),
        follows_grid: true,
    }
}

/// The axes of an untracked grid that share one line mesh in the grid's color.
pub open spec fn common_axes(axis: Option<GridAxis>) -> Seq<GridAlignment> {
    match axis {
        Some(a) => a.unused_axes(),
        None => seq![GridAlignment::X, GridAlignment::Z],
    }
}

/// The axis children of an untracked grid: one for each axis with an override
/// color, then one shared child for the common axes, if there are any.
pub open spec fn axis_plan(grid: Grid, axis: Option<GridAxis>) -> Seq<ChildView> {
    let size = grid.half_size();
    let used = match axis {
        Some(a) => a.used_axes().map_values(
            |u: (GridAlignment, Color)| axis_child(size, u.0, u.1, grid.alpha_mode),
        ),
        None => Seq::empty(),
    };
    let common = common_axes(axis);
    if common.len() == 0 {
        used
    } else {
        used.push(
            ChildView {
                kind: ChildKind::GridAxis,
                vertices: axes_lines(size, common),
                scale: 1,
                material: simple(grid.color, grid.alpha_mode),
                translation: (0, 0, 0),
                follows_grid: true,
            },
        )
    }
}

/// Appends the axis line of half-length `size` along `alignment`, shifted into `outer`.
fn push_axis(out: &mut Vec<Vec3i>, size: i64, alignment: GridAlignment, outer: GridAlignment)
    requires
        size >= 0,
    ensures
        view_points(final(out)@) == view_points(old(out)@) + shifted(
            single_axis(size as int, alignment),
            outer,
        ),
{
    let ends = GridAxis::create_single_axis(size, alignment);
    let ghost before = view_points(out@);
    let p0 = outer.shift_vec3(ends[0]);
    let p1 = outer.shift_vec3(ends[1]);
    out.push(p0);
    out.push(p1);
    proof {
        let e = view_points(ends@);
        assert(e[0] == ends@[0]@ && e[1] == ends@[1]@);
        assert(view_points(out@) =~= before + shifted(single_axis(size as int, alignment), outer));
    }
}

/// Generates the main lines of a grid that is not tracking.
pub fn main_grid_mesher_untracked(grid: &Grid) -> (r: ChildSpec)
    requires
        grid.mesh_fits(),
    ensures
        r@ == untracked_main_plan(*grid),
{
    let (vertices, _) = main_grid_vertices_and_size(grid, &GridAlignment::Y);
    ChildSpec {
        kind: ChildKind::Grid,
        mesh: LineMesh { vertices, scale: 1 },
        material: LineMaterial::Simple(SimpleLineMaterial::new(grid.color, grid.alpha_mode)),
        translation: Vec3i::zero(),
        follows_grid: true,
    }
}

/// Generates the main lines of a tracked grid, and its highlighted normal axis.
pub fn main_grid_mesher_tracked(grid: &Grid, tracking: &TrackedGrid, axis: Option<&GridAxis>) -> (r:
    Vec<ChildSpec>)
    requires
        grid.mesh_fits(),
    ensures
        view_children(r@) == tracked_main_plan(*grid, *tracking, deref_axis(axis)),
{
    let (mut vertices, size) = main_grid_vertices_and_size(grid, &tracking.alignment);
    push_axis(&mut vertices, size, GridAlignment::X, tracking.alignment);
    push_axis(&mut vertices, size, GridAlignment::Z, tracking.alignment);
    let radius = size - grid.spacing as i64;
    let lines = ChildSpec {
        kind: ChildKind::Grid,
        mesh: LineMesh { vertices, scale: 1 },
        material: LineMaterial::Clipped(
            ClippedLineMaterial::new(
                grid.color,
                grid.alpha_mode,
                tracking.alignment,
                radius,
                tracking.offset,
                axis,
            ),
        ),
        translation: Vec3i::zero(),
        follows_grid: true,
    };
    let mut children: Vec<ChildSpec> = Vec::new();
    children.push(lines);
    let normal_color = match axis {
        Some(ax) => ax.get_by_alignment(&tracking.alignment),
        None => None,
    };
    if let Some(color) = normal_color {
        let ends = GridAxis::create_single_axis(size, tracking.alignment);
        let mut axis_vertices: Vec<Vec3i> = Vec::new();
        axis_vertices.push(ends[0]);
        axis_vertices.push(ends[1]);
        children.push(
            ChildSpec {
                kind: ChildKind::Grid,
                mesh: LineMesh { vertices: axis_vertices, scale: 1 },
                material: LineMaterial::Clipped(
                    ClippedLineMaterial::new(
                        color,
                        grid.alpha_mode,
                        tracking.alignment,
                        radius,
                        tracking.offset,
                        None,
                    ),
                ),
                translation: Vec3i::zero(),
                follows_grid: false,
            },
        );
        proof {
            assert(view_points(axis_vertices@) =~= single_axis(size as int, tracking.alignment)) by {
                assert(view_points(ends@)[0] == ends@[0]@);
                assert(view_points(ends@)[1] == ends@[1]@);
            }
        }
    }
    assert(view_children(children@) =~= tracked_main_plan(*grid, *tracking, deref_axis(axis)));
    children
}

/// Generates the lines of a sub-grid, in the plane of the grid's tracking if
/// it is tracking.
pub fn sub_grid_mesher(grid: &Grid, sub_grid: &SubGrid, tracking: Option<&TrackedGrid>) -> (r:
    ChildSpec)
    requires
        grid.sub_mesh_fits(sub_grid.count as int),
    ensures
        r@ == sub_grid_plan(
            *grid,
            *sub_grid,
            match tracking {
                Some(t) => Some(*t),
                None => None,
            },
        ),
{
    let alignment = match tracking {
        Some(t) => t.alignment,
        None => GridAlignment::Y,
    };
    let (vertices, scale) = sub_grid_vertices_and_scale(grid, sub_grid, &alignment);
    let translation = alignment.shift_vec3(Vec3i::new(0, -SUB_GRID_NORMAL_OFFSET, 0));
    let material = match tracking {
        Some(t) => {
            proof {
                vstd::arithmetic::mul::lemma_mul_nonnegative(grid.count as int, grid.spacing as int);
            }
            let size = (grid.count as i64) * (grid.spacing as i64);
            LineMaterial::Clipped(
                ClippedLineMaterial::new(
                    sub_grid.color,
                    grid.alpha_mode,
                    t.alignment,
                    size - grid.spacing as i64,
                    t.offset,
                    None,
                ),
            )
        },
        None => LineMaterial::Simple(SimpleLineMaterial::new(sub_grid.color, grid.alpha_mode)),
    };
    ChildSpec {
        kind: ChildKind::SubGrid,
        mesh: LineMesh { vertices, scale },
        material,
        translation,
        follows_grid: true,
    }
}

/// Generates the axis lines of a grid that is not tracking.
pub fn grid_axis_mesher(grid: &Grid, axis: Option<&GridAxis>) -> (r: Vec<ChildSpec>)
    requires
        grid.mesh_fits(),
    ensures
        view_children(r@) == axis_plan(*grid, deref_axis(axis)),
{
    proof {
        vstd::arithmetic::mul::lemma_mul_nonnegative(grid.count as int, grid.spacing as int);
    }
    let size = (grid.count as i64) * (grid.spacing as i64);
    let mut children: Vec<ChildSpec> = Vec::new();
    let mut common: Vec<GridAlignment> = Vec::new();
    let ghost size_i = size as int;
    match axis {
        Some(ax) => {
            let (used, unused) = ax.create_axis();
            common = unused;
            let ghost target = ax.used_axes().map_values(
                |u: (GridAlignment, Color)| axis_child(size_i, u.0, u.1, grid.alpha_mode),
            );
            let mut i: usize = 0;
            while i < used.len()
                invariant
                    0 <= i <= used.len(),
                    used@ == ax.used_axes(),
                    size >= 0,
                    size_i == size,
                    target == ax.used_axes().map_values(
                        |u: (GridAlignment, Color)| axis_child(size_i, u.0, u.1, grid.alpha_mode),
                    ),
                    view_children(children@) == target.take(i as int),
                decreases used.len() - i,
            {
                let (alignment, color) = used[i];
                let ends = GridAxis::create_single_axis(size, alignment);
                let mut vertices: Vec<Vec3i> = Vec::new();
                vertices.push(ends[0]);
                vertices.push(ends[1]);
                let child = ChildSpec {
                    kind: ChildKind::GridAxis,
                    mesh: LineMesh { vertices, scale: 1 },
                    material: LineMaterial::Simple(SimpleLineMaterial::new(color, grid.alpha_mode)),
                    translation: Vec3i::zero(),
                    follows_grid: true,
                };
                proof {
                    assert(view_points(vertices@) =~= single_axis(size_i, alignment)) by {
                        assert(view_points(ends@)[0] == ends@[0]@);
                        assert(view_points(ends@)[1] == ends@[1]@);
                    }
                    assert(child@ == target[i as int]);
                }
                let ghost before = children@;
                children.push(child);
                proof {
                    assert(view_children(children@) =~= view_children(before).push(child@));
                    assert(target.take(i + 1) =~= target.take(i as int).push(target[i as int]));
                }
                i = i + 1;
            }
            assert(target.take(used.len() as int) =~= target);
        },
        None => {
            let defaults = GridAxis::default_axis();
            common.push(defaults[0]);
            common.push(defaults[1]);
            assert(common@ =~= seq![GridAlignment::X, GridAlignment::Z]);
        },
    }
    assert(common@ == common_axes(deref_axis(axis)));
    if common.len() > 0 {
        let mut vertices: Vec<Vec3i> = Vec::new();
        let mut j: usize = 0;
        while j < common.len()
            invariant
                0 <= j <= common.len(),
                size >= 0,
                view_points(vertices@) == axes_lines(size as int, common@.take(j as int)),
            decreases common.len() - j,
        {
            push_axis(&mut vertices, size, common[j], GridAlignment::Y);
            proof {
                let t = common@.take(j + 1);
                assert(t.drop_last() =~= common@.take(j as int));
                let s = single_axis(size as int, common@[j as int]);
                assert(shifted(s, GridAlignment::Y) =~= s);
            }
            j = j + 1;
        }
        assert(common@.take(common.len() as int) =~= common@);
        let ghost before = children@;
        let child = ChildSpec {
            kind: ChildKind::GridAxis,
            mesh: LineMesh { vertices, scale: 1 },
            material: LineMaterial::Simple(SimpleLineMaterial::new(grid.color, grid.alpha_mode)),
            translation: Vec3i::zero(),
            follows_grid: true,
        };
        children.push(child);
        assert(view_children(children@) =~= view_children(before).push(child@));
    }
    children
}

/// An untracked grid whose `GridAxis` overrides no color gets exactly one
/// axis child, which holds the X and Z axes and nothing off the grid's plane:
/// no Y axis.
pub proof fn lemma_default_axis_exclusion(grid: Grid, axis: GridAxis)
    requires
        axis.x.is_none(),
        axis.y.is_none(),
        axis.z.is_none(),
    ensures
        axis_plan(grid, Some(axis)).len() == 1,
        axis_plan(grid, Some(axis))[0].kind == ChildKind::GridAxis,
        axis_plan(grid, Some(axis))[0].vertices == single_axis(grid.half_size(), GridAlignment::X)
            + single_axis(grid.half_size(), GridAlignment::Z),
        forall|i: int|
            0 <= i < axis_plan(grid, Some(axis))[0].vertices.len() ==> (#[trigger] axis_plan(
                grid,
                Some(axis),
            )[0].vertices[i]).1 == 0,
{
    let size = grid.half_size();
    let common = common_axes(Some(axis));
    assert(common =~= seq![GridAlignment::X, GridAlignment::Z]);
    assert(axis.used_axes() =~= Seq::<(GridAlignment, Color)>::empty());
    assert(common.drop_last() =~= seq![GridAlignment::X]);
    assert(common.drop_last().drop_last() =~= Seq::<GridAlignment>::empty());
    assert(axes_lines(size, common.drop_last().drop_last()) == Seq::<Point>::empty());
    assert(axes_lines(size, common.drop_last()) =~= single_axis(size, GridAlignment::X));
    let v = axis_plan(grid, Some(axis))[0].vertices;
    assert(v =~= seq![(size, 0int, 0int), (-size, 0int, 0int), (0int, 0int, size), (0int, 0int, -size)]);
}

} // verus!
