//! Axis lines of a grid and the per-axis color overrides.
use crate::model::{GridAlignment, GridAxis, Point, Vec3i};
use bevy::color::palettes::tailwind;
use bevy::color::Color;
use vstd::prelude::*;

verus! {

/// Relies on bevy's `tailwind::RED_500` palette constant.
#[verifier::external_body]
fn tailwind_red() -> Color {
    Color::Srgba(tailwind::RED_500)
}

/// Relies on bevy's `tailwind::GREEN_500` palette constant.
#[verifier::external_body]
fn tailwind_green() -> Color {
    Color::Srgba(tailwind::GREEN_500)
}

/// Relies on bevy's `tailwind::BLUE_500` palette constant.
#[verifier::external_body]
fn tailwind_blue() -> Color {
    Color::Srgba(tailwind::BLUE_500)
}

/// The two endpoints of an axis line of half-length `size` along `alignment`.
pub open spec fn single_axis(size: int, alignment: GridAlignment) -> Seq<Point> {
    seq![alignment.shift((0, size, 0)), alignment.shift((0, -size, 0))]
}

/// The lines of several axes, one after another.
pub open spec fn axes_lines(size: int, axes: Seq<GridAlignment>) -> Seq<Point>
    decreases axes.len(),
{
    if axes.len() == 0 {
        Seq::empty()
    } else {
        axes_lines(size, axes.drop_last()) + single_axis(size, axes.last())
    }
}

/// `[(alignment, color)]` when `color` is set, else nothing.
pub open spec fn used_entry(alignment: GridAlignment, color: Option<Color>) -> Seq<(GridAlignment, Color)> {
    match color {
        Some(c) => seq![(alignment, c)],
        None => Seq::empty(),
    }
}

/// `[alignment]` when `color` is unset, else nothing.
pub open spec fn unused_entry(alignment: GridAlignment, color: Option<Color>) -> Seq<GridAlignment> {
    match color {
        Some(_) => Seq::empty(),
        None => seq![alignment],
    }
}

impl GridAxis {
    /// The override color of one axis.
    pub open spec fn color_for(self, alignment: GridAlignment) -> Option<Color> {
        match alignment {
            GridAlignment::X => self.x,
            GridAlignment::Y => self.y,
            GridAlignment::Z => self.z,
        }
    }

    /// Axes drawn in their own color, in the order X, Y, Z.
    pub open spec fn used_axes(self) -> Seq<(GridAlignment, Color)> {
        used_entry(GridAlignment::X, self.x) + used_entry(GridAlignment::Y, self.y) + used_entry(
            GridAlignment::Z,
            self.z,
        )
    }

    /// Axes that fall back to the shared default line. Y never does.
    pub open spec fn unused_axes(self) -> Seq<GridAlignment> {
        unused_entry(GridAlignment::X, self.x) + unused_entry(GridAlignment::Z, self.z)
    }

    /// An empty grid axis, which overrides nothing.
    pub fn new_empty() -> (r: GridAxis)
        ensures
            r.x.is_none() && r.y.is_none() && r.z.is_none(),
    {
        GridAxis { x: None, y: None, z: None }
    }

    /// A grid axis with a color for each axis: red for X, green for Y, blue for Z.
    pub fn new_rgb() -> (r: GridAxis)
        ensures
            r.x.is_some() && r.y.is_some() && r.z.is_some(),
    {
        GridAxis { x: Some(tailwind_red()), y: Some(tailwind_green()), z: Some(tailwind_blue()) }
    }

    /// The two endpoints of a line of half-length `size` along `alignment`.
    pub fn create_single_axis(size: i64, alignment: GridAlignment) -> (r: [Vec3i; 2])
        requires
            size > i64::MIN,
        ensures
            r@.map_values(|v: Vec3i| v@) == single_axis(size as int, alignment),
    {
        let r = [
            alignment.shift_vec3(Vec3i::new(0, size, 0)),
            alignment.shift_vec3(Vec3i::new(0, -size, 0)),
        ];
        assert(r@.map_values(|v: Vec3i| v@) =~= single_axis(size as int, alignment));
        r
    }

    /// The axes with a configured color, with that color, and the axes without
    /// one that get a default line: `(used, unused)`.
    pub fn create_axis(&self) -> (r: (Vec<(GridAlignment, Color)>, Vec<GridAlignment>))
        ensures
            r.0@ == self.used_axes(),
            r.1@ == self.unused_axes(),
    {
        let mut axis: Vec<(GridAlignment, Color)> = Vec::new();
        let mut unused: Vec<GridAlignment> = Vec::new();
        if let Some(color) = self.x {
            axis.push((GridAlignment::X, color));
        } else {
            unused.push(GridAlignment::X);
        }
        // The Y axis gets no default line.

        if let Some(color) = self.y {
            axis.push((GridAlignment::Y, color));
        }
        if let Some(color) = self.z {
            axis.push((GridAlignment::Z, color));
        } else {
            unused.push(GridAlignment::Z);
        }
        assert(axis@ =~= self.used_axes());
        assert(unused@ =~= self.unused_axes());
        (axis, unused)
    }

    /// The axes a grid gets when it has no `GridAxis`.
    pub fn default_axis() -> (r: [GridAlignment; 2])
        ensures
            r@ == seq![GridAlignment::X, GridAlignment::Z],
    {
        let r = [GridAlignment::X, GridAlignment::Z];
        assert(r@ =~= seq![GridAlignment::X, GridAlignment::Z]);
        r
    }

    /// The override color of the axis `alignment`, if one is set.
    pub fn get_by_alignment(&self, alignment: &GridAlignment) -> (r: Option<Color>)
        ensures
            r == self.color_for(*alignment),
    {
        match alignment {
            GridAlignment::X => self.x,
            GridAlignment::Y => self.y,
            GridAlignment::Z => self.z,
        }
    }
}

impl Default for GridAxis {
    fn default() -> (r: GridAxis)
        ensures
            r.x.is_none() && r.y.is_none() && r.z.is_none(),
    {
        GridAxis::new_empty()
    }
}

} // verus!
