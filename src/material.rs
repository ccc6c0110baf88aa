//! Material parameters of generated grid children.
use crate::model::{GridAlignment, GridAxis};
use bevy::color::Color;
use bevy::render::alpha::AlphaMode;
use vstd::prelude::*;

verus! {

/// Material with no behaviour beyond a flat color, for untracked grids.
#[derive(Clone, Copy, Debug)]
pub struct SimpleLineMaterial {
    pub color: Color,
    pub alpha_mode: AlphaMode,
}

impl SimpleLineMaterial {
    pub fn new(color: Color, alpha_mode: AlphaMode) -> (r: SimpleLineMaterial)
        ensures
            r == (SimpleLineMaterial { color, alpha_mode }),
    {
        SimpleLineMaterial { color, alpha_mode }
    }
}

/// Material of tracked grids: it clips lines beyond `radius` from the tracked
/// point, which makes the grid look infinite.
#[derive(Clone, Copy, Debug)]
pub struct ClippedLineMaterial {
    pub color: Color,
    pub alpha_mode: AlphaMode,
    pub alignment: GridAlignment,
    /// Clipping radius, in ticks.
    pub radius: i64,
    /// Offset of the grid along its normal, in ticks.
    pub offset: i64,
    pub x_axis_color: Color,
    pub y_axis_color: Color,
    pub z_axis_color: Color,
}

/// The override color of axis `alignment` in `axis`, else `color`.
pub open spec fn axis_color_or(axis: Option<GridAxis>, alignment: GridAlignment, color: Color) -> Color {
    match axis {
        Some(a) => match a.color_for(alignment) {
            Some(c) => c,
            None => color,
        },
        None => color,
    }
}

/// The material that `ClippedLineMaterial::new` gives.
pub open spec fn clipped_material(
    color: Color,
    alpha_mode: AlphaMode,
    alignment: GridAlignment,
    radius: i64,
    offset: i64,
    axis: Option<GridAxis>,
) -> ClippedLineMaterial {
    ClippedLineMaterial {
        color,
        alpha_mode,
        alignment,
        radius,
        offset,
        x_axis_color: axis_color_or(axis, GridAlignment::X, color),
        y_axis_color: axis_color_or(axis, GridAlignment::Y, color),
        z_axis_color: axis_color_or(axis, GridAlignment::Z, color),
    }
}

/// The `GridAxis` behind an optional reference.
pub open spec fn deref_axis(axis: Option<&GridAxis>) -> Option<GridAxis> {
    match axis {
        Some(a) => Some(*a),
        None => None,
    }
}

fn color_or(axis: Option<&GridAxis>, alignment: GridAlignment, color: Color) -> (r: Color)
    ensures
        r == axis_color_or(deref_axis(axis), alignment, color),
{
    match axis {
        Some(a) => match a.get_by_alignment(&alignment) {
            Some(c) => c,
            None => color,
        },
        None => color,
    }
}

impl ClippedLineMaterial {
    /// Each axis color is the override in `axis`, if any, else `color`.
    pub fn new(
        color: Color,
        alpha_mode: AlphaMode,
        alignment: GridAlignment,
        radius: i64,
        offset: i64,
        axis: Option<&GridAxis>,
    ) -> (r: ClippedLineMaterial)
        ensures
            r == clipped_material(color, alpha_mode, alignment, radius, offset, deref_axis(axis)),
    {
        let x_axis_color = color_or(axis, GridAlignment::X, color);
        let y_axis_color = color_or(axis, GridAlignment::Y, color);
        let z_axis_color = color_or(axis, GridAlignment::Z, color);
        ClippedLineMaterial {
            color,
            alpha_mode,
            alignment,
            radius,
            offset,
            x_axis_color,
            y_axis_color,
            z_axis_color,
        }
    }
}

/// The material of one generated child.
#[derive(Clone, Copy, Debug)]
pub enum LineMaterial {
    Simple(SimpleLineMaterial),
    Clipped(ClippedLineMaterial),
}

} // verus!
