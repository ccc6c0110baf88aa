//! Descriptor components of a reference grid and the integer vector type that
//! carries positions through the library.
//!
//! Lengths are fixed-point: one world unit is `TICKS_PER_UNIT` ticks.
use bevy::color::Color;
use bevy::render::alpha::AlphaMode;
use vstd::prelude::*;

verus! {

/// Number of length ticks in one world unit.
pub const TICKS_PER_UNIT: i64 = 1000;

/// bevy's `Color`, carried through as an opaque value: the library never
/// looks inside a color.
#[verifier::external_type_specification]
#[verifier::external_body]
pub struct ExColor(Color);

/// bevy's `AlphaMode`, carried through as an opaque value.
#[verifier::external_type_specification]
#[verifier::external_body]
pub struct ExAlphaMode(AlphaMode);

/// Handle of an entity in the host's entity store, as its raw bits.
#[derive(Clone, Copy, Debug, PartialEq, Eq, Structural, Hash)]
pub struct EntityId(pub u64);

/// A point or direction with integer coordinates.
#[derive(Clone, Copy, Debug, PartialEq, Eq, Structural)]
pub struct Vec3i {
    pub x: i64,
    pub y: i64,
    pub z: i64,
}

/// Mathematical value of a `Vec3i`.
pub type Point = (int, int, int);

impl View for Vec3i {
    type V = Point;

    open spec fn view(&self) -> Point {
        (self.x as int, self.y as int, self.z as int)
    }
}

/// Mathematical values of a sequence of vectors.
pub open spec fn view_points(v: Seq<Vec3i>) -> Seq<Point> {
    v.map_values(|p: Vec3i| p@)
}

/// Whether every coordinate of `p` is an `i64`.
pub open spec fn point_fits(p: Point) -> bool {
    i64::MIN <= p.0 <= i64::MAX && i64::MIN <= p.1 <= i64::MAX && i64::MIN <= p.2 <= i64::MAX
}

impl Vec3i {
    pub fn new(x: i64, y: i64, z: i64) -> (r: Vec3i)
        ensures
            r@ == (x as int, y as int, z as int),
    {
        Vec3i { x, y, z }
    }

    pub fn zero() -> (r: Vec3i)
        ensures
            r@ == (0int, 0int, 0int),
    {
        Vec3i { x: 0, y: 0, z: 0 }
    }
}

/// The axis normal to a grid's plane. `Y` gives a floor.
#[derive(Clone, Copy, Debug, PartialEq, Eq, Structural)]
pub enum GridAlignment {
    X,
    Y,
    Z,
}

impl Default for GridAlignment {
    fn default() -> (r: GridAlignment)
        ensures
            r == GridAlignment::Y,
    {
        GridAlignment::Y
    }
}

impl GridAlignment {
    /// Unit vector along the normal axis.
    pub open spec fn axis(self) -> Point {
        match self {
            GridAlignment::X => (1, 0, 0),
            GridAlignment::Y => (0, 1, 0),
            GridAlignment::Z => (0, 0, 1),
        }
    }

    /// One minus the unit vector: keeps the two in-plane coordinates.
    pub open spec fn inverted_axis(self) -> Point {
        (1 - self.axis().0, 1 - self.axis().1, 1 - self.axis().2)
    }

    /// Rotation of a `Y`-aligned point into this alignment's space.
    pub open spec fn shift(self, p: Point) -> Point {
        match self {
            GridAlignment::X => (p.1, p.2, p.0),
            GridAlignment::Y => p,
            GridAlignment::Z => (p.2, p.0, p.1),
        }
    }

    pub fn to_axis_vec3(&self) -> (r: Vec3i)
        ensures
            r@ == self.axis(),
    {
        match self {
            GridAlignment::X => Vec3i::new(1, 0, 0),
            GridAlignment::Y => Vec3i::new(0, 1, 0),
            GridAlignment::Z => Vec3i::new(0, 0, 1),
        }
    }

    pub fn to_inverted_axis_vec3(&self) -> (r: Vec3i)
        ensures
            r@ == self.inverted_axis(),
    {
        let a = self.to_axis_vec3();
        Vec3i::new(1 - a.x, 1 - a.y, 1 - a.z)
    }

    /// Shifts the coordinates of `input`; the default `Y` alignment keeps them.
    pub fn shift_vec3(&self, input: Vec3i) -> (r: Vec3i)
        ensures
            r@ == self.shift(input@),
    {
        match self {
            GridAlignment::X => Vec3i::new(input.y, input.z, input.x),
            GridAlignment::Y => input,
            GridAlignment::Z => Vec3i::new(input.z, input.x, input.y),
        }
    }
}

/// The main grid component.
#[derive(Clone, Copy, Debug)]
pub struct Grid {
    /// Spacing between lines, in ticks.
    pub spacing: u32,
    /// Line count on one axis.
    pub count: usize,
    /// Line color.
    pub color: Color,
    /// Alpha mode.
    pub alpha_mode: AlphaMode,
}

impl Grid {
    /// Half the side of the square mesh, in ticks.
    pub open spec fn half_size(self) -> int {
        self.count * self.spacing
    }

    /// Whether the grid's mesh can be held in machine integers.
    pub open spec fn mesh_fits(self) -> bool {
        self.count * self.spacing <= i64::MAX && 8 * self.count + 4 <= usize::MAX
    }

    /// Whether a sub-grid of `sub_count` lines per cell can be held in machine integers.
    pub open spec fn sub_mesh_fits(self, sub_count: int) -> bool {
        &&& self.mesh_fits()
        &&& sub_count + 1 <= i64::MAX
        &&& self.count * (sub_count + 1) <= i64::MAX
        &&& self.count * (sub_count + 1) * self.spacing <= i64::MAX
        &&& 8 * self.count * sub_count <= usize::MAX
    }

    /// Tests `mesh_fits`.
    pub fn fits_mesh(&self) -> (r: bool)
        ensures
            r == self.mesh_fits(),
    {
        proof {
            assert(self.count * self.spacing <= u64::MAX * u32::MAX) by (nonlinear_arith)
                requires
                    self.count <= u64::MAX,
                    self.spacing <= u32::MAX,
            ;
        }
        let size = (self.count as u128) * (self.spacing as u128);
        let verts = (self.count as u128) * 8 + 4;
        size <= i64::MAX as u128 && verts <= usize::MAX as u128
    }

    /// Tests `sub_mesh_fits`.
    pub fn fits_sub_mesh(&self, sub_count: usize) -> (r: bool)
        ensures
            r == self.sub_mesh_fits(sub_count as int),
    {
        if !self.fits_mesh() || sub_count as u128 + 1 > i64::MAX as u128 {
            return false;
        }
        let c = self.count as u128;
        let n = sub_count as u128;
        proof {
            assert(c * (n + 1) <= u64::MAX * (u64::MAX + 1)) by (nonlinear_arith)
                requires
                    c <= u64::MAX,
                    n <= u64::MAX,
            ;
        }
        let cells = c * (n + 1);
        if cells > i64::MAX as u128 {
            return false;
        }
        proof {
            assert(cells * self.spacing <= i64::MAX * u32::MAX) by (nonlinear_arith)
                requires
                    cells <= i64::MAX,
                    self.spacing <= u32::MAX,
            ;
            assert(c * n <= u64::MAX * u64::MAX) by (nonlinear_arith)
                requires
                    c <= u64::MAX,
                    n <= u64::MAX,
            ;
        }
        let size = cells * (self.spacing as u128);
        let lines = c * n;
        if lines > usize::MAX as u128 {
            assert(8 * c * n > usize::MAX) by (nonlinear_arith)
                requires
                    lines == c * n,
                    lines > usize::MAX,
            ;
            return false;
        }
        assert(8 * c * n == 8 * lines) by (nonlinear_arith)
            requires
                lines == c * n,
        ;
        let verts = 8 * lines;
        size <= i64::MAX as u128 && verts <= usize::MAX as u128
    }
}

/// Adds lines between the lines of a grid on the same entity.
#[derive(Clone, Copy, Debug)]
pub struct SubGrid {
    /// Line count between two neighbouring lines of the main grid.
    pub count: usize,
    /// Line color.
    pub color: Color,
}

/// Custom color overrides for the axes of a grid on the same entity.
#[derive(Clone, Copy, Debug)]
pub struct GridAxis {
    /// Color of the X axis.
    pub x: Option<Color>,
    /// Color of the Y axis.
    pub y: Option<Color>,
    /// Color of the Z axis.
    pub z: Option<Color>,
}

/// Marks a grid as following a tracked entity, normally the active camera.
///
/// A tracked grid should not be parented to a moving entity.
#[derive(Clone, Copy, Debug)]
pub struct TrackedGrid {
    /// Normal of the tracked plane.
    pub alignment: GridAlignment,
    /// Offset of the grid along its normal, in ticks.
    pub offset: i64,
    /// Entity to track instead of the generic trackable one.
    pub tracking_override: Option<EntityId>,
}

impl Default for TrackedGrid {
    fn default() -> (r: TrackedGrid)
        ensures
            r.alignment == GridAlignment::Y,
            r.offset == 0,
            r.tracking_override.is_none(),
    {
        TrackedGrid { alignment: GridAlignment::Y, offset: 0, tracking_override: None }
    }
}

} // verus!
