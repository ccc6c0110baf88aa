//! Line-list vertex buffers of main grids and sub-grids.
//!
//! A line list pairs consecutive vertices into independent segments.
use crate::model::{view_points, Grid, GridAlignment, Point, SubGrid, Vec3i};
use vstd::arithmetic::div_mod::lemma_fundamental_div_mod_converse;
use vstd::arithmetic::mul::{lemma_mul_inequality, lemma_mul_nonnegative};
use vstd::prelude::*;

verus! {

/// Offset of sub-grid vertices along the grid's normal, in ticks.
/// It keeps sub-grid lines from fighting with main lines for depth.
pub const SUB_GRID_NORMAL_OFFSET: i64 = -1;

/// The eight vertices of the four segments at line position `h`: two parallel
/// to Z at `x = ±h` and two parallel to X at `z = ±h`, each from `-size` to
/// `size`, at height `v`.
pub open spec fn line_points(size: int, h: int, v: int) -> Seq<Point> {
    seq![
        (h, v, size),
        (h, v, -size),
        (-h, v, size),
        (-h, v, -size),
        (size, v, h),
        (-size, v, h),
        (size, v, -h),
        (-size, v, -h),
    ]
}

/// The vertices of a main grid: for each line position `i` in `0..count`,
/// the segments at `(i + 1) * spacing`, shifted into `alignment`.
pub open spec fn main_grid_points(alignment: GridAlignment, count: int, spacing: int) -> Seq<Point> {
    Seq::new(
        (8 * count) as nat,
        |j: int| alignment.shift(line_points(count * spacing, (j / 8 + 1) * spacing, 0)[j % 8]),
    )
}

/// The vertices of a sub-grid, over the denominator `sub_count + 1`: for each
/// main cell `i` in `0..count` and each sub-line `k` in `0..sub_count`, the
/// segments at `i * spacing + (k + 1) * spacing / (sub_count + 1)`, lowered by
/// the normal offset and shifted into `alignment`.
pub open spec fn sub_grid_points(
    alignment: GridAlignment,
    count: int,
    spacing: int,
    sub_count: int,
) -> Seq<Point> {
    Seq::new(
        (8 * count * sub_count) as nat,
        |j: int|
            alignment.shift(
                line_points(
                    count * (sub_count + 1) * spacing,
                    ((j / 8) / sub_count * (sub_count + 1) + (j / 8) % sub_count + 1) * spacing,
                    SUB_GRID_NORMAL_OFFSET * (sub_count + 1),
                )[j % 8],
            ),
    )
}

proof fn lemma_block_index(b: int, m: int, w: int)
    requires
        0 <= m < w,
    ensures
        (w * b + m) / w == b,
        (w * b + m) % w == m,
{
    assert(w * b == b * w) by (nonlinear_arith);
    lemma_fundamental_div_mod_converse(w * b + m, w, b, m);
}

/// The vertices of the four segments at line position `horizontal_offset`.
fn line_vertices(size: i64, horizontal_offset: i64, vertical_offset: i64) -> (r: [Vec3i; 8])
    requires
        size > i64::MIN,
        horizontal_offset > i64::MIN,
    ensures
        view_points(r@) == line_points(size as int, horizontal_offset as int, vertical_offset as int),
{
    let h = horizontal_offset;
    let v = vertical_offset;
    let r = [
        Vec3i::new(h, v, size),
        Vec3i::new(h, v, -size),
        Vec3i::new(-h, v, size),
        Vec3i::new(-h, v, -size),
        Vec3i::new(size, v, h),
        Vec3i::new(-size, v, h),
        Vec3i::new(size, v, -h),
        Vec3i::new(-size, v, -h),
    ];
    assert(view_points(r@) =~= line_points(size as int, h as int, v as int));
    r
}

/// Appends the vertices of `block`, shifted into `alignment`.
fn push_shifted(out: &mut Vec<Vec3i>, block: &[Vec3i; 8], alignment: GridAlignment)
    ensures
        view_points(final(out)@) == view_points(old(out)@) + view_points(block@).map_values(
            |p: Point| alignment.shift(p),
        ),
{
    let ghost start = view_points(out@);
    let ghost shifted = view_points(block@).map_values(|p: Point| alignment.shift(p));
    let mut m: usize = 0;
    while m < 8
        invariant
            0 <= m <= 8,
            shifted == view_points(block@).map_values(|p: Point| alignment.shift(p)),
            view_points(out@) == start + shifted.take(m as int),
        decreases 8 - m,
    {
        let ghost before = out@;
        let v = alignment.shift_vec3(block[m]);
        out.push(v);
        proof {
            assert(out@ == before.push(v));
            assert(view_points(out@) =~= view_points(before).push(v@));
            assert(v@ == shifted[m as int]);
            assert(start + shifted.take(m + 1) =~= (start + shifted.take(m as int)).push(
                shifted[m as int],
            ));
        }
        m = m + 1;
    }
    assert(shifted.take(8) =~= shifted);
}

/// The line-list vertices of a main grid in `alignment`, and the grid's
/// half-size `count * spacing`.
pub fn main_grid_vertices_and_size(grid: &Grid, alignment: &GridAlignment) -> (r: (Vec<Vec3i>, i64))
    requires
        grid.mesh_fits(),
    ensures
        view_points(r.0@) == main_grid_points(*alignment, grid.count as int, grid.spacing as int),
        r.1 == grid.half_size(),
{
    let ghost pts = main_grid_points(*alignment, grid.count as int, grid.spacing as int);
    let spacing = grid.spacing as i64;
    proof {
        lemma_mul_nonnegative(grid.count as int, grid.spacing as int);
    }
    let size = (grid.count as i64) * spacing;
    let mut vertices: Vec<Vec3i> = Vec::new();
    let mut i: usize = 0;
    while i < grid.count
        invariant
            0 <= i <= grid.count,
            grid.mesh_fits(),
            spacing == grid.spacing,
            size == grid.count * grid.spacing,
            pts == main_grid_points(*alignment, grid.count as int, grid.spacing as int),
            pts.len() == 8 * grid.count,
            view_points(vertices@) == pts.take(8 * i),
        decreases grid.count - i,
    {
        proof {
            lemma_mul_inequality(i + 1, grid.count as int, grid.spacing as int);
            lemma_mul_nonnegative(i + 1, grid.spacing as int);
        }
        let offset = ((i + 1) as i64) * spacing;
        let block = line_vertices(size, offset, 0);
        push_shifted(&mut vertices, &block, *alignment);
        proof {
            assert forall|j: int| 8 * i <= j < 8 * (i + 1) implies #[trigger] pts[j] == view_points(
                block@,
            ).map_values(|p: Point| alignment.shift(p))[j - 8 * i] by {
                lemma_block_index(i as int, j - 8 * i, 8);
            }
            assert(view_points(vertices@) =~= pts.take(8 * (i + 1)));
        }
        i = i + 1;
    }
    assert(pts.take(8 * grid.count) =~= pts);
    (vertices, size)
}

/// The line-list vertices of the sub-grid of `grid` in `alignment`, over the
/// denominator `sub_grid.count + 1`, and that denominator.
pub fn sub_grid_vertices_and_scale(
    grid: &Grid,
    sub_grid: &SubGrid,
    alignment: &GridAlignment,
) -> (r: (Vec<Vec3i>, i64))
    requires
        grid.sub_mesh_fits(sub_grid.count as int),
    ensures
        view_points(r.0@) == sub_grid_points(
            *alignment,
            grid.count as int,
            grid.spacing as int,
            sub_grid.count as int,
        ),
        r.1 == sub_grid.count + 1,
{
    let ghost n = sub_grid.count as int;
    let ghost c = grid.count as int;
    let ghost s = grid.spacing as int;
    let ghost pts = sub_grid_points(*alignment, c, s, n);
    let spacing = grid.spacing as i64;
    let scale = (sub_grid.count as i64) + 1;
    proof {
        lemma_mul_nonnegative(c, n + 1);
        lemma_mul_nonnegative(c * (n + 1), s);
        lemma_mul_nonnegative(8 * c, n);
    }
    let cells = (grid.count as i64) * scale;
    let size = cells * spacing;
    assert(SUB_GRID_NORMAL_OFFSET * scale == -scale);
    let vertical = SUB_GRID_NORMAL_OFFSET * scale;
    let mut vertices: Vec<Vec3i> = Vec::new();
    let mut i: usize = 0;
    let mut base: i64 = 0;
    while i < grid.count
        invariant
            0 <= i <= grid.count,
            grid.sub_mesh_fits(n),
            n == sub_grid.count,
            c == grid.count,
            s == grid.spacing,
            spacing == s,
            scale == n + 1,
            cells == c * (n + 1),
            size == c * (n + 1) * s,
            vertical == SUB_GRID_NORMAL_OFFSET * (n + 1),
            base == i * (n + 1),
            pts == sub_grid_points(*alignment, c, s, n),
            pts.len() == 8 * c * n,
            view_points(vertices@) == pts.take(8 * (i * n)),
        decreases grid.count - i,
    {
        let mut k: usize = 0;
        while k < sub_grid.count
            invariant
                0 <= i < grid.count,
                0 <= k <= sub_grid.count,
                grid.sub_mesh_fits(n),
                n == sub_grid.count,
                c == grid.count,
                s == grid.spacing,
                spacing == s,
                scale == n + 1,
                cells == c * (n + 1),
                size == c * (n + 1) * s,
                vertical == SUB_GRID_NORMAL_OFFSET * (n + 1),
                base == i * (n + 1),
                pts == sub_grid_points(*alignment, c, s, n),
                pts.len() == 8 * c * n,
                view_points(vertices@) == pts.take(8 * (i * n + k)),
            decreases sub_grid.count - k,
        {
            proof {
                assert(i * (n + 1) + k + 1 <= c * (n + 1)) by (nonlinear_arith)
                    requires
                        0 <= i < c,
                        0 <= k < n,
                ;
                lemma_mul_inequality(i * (n + 1) + k + 1, c * (n + 1), s);
                lemma_mul_nonnegative(i * (n + 1) + k + 1, s);
                assert(8 * (i * n + k + 1) <= 8 * c * n) by (nonlinear_arith)
                    requires
                        0 <= i < c,
                        0 <= k < n,
                ;
            }
            let step = base + (k as i64) + 1;
            let offset = step * spacing;
            let block = line_vertices(size, offset, vertical);
            push_shifted(&mut vertices, &block, *alignment);
            proof {
                let b = i * n + k;
                assert forall|j: int| 8 * b <= j < 8 * (b + 1) implies #[trigger] pts[j]
                    == view_points(block@).map_values(|p: Point| alignment.shift(p))[j - 8 * b] by {
                    lemma_block_index(b, j - 8 * b, 8);
                    lemma_block_index(i as int, k as int, n);
                    assert(n * i == i * n) by (nonlinear_arith);
                }
                assert(view_points(vertices@) =~= pts.take(8 * (b + 1)));
            }
            k = k + 1;
        }
        proof {
            assert(i * (n + 1) + n + 1 <= c * (n + 1)) by (nonlinear_arith)
                requires
                    0 <= i < c,
                    0 <= n,
            ;
            assert(i * n + n == (i + 1) * n) by (nonlinear_arith);
            assert((i + 1) * (n + 1) == i * (n + 1) + n + 1) by (nonlinear_arith);
            assert((i + 1) * (n + 1) <= c * (n + 1)) by (nonlinear_arith)
                requires
                    0 <= i < c,
                    0 <= n,
            ;
        }
        base = base + scale;
        i = i + 1;
    }
    assert(pts.take(8 * (c * n)) =~= pts) by {
        assert(8 * (c * n) == 8 * c * n) by (nonlinear_arith);
    }
    (vertices, scale)
}

/// A main grid has eight vertices for each line position, and a sub-grid
/// eight for each sub-line of each cell.
pub proof fn lemma_vertex_counts(alignment: GridAlignment, count: nat, spacing: nat, sub_count: nat)
    ensures
        main_grid_points(alignment, count as int, spacing as int).len() == 8 * count,
        sub_grid_points(alignment, count as int, spacing as int, sub_count as int).len() == 8 * count
            * sub_count,
{
    assert(8 * count * sub_count >= 0) by (nonlinear_arith);
}

proof fn lemma_same_points(a: Seq<Vec3i>, b: Seq<Vec3i>)
    requires
        view_points(a) == view_points(b),
    ensures
        a == b,
{
    assert(a.len() == view_points(a).len());
    assert forall|i: int| 0 <= i < a.len() implies a[i] == b[i] by {
        assert(view_points(a)[i] == a[i]@);
        assert(view_points(b)[i] == b[i]@);
    }
    assert(a =~= b);
}

/// Two builds of a main grid from equal line counts and spacings, in the same
/// alignment, give identical vertex sequences.
pub proof fn lemma_main_grid_deterministic(
    first: Grid,
    second: Grid,
    alignment: GridAlignment,
    first_vertices: Seq<Vec3i>,
    second_vertices: Seq<Vec3i>,
)
    requires
        first.count == second.count,
        first.spacing == second.spacing,
        view_points(first_vertices) == main_grid_points(alignment, first.count as int, first.spacing as int),
        view_points(second_vertices) == main_grid_points(alignment, second.count as int, second.spacing as int),
    ensures
        first_vertices == second_vertices,
{
    lemma_same_points(first_vertices, second_vertices);
}

/// Two builds of a sub-grid from equal line counts and spacings, in the same
/// alignment, give identical vertex sequences.
pub proof fn lemma_sub_grid_deterministic(
    grid: Grid,
    sub_grid: SubGrid,
    alignment: GridAlignment,
    first_vertices: Seq<Vec3i>,
    second_vertices: Seq<Vec3i>,
)
    requires
        view_points(first_vertices) == sub_grid_points(
            alignment,
            grid.count as int,
            grid.spacing as int,
            sub_grid.count as int,
        ),
        view_points(second_vertices) == sub_grid_points(
            alignment,
            grid.count as int,
            grid.spacing as int,
            sub_grid.count as int,
        ),
    ensures
        first_vertices == second_vertices,
{
    lemma_same_points(first_vertices, second_vertices);
}

} // verus!
