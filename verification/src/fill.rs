//! Reference semantics of the two grid-generation compute passes: what the
//! vertex buffer and the index buffer hold once generation completes.
//!
//! Positions are exact rationals: each coordinate is a numerator in
//! fixed-point range units, over the denominator `width - 1` (or
//! `height - 1`), so that sample `i` of axis `[start, end]` sits at
//! `(start * (steps - i) + end * i) / steps`. The render layer divides once
//! when it converts to floats; the lerp itself is proved here.

use vstd::prelude::*;

use crate::grid::GridDims;

verus! {

/// Bound on a fixed-point range endpoint (1000 world units), keeping every
/// lerp numerator far from `i64` overflow.
pub const RANGE_LIMIT: i64 = 1_000_000_000;

/// Largest sample count an axis can have under the `GridDims` sizing bound
/// (24 bytes per vertex, two samples on the other axis).
pub const MAX_AXIS_SAMPLES: u32 = 89_478_485;

/// An inclusive numeric range along one generation axis, in fixed-point
/// units.
#[derive(Clone, Copy, Debug, PartialEq, Eq, Structural)]
pub struct AxisRange {
    pub start: i64,
    pub end: i64,
}

impl AxisRange {
    pub open spec fn wf(self) -> bool {
        &&& -RANGE_LIMIT <= self.start <= RANGE_LIMIT
        &&& -RANGE_LIMIT <= self.end <= RANGE_LIMIT
    }
}

/// One generated vertex: position and color numerators in fixed-point range
/// units. `x_num` is over denominator `width - 1`, `y_num` over
/// `height - 1`; the z coordinate and the color are zero until an evaluator
/// overwrites them.
#[derive(Clone, Copy, Debug, PartialEq, Eq, Structural)]
pub struct GenVertex {
    pub x_num: i64,
    pub y_num: i64,
    pub z_num: i64,
    pub red_num: i64,
    pub green_num: i64,
    pub blue_num: i64,
}

/// Numerator of the linear interpolation that places sample `i` of `steps`
/// within `[a, b]`: the exact position is `lerp_num(..) / steps`.
pub open spec fn lerp_num(a: int, b: int, i: int, steps: int) -> int {
    a * (steps - i) + b * i
}

/// What the vertex-generation pass writes for the sample at grid coordinate
/// (`i`, `j`): position (lerp of the x range at i, lerp of the y range at j,
/// 0) and color zero.
pub open spec fn is_generated_vertex(
    dims: GridDims,
    x_range: AxisRange,
    y_range: AxisRange,
    v: GenVertex,
    i: int,
    j: int,
) -> bool {
    &&& v.x_num == lerp_num(x_range.start as int, x_range.end as int, i, dims.width - 1)
    &&& v.y_num == lerp_num(y_range.start as int, y_range.end as int, j, dims.height - 1)
    &&& v.z_num == 0
    &&& v.red_num == 0
    &&& v.green_num == 0
    &&& v.blue_num == 0
}

/// The whole generated vertex buffer: one vertex per sample, laid out row
/// by row (sample (`i`, `j`) at linear position `j * width + i`).
pub open spec fn is_generated_vertex_seq(
    dims: GridDims,
    x_range: AxisRange,
    y_range: AxisRange,
    s: Seq<GenVertex>,
) -> bool {
    &&& s.len() == dims.vertex_count_spec()
    &&& forall|k: int|
        0 <= k < s.len() ==> is_generated_vertex(
            dims,
            x_range,
            y_range,
            #[trigger] s[k],
            k % (dims.width as int),
            k / (dims.width as int),
        )
}

/// The `t`-th of the six indices the index-generation pass emits for the
/// interior cell at (`ci`, `cj`): two counter-clockwise triangles covering
/// the quad with corners (ci, cj), (ci+1, cj), (ci, cj+1), (ci+1, cj+1).
pub open spec fn cell_corner(w: int, ci: int, cj: int, t: int) -> int {
    let a = cj * w + ci;
    let b = cj * w + ci + 1;
    let c = (cj + 1) * w + ci;
    let d = (cj + 1) * w + ci + 1;
    if t == 0 {
        a
    } else if t == 1 {
        b
    } else if t == 2 {
        d
    } else if t == 3 {
        a
    } else if t == 4 {
        d
    } else {
        c
    }
}

/// The value at linear position `k` of the generated index buffer: cells
/// are laid out row by row, six indices per cell.
pub open spec fn index_at(dims: GridDims, k: int) -> int {
    let cells_per_row = dims.width - 1;
    let cell = k / 6;
    let t = k % 6;
    let ci = cell % cells_per_row;
    let cj = cell / cells_per_row;
    cell_corner(dims.width as int, ci, cj, t)
}

/// The whole generated index buffer: six indices per interior cell.
pub open spec fn is_generated_index_seq(dims: GridDims, s: Seq<u32>) -> bool {
    &&& s.len() == dims.index_count_spec()
    &&& forall|k: int| 0 <= k < s.len() ==> #[trigger] s[k] == index_at(dims, k)
}

/// Both axis sample counts stay below `MAX_AXIS_SAMPLES` under the sizing
/// bound.
pub proof fn lemma_axis_bounds(dims: GridDims)
    requires
        dims.wf(),
    ensures
        dims.width <= MAX_AXIS_SAMPLES,
        dims.height <= MAX_AXIS_SAMPLES,
{
    let w = dims.width as int;
    let h = dims.height as int;
    assert(48 * w <= 24 * w * h && 48 * h <= 24 * w * h) by (nonlinear_arith)
        requires
            w >= 2,
            h >= 2,
    ;
}

/// Fixed-point lerp numerator, as the generation shader computes it.
fn lerp_fixed(a: i64, b: i64, i: u32, steps: u32) -> (r: i64)
    requires
        -RANGE_LIMIT <= a <= RANGE_LIMIT,
        -RANGE_LIMIT <= b <= RANGE_LIMIT,
        i <= steps,
        steps < MAX_AXIS_SAMPLES,
    ensures
        r == lerp_num(a as int, b as int, i as int, steps as int),
{
    let rem = (steps - i) as i64;
    let fwd = i as i64;
    proof {
        assert(-(1_000_000_000i64 * 89_478_485i64) <= a * rem <= 1_000_000_000i64 * 89_478_485i64
            && -(1_000_000_000i64 * 89_478_485i64) <= b * fwd <= 1_000_000_000i64
            * 89_478_485i64) by (nonlinear_arith)
            requires
                -1_000_000_000 <= a <= 1_000_000_000,
                -1_000_000_000 <= b <= 1_000_000_000,
                0 <= rem < 89_478_485,
                0 <= fwd < 89_478_485,
        ;
    }
    a * rem + b * fwd
}

/// Reference model of the vertex-generation pass: the vertex buffer contents
/// for `dims` samples spanning `x_range` x `y_range`.
pub fn grid_vertices(dims: &GridDims, x_range: &AxisRange, y_range: &AxisRange) -> (r: Vec<
    GenVertex,
>)
    requires
        dims.wf(),
        x_range.wf(),
        y_range.wf(),
    ensures
        is_generated_vertex_seq(*dims, *x_range, *y_range, r@),
{
    let w = dims.width;
    let h = dims.height;
    proof {
        lemma_axis_bounds(*dims);
    }
    let total = dims.vertex_count();
    let mut r: Vec<GenVertex> = Vec::new();
    let mut k: u32 = 0;
    while k < total
        invariant
            dims.wf(),
            x_range.wf(),
            y_range.wf(),
            w == dims.width,
            h == dims.height,
            w <= MAX_AXIS_SAMPLES,
            h <= MAX_AXIS_SAMPLES,
            total == dims.vertex_count_spec(),
            k <= total,
            r@.len() == k,
            forall|k0: int|
                0 <= k0 < r@.len() ==> is_generated_vertex(
                    *dims,
                    *x_range,
                    *y_range,
                    #[trigger] r@[k0],
                    k0 % (dims.width as int),
                    k0 / (dims.width as int),
                ),
        decreases total - k,
    {
        let i = k % w;
        let j = k / w;
        proof {
            assert((k as int) < (w as int) * (h as int)) by (nonlinear_arith)
                requires
                    k < total,
                    total == (w as int) * (h as int),
            ;
            vstd::arithmetic::div_mod::lemma_mod_bound(k as int, w as int);
            vstd::arithmetic::div_mod::lemma_multiply_divide_lt(k as int, w as int, h as int);
        }
        let x_num = lerp_fixed(x_range.start, x_range.end, i, w - 1);
        let y_num = lerp_fixed(y_range.start, y_range.end, j, h - 1);
        r.push(
            GenVertex { x_num, y_num, z_num: 0, red_num: 0, green_num: 0, blue_num: 0 },
        );
        k = k + 1;
    }
    r
}

/// The value at linear position `k` of the index buffer, as the
/// index-generation shader computes it for its cell.
fn index_value_at(dims: &GridDims, k: u32) -> (r: u32)
    requires
        dims.wf(),
        k < dims.index_count_spec(),
    ensures
        r == index_at(*dims, k as int),
        r < dims.vertex_count_spec(),
{
    let w = dims.width;
    let h = dims.height;
    let cells_per_row = w - 1;
    let cell = k / 6;
    let t = k % 6;
    proof {
        lemma_cell_of_index(*dims, k as int);
    }
    let ci = cell % cells_per_row;
    let cj = cell / cells_per_row;
    proof {
        lemma_cell_corners_in_grid(w as int, h as int, ci as int, cj as int);
        assert((w as int) * (h as int) <= u32::MAX) by (nonlinear_arith)
            requires
                w >= 2,
                h >= 2,
                24 * (w as int) * (h as int) <= u32::MAX,
        ;
    }
    let a = cj * w + ci;
    let b = a + 1;
    let c = (cj + 1) * w + ci;
    let d = c + 1;
    if t == 0 {
        a
    } else if t == 1 {
        b
    } else if t == 2 {
        d
    } else if t == 3 {
        a
    } else if t == 4 {
        d
    } else {
        c
    }
}

/// All four corner indices of an interior cell address grid vertices.
proof fn lemma_cell_corners_in_grid(w: int, h: int, ci: int, cj: int)
    requires
        w >= 2,
        h >= 2,
        0 <= ci < w - 1,
        0 <= cj < h - 1,
    ensures
        0 <= cj * w,
        cj * w + ci < w * h,
        cj * w + ci + 1 < w * h,
        (cj + 1) * w + ci < w * h,
        (cj + 1) * w + ci + 1 < w * h,
{
    assert(0 <= cj * w && (cj + 1) * w + ci + 1 < w * h && cj * w < (cj + 1) * w)
        by (nonlinear_arith)
        requires
            w >= 2,
            h >= 2,
            0 <= ci < w - 1,
            0 <= cj < h - 1,
    ;
}

/// A position within the index buffer belongs to a cell within the grid.
proof fn lemma_cell_of_index(dims: GridDims, k: int)
    requires
        dims.wf(),
        0 <= k < dims.index_count_spec(),
    ensures
        0 <= k / 6 < (dims.width - 1) * (dims.height - 1),
        0 <= k % 6 < 6,
        0 <= (k / 6) % (dims.width as int - 1) < dims.width - 1,
        0 <= (k / 6) / (dims.width as int - 1) < dims.height - 1,
{
    let w = dims.width as int;
    let h = dims.height as int;
    let cells = (w - 1) * (h - 1);
    assert(k < 6 * cells) by (nonlinear_arith)
        requires
            k < (w - 1) * (h - 1) * 6,
            cells == (w - 1) * (h - 1),
    ;
    vstd::arithmetic::div_mod::lemma_mod_bound(k, 6);
    vstd::arithmetic::div_mod::lemma_multiply_divide_lt(k, 6, cells);
    vstd::arithmetic::div_mod::lemma_div_pos_is_pos(k, 6);
    let cell = k / 6;
    vstd::arithmetic::div_mod::lemma_mod_bound(cell, w - 1);
    vstd::arithmetic::div_mod::lemma_div_pos_is_pos(cell, w - 1);
    assert(cell < (w - 1) * (h - 1));
    vstd::arithmetic::div_mod::lemma_multiply_divide_lt(cell, w - 1, h - 1);
}

/// Reference model of the index-generation pass: the index buffer contents
/// for a grid of `dims` samples.
pub fn grid_indices(dims: &GridDims) -> (r: Vec<u32>)
    requires
        dims.wf(),
    ensures
        is_generated_index_seq(*dims, r@),
{
    let total = dims.index_count();
    let mut r: Vec<u32> = Vec::new();
    let mut k: u32 = 0;
    while k < total
        invariant
            dims.wf(),
            total == dims.index_count_spec(),
            k <= total,
            r@.len() == k,
            forall|k0: int| 0 <= k0 < r@.len() ==> #[trigger] r@[k0] == index_at(*dims, k0),
        decreases total - k,
    {
        let v = index_value_at(dims, k);
        r.push(v);
        k = k + 1;
    }
    r
}

/// Vertex positions, stated per grid coordinate: immediately after
/// generation, the vertex for sample (`i`, `j`) sits at the lerp of the two
/// ranges (and z and color are zero), for every sample of the grid.
pub proof fn lemma_vertex_position(
    dims: GridDims,
    x_range: AxisRange,
    y_range: AxisRange,
    s: Seq<GenVertex>,
    i: int,
    j: int,
)
    requires
        dims.wf(),
        is_generated_vertex_seq(dims, x_range, y_range, s),
        0 <= i < dims.width,
        0 <= j < dims.height,
    ensures
        is_generated_vertex(dims, x_range, y_range, s[j * (dims.width as int) + i], i, j),
{
    let w = dims.width as int;
    let h = dims.height as int;
    let k = j * w + i;
    assert(0 <= k < w * h) by (nonlinear_arith)
        requires
            0 <= i < w,
            0 <= j < h,
            k == j * w + i,
    ;
    vstd::arithmetic::div_mod::lemma_fundamental_div_mod_converse(k, w, j, i);
}

/// Index-buffer contents, stated per cell: the six indices the generation
/// pass emits for the interior cell at (`ci`, `cj`) are the cell's two
/// counter-clockwise triangles.
pub proof fn lemma_cell_indices(dims: GridDims, s: Seq<u32>, ci: int, cj: int, t: int)
    requires
        dims.wf(),
        is_generated_index_seq(dims, s),
        0 <= ci < dims.width - 1,
        0 <= cj < dims.height - 1,
        0 <= t < 6,
    ensures
        s[(cj * (dims.width - 1) + ci) * 6 + t] == cell_corner(dims.width as int, ci, cj, t),
{
    let w = dims.width as int;
    let h = dims.height as int;
    let cell = cj * (w - 1) + ci;
    let k = cell * 6 + t;
    assert(0 <= cell < (w - 1) * (h - 1) && 0 <= k < (w - 1) * (h - 1) * 6 && k == (cj * (w - 1)
        + ci) * 6 + t) by (nonlinear_arith)
        requires
            0 <= ci < w - 1,
            0 <= cj < h - 1,
            cell == cj * (w - 1) + ci,
            k == cell * 6 + t,
            0 <= t < 6,
    ;
    vstd::arithmetic::div_mod::lemma_fundamental_div_mod_converse(k, 6, cell, t);
    vstd::arithmetic::div_mod::lemma_fundamental_div_mod_converse(cell, w - 1, cj, ci);
}

/// The generated contents exactly fill the buffers the generator sizes:
/// 24 bytes per generated vertex, 4 bytes per index.
pub proof fn lemma_generated_contents_fill_buffers(
    dims: GridDims,
    x_range: AxisRange,
    y_range: AxisRange,
    vertices: Seq<GenVertex>,
    indices: Seq<u32>,
)
    requires
        dims.wf(),
        is_generated_vertex_seq(dims, x_range, y_range, vertices),
        is_generated_index_seq(dims, indices),
    ensures
        24 * vertices.len() == dims.vertex_byte_count_spec(),
        4 * indices.len() == dims.index_byte_count_spec(),
{
}

/// Hardening bound: every generated index addresses a vertex of the grid,
/// so an indexed draw over the full index buffer never reads past the
/// vertex buffer.
pub proof fn lemma_indices_in_bounds(dims: GridDims, s: Seq<u32>)
    requires
        dims.wf(),
        is_generated_index_seq(dims, s),
    ensures
        forall|k: int| 0 <= k < s.len() ==> #[trigger] s[k] < dims.vertex_count_spec(),
{
    let w = dims.width as int;
    let h = dims.height as int;
    assert forall|k: int| 0 <= k < s.len() implies #[trigger] s[k] < dims.vertex_count_spec() by {
        lemma_cell_of_index(dims, k);
        let cell = k / 6;
        let ci = cell % (w - 1);
        let cj = cell / (w - 1);
        lemma_cell_corners_in_grid(w, h, ci, cj);
    }
}

} // verus!
