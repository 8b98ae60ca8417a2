//! Grid dimensions and the sizing arithmetic shared by every component:
//! vertex and index counts, buffer byte sizes, and compute-dispatch chunking.

use vstd::prelude::*;

verus! {

/// Bytes per generated vertex: position (3 x 32-bit float) followed by
/// color (3 x 32-bit float), tightly packed.
pub const VERTEX_STRIDE_BYTES: u32 = 24;

/// Byte offset of the position attribute within a vertex.
pub const VERTEX_POSITION_OFFSET: u32 = 0;

/// Byte offset of the color attribute within a vertex.
pub const VERTEX_COLOR_OFFSET: u32 = 12;

/// Bytes per index: indices are 32-bit unsigned.
pub const INDEX_STRIDE_BYTES: u32 = 4;

/// The generation compute passes run in square workgroups of this many
/// invocations per axis.
pub const GEN_WORKGROUP_DIM: u32 = 16;

/// The evaluation compute pass runs in one-dimensional workgroups of this
/// many invocations.
pub const EVAL_WORKGROUP_SIZE: u32 = 256;

/// Ceiling division for a non-negative dividend and positive divisor.
pub open spec fn ceil_div(n: int, d: int) -> int
    recommends
        n >= 0,
        d > 0,
{
    if n % d == 0 {
        n / d
    } else {
        n / d + 1
    }
}

/// `ceil_div(n, d)` is the least number of chunks of size `d` that cover `n`
/// items: `ceil_div(n, d)` chunks suffice, one fewer does not.
pub proof fn lemma_ceil_div_covers(n: int, d: int)
    requires
        n >= 1,
        d >= 1,
    ensures
        ceil_div(n, d) * d >= n,
        (ceil_div(n, d) - 1) * d < n,
{
    let q = n / d;
    let r = n % d;
    vstd::arithmetic::div_mod::lemma_fundamental_div_mod(n, d);
    vstd::arithmetic::div_mod::lemma_mod_bound(n, d);
    let c = if r == 0 {
        q
    } else {
        q + 1
    };
    assert(c * d >= n && (c - 1) * d < n) by (nonlinear_arith)
        requires
            n == d * q + r,
            0 <= r < d,
            d >= 1,
            n >= 1,
            c == if r == 0 {
                q
            } else {
                q + 1
            },
    ;
}

/// Grid resolution: sample counts along the two generation axes. A grid
/// needs at least 2 x 2 samples to form one cell, and its vertex buffer
/// (24 bytes per sample) must be addressable with a 32-bit byte count.
#[derive(Clone, Copy, Debug, PartialEq, Eq, Structural)]
pub struct GridDims {
    pub width: u32,
    pub height: u32,
}

impl GridDims {
    pub open spec fn wf(self) -> bool {
        &&& self.width >= 2
        &&& self.height >= 2
        &&& 24 * self.width * self.height <= u32::MAX
    }

    /// One vertex per grid sample.
    pub open spec fn vertex_count_spec(self) -> int {
        self.width * self.height
    }

    /// Two triangles (six indices) per interior cell.
    pub open spec fn index_count_spec(self) -> int {
        (self.width - 1) * (self.height - 1) * 6
    }

    pub open spec fn vertex_byte_count_spec(self) -> int {
        VERTEX_STRIDE_BYTES * self.vertex_count_spec()
    }

    pub open spec fn index_byte_count_spec(self) -> int {
        INDEX_STRIDE_BYTES * self.index_count_spec()
    }

    /// Workgroup counts per axis for the generation passes.
    pub open spec fn gen_chunks_spec(self) -> (int, int) {
        (
            ceil_div(self.width as int, GEN_WORKGROUP_DIM as int),
            ceil_div(self.height as int, GEN_WORKGROUP_DIM as int),
        )
    }

    /// Workgroup count for the one-dimensional evaluation pass.
    pub open spec fn eval_dispatch_spec(self) -> int {
        ceil_div(self.vertex_count_spec(), EVAL_WORKGROUP_SIZE as int)
    }

    pub fn new(width: u32, height: u32) -> (r: GridDims)
        requires
            width >= 2,
            height >= 2,
            24 * width * height <= u32::MAX,
        ensures
            r == (GridDims { width, height }),
            r.wf(),
    {
        GridDims { width, height }
    }

    pub fn vertex_count(&self) -> (r: u32)
        requires
            self.wf(),
        ensures
            r == self.vertex_count_spec(),
    {
        proof {
            lemma_sizing_fits(*self);
        }
        self.width * self.height
    }

    pub fn index_count(&self) -> (r: u32)
        requires
            self.wf(),
        ensures
            r == self.index_count_spec(),
    {
        proof {
            lemma_sizing_fits(*self);
        }
        (self.width - 1) * (self.height - 1) * 6
    }

    pub fn vertex_byte_count(&self) -> (r: u32)
        requires
            self.wf(),
        ensures
            r == self.vertex_byte_count_spec(),
    {
        proof {
            lemma_sizing_fits(*self);
        }
        self.width * self.height * 24
    }

    pub fn index_byte_count(&self) -> (r: u32)
        requires
            self.wf(),
        ensures
            r == self.index_byte_count_spec(),
    {
        proof {
            lemma_sizing_fits(*self);
        }
        (self.width - 1) * (self.height - 1) * 6 * 4
    }

    /// Workgroup counts for the generation passes: the dispatch grid covers
    /// the sample grid in 16 x 16 chunks.
    pub fn gen_chunks(&self) -> (r: (u32, u32))
        requires
            self.wf(),
        ensures
            r.0 == self.gen_chunks_spec().0,
            r.1 == self.gen_chunks_spec().1,
    {
        (chunks16(self.width), chunks16(self.height))
    }

    /// Workgroup count for the evaluation pass: one 256-wide chunk per 256
    /// vertices, rounded up.
    pub fn eval_dispatch_count(&self) -> (r: u32)
        requires
            self.wf(),
        ensures
            r == self.eval_dispatch_spec(),
    {
        let n = self.vertex_count();
        let leftover = n & 0xff;
        proof {
            assert(n & 0xff == n % 256) by (bit_vector);
            assert(n >> 8 == n / 256) by (bit_vector);
            assert(n >> 8 < 0x100_0000u32) by (bit_vector);
        }
        if leftover > 0 {
            (n >> 8) + 1
        } else {
            n >> 8
        }
    }
}

/// All sizing products fit in a `u32` once `24 * width * height` does.
pub proof fn lemma_sizing_fits(dims: GridDims)
    requires
        dims.wf(),
    ensures
        dims.vertex_count_spec() <= u32::MAX,
        dims.vertex_byte_count_spec() <= u32::MAX,
        0 <= dims.index_count_spec() <= u32::MAX,
        dims.index_byte_count_spec() <= u32::MAX,
        (dims.width - 1) * (dims.height - 1) <= u32::MAX,
{
    let w = dims.width as int;
    let h = dims.height as int;
    assert(w * h <= 24 * w * h && 24 * (w * h) == 24 * w * h && (w * h) * 24 == 24 * w * h && (w
        - 1) * (h - 1) * 6 * 4 <= 24 * w * h && ((w - 1) * (h - 1) * 6) * 4 == 4 * ((w - 1) * (h
        - 1) * 6) && (w - 1) * (h - 1) * 6 <= 24 * w * h && (w - 1) * (h - 1) <= w * h && (w - 1)
        * (h - 1) >= 0) by (nonlinear_arith)
        requires
            w >= 2,
            h >= 2,
    ;
}

/// Number of 16-wide chunks covering `n` items, computed as the original
/// generation dispatch does: shift for the quotient, mask for the leftover.
fn chunks16(n: u32) -> (r: u32)
    ensures
        r == ceil_div(n as int, 16),
{
    let leftover = n & 0xf;
    proof {
        assert(n & 0xf == n % 16) by (bit_vector);
        assert(n >> 4 == n / 16) by (bit_vector);
        assert(n >> 4 < 0x1000_0000u32) by (bit_vector);
    }
    if leftover > 0 {
        (n >> 4) + 1
    } else {
        n >> 4
    }
}

/// Buffer sizing, for every valid resolution: one vertex per sample, six
/// indices per interior cell, 24 bytes per vertex, 4 bytes per index.
pub proof fn lemma_grid_sizing(dims: GridDims)
    requires
        dims.wf(),
    ensures
        dims.vertex_count_spec() == dims.width * dims.height,
        dims.index_count_spec() == (dims.width - 1) * (dims.height - 1) * 6,
        dims.vertex_byte_count_spec() == 24 * dims.vertex_count_spec(),
        dims.index_byte_count_spec() == 4 * dims.index_count_spec(),
{
}

/// Dispatch chunking, for every valid resolution: the generation passes use
/// the least 16-wide cover of each axis, the evaluation pass the least
/// 256-wide cover of the vertex count.
pub proof fn lemma_dispatch_chunking(dims: GridDims)
    requires
        dims.wf(),
    ensures
        dims.gen_chunks_spec().0 * 16 >= dims.width,
        (dims.gen_chunks_spec().0 - 1) * 16 < dims.width,
        dims.gen_chunks_spec().1 * 16 >= dims.height,
        (dims.gen_chunks_spec().1 - 1) * 16 < dims.height,
        dims.eval_dispatch_spec() * 256 >= dims.vertex_count_spec(),
        (dims.eval_dispatch_spec() - 1) * 256 < dims.vertex_count_spec(),
{
    lemma_ceil_div_covers(dims.width as int, 16);
    lemma_ceil_div_covers(dims.height as int, 16);
    assert(dims.vertex_count_spec() >= 1) by (nonlinear_arith)
        requires
            dims.width >= 2,
            dims.height >= 2,
    ;
    lemma_ceil_div_covers(dims.vertex_count_spec(), 256);
}

} // verus!
