//! The grid engine: `Generator` plans the buffer allocations and compute
//! dispatches that fill a grid, `GridBuffers` records the resulting buffer
//! shapes, and `Evaluator` plans the per-vertex evaluation dispatches.
//!
//! The GPU pipelines and layouts these plans drive are built once by the
//! unverified render layer and reused across calls; the arithmetic that
//! decides buffer sizes and dispatch counts is proved here.

use vstd::prelude::*;

use crate::fill::AxisRange;
use crate::grid::{ceil_div, GridDims, GEN_WORKGROUP_DIM};

verus! {

/// The grid-shape uniform both generation passes read. Written once per
/// `generate_buffers` call.
#[derive(Clone, Copy, Debug, PartialEq, Eq, Structural)]
pub struct GeneratorUniform {
    pub width: u32,
    pub height: u32,
    pub x_start: i64,
    pub x_end: i64,
    pub y_start: i64,
    pub y_end: i64,
}

/// Index element format of a generated grid: indices are 32-bit unsigned.
#[derive(Clone, Copy, Debug, PartialEq, Eq, Structural)]
pub enum IndexFormat {
    Uint32,
}

/// The shape of one generated grid's GPU resources: buffer byte sizes,
/// index count and format, and the precomputed evaluation dispatch count.
/// `alive` tracks whether the buffers still exist; the owner destroys them
/// explicitly before replacing them.
#[derive(Clone, Copy, Debug, PartialEq, Eq, Structural)]
pub struct GridBuffers {
    pub dims: GridDims,
    pub index_count: u32,
    pub index_format: IndexFormat,
    pub vertex_byte_count: u32,
    pub index_byte_count: u32,
    pub evaluator_dispatch_count: u32,
    pub alive: bool,
}

impl GridBuffers {
    pub open spec fn wf(self) -> bool {
        &&& self.dims.wf()
        &&& self.index_count == self.dims.index_count_spec()
        &&& self.index_format == IndexFormat::Uint32
        &&& self.vertex_byte_count == self.dims.vertex_byte_count_spec()
        &&& self.index_byte_count == self.dims.index_byte_count_spec()
        &&& self.evaluator_dispatch_count == self.dims.eval_dispatch_spec()
    }

    /// Release the GPU buffers. The owner calls this before installing a
    /// replacement, so two full-resolution buffer sets are never live at
    /// once.
    pub fn destroy(&mut self)
        ensures
            *final(self) == (GridBuffers { alive: false, ..*old(self) }),
    {
        self.alive = false;
    }
}

/// Everything the render layer must do to fill one grid: write the shape
/// uniform, allocate the two buffers, and dispatch both generation passes
/// over the same workgroup cover.
#[derive(Clone, Copy, Debug, PartialEq, Eq, Structural)]
pub struct GeneratePlan {
    pub uniform: GeneratorUniform,
    pub vertex_byte_count: u32,
    pub index_byte_count: u32,
    pub chunks_x: u32,
    pub chunks_y: u32,
}

/// The grid generator. It owns the shared shape uniform; the compute
/// pipelines it drives are built once beside it and reused for every grid.
pub struct Generator {
    pub uniform: GeneratorUniform,
}

/// The uniform `generate_buffers(dims, x_range, y_range)` writes.
pub open spec fn uniform_for(dims: GridDims, x_range: AxisRange, y_range: AxisRange)
    -> GeneratorUniform {
    GeneratorUniform {
        width: dims.width,
        height: dims.height,
        x_start: x_range.start,
        x_end: x_range.end,
        y_start: y_range.start,
        y_end: y_range.end,
    }
}

/// The buffer shapes `generate_buffers` produces for a resolution.
pub open spec fn buffers_for(dims: GridDims) -> GridBuffers {
    GridBuffers {
        dims,
        index_count: dims.index_count_spec() as u32,
        index_format: IndexFormat::Uint32,
        vertex_byte_count: dims.vertex_byte_count_spec() as u32,
        index_byte_count: dims.index_byte_count_spec() as u32,
        evaluator_dispatch_count: dims.eval_dispatch_spec() as u32,
        alive: true,
    }
}

/// The plan `generate_buffers` issues for a resolution and range pair.
pub open spec fn plan_for(dims: GridDims, x_range: AxisRange, y_range: AxisRange)
    -> GeneratePlan {
    GeneratePlan {
        uniform: uniform_for(dims, x_range, y_range),
        vertex_byte_count: dims.vertex_byte_count_spec() as u32,
        index_byte_count: dims.index_byte_count_spec() as u32,
        chunks_x: ceil_div(dims.width as int, GEN_WORKGROUP_DIM as int) as u32,
        chunks_y: ceil_div(dims.height as int, GEN_WORKGROUP_DIM as int) as u32,
    }
}

impl Generator {
    /// A fresh generator: the shape uniform starts zeroed, as a fresh GPU
    /// uniform buffer does, and is meaningful only once `generate_buffers`
    /// writes it.
    pub fn new() -> (r: Generator)
        ensures
            r.uniform == (GeneratorUniform {
                width: 0,
                height: 0,
                x_start: 0,
                x_end: 0,
                y_start: 0,
                y_end: 0,
            }),
    {
        Generator {
            uniform: GeneratorUniform {
                width: 0,
                height: 0,
                x_start: 0,
                x_end: 0,
                y_start: 0,
                y_end: 0,
            },
        }
    }

    /// Plan the generation of one grid: record the shape uniform, size the
    /// vertex buffer for `width x height` samples and the index buffer for
    /// six indices per interior cell, and cover both axes with 16-wide
    /// workgroup chunks. A grid needs at least 2 x 2 samples; smaller
    /// resolutions are a documented precondition, not a runtime recovery.
    pub fn generate_buffers(
        &mut self,
        resolution: (u32, u32),
        x_range: AxisRange,
        y_range: AxisRange,
    ) -> (r: (GridBuffers, GeneratePlan))
        requires
            resolution.0 >= 2,
            resolution.1 >= 2,
            24 * resolution.0 * resolution.1 <= u32::MAX,
            x_range.wf(),
            y_range.wf(),
        ensures
            ({
                let dims = GridDims { width: resolution.0, height: resolution.1 };
                &&& final(self).uniform == uniform_for(dims, x_range, y_range)
                &&& r.0 == buffers_for(dims)
                &&& r.0.wf()
                &&& r.0.alive
                &&& r.1 == plan_for(dims, x_range, y_range)
            }),
    {
        let dims = GridDims::new(resolution.0, resolution.1);
        let uniform = GeneratorUniform {
            width: dims.width,
            height: dims.height,
            x_start: x_range.start,
            x_end: x_range.end,
            y_start: y_range.start,
            y_end: y_range.end,
        };
        self.uniform = uniform;
        let vertex_byte_count = dims.vertex_byte_count();
        let index_byte_count = dims.index_byte_count();
        let chunks = dims.gen_chunks();
        let buffers = GridBuffers {
            dims,
            index_count: dims.index_count(),
            index_format: IndexFormat::Uint32,
            vertex_byte_count,
            index_byte_count,
            evaluator_dispatch_count: dims.eval_dispatch_count(),
            alive: true,
        };
        let plan = GeneratePlan {
            uniform,
            vertex_byte_count,
            index_byte_count,
            chunks_x: chunks.0,
            chunks_y: chunks.1,
        };
        (buffers, plan)
    }

    /// Hand out an evaluator bound to this generator's evaluator layout.
    /// The caller supplies the shader module and entry point when it builds
    /// the pipeline; a generator may produce several evaluators sharing the
    /// layout.
    pub fn create_evaluator(&self) -> (r: Evaluator)
        ensures
            r.wf(),
    {
        Evaluator { workgroup_size: crate::grid::EVAL_WORKGROUP_SIZE }
    }
}

/// A pluggable per-vertex evaluation pass: one user-supplied compute shader
/// dispatched one-dimensionally over a grid's vertex buffer.
pub struct Evaluator {
    pub workgroup_size: u32,
}

/// The dispatch counts one evaluation pass issues: one per target grid, in
/// order, each the grid's precomputed count.
pub open spec fn evaluate_plan(buffers: Seq<&GridBuffers>) -> Seq<u32> {
    Seq::new(buffers.len(), |k: int| buffers[k].evaluator_dispatch_count)
}

impl Evaluator {
    pub open spec fn wf(self) -> bool {
        self.workgroup_size == crate::grid::EVAL_WORKGROUP_SIZE
    }

    /// Plan one evaluation pass over the given grids: one dispatch per
    /// grid, of its precomputed workgroup count. The plan is a pure
    /// function of the grids' state, so re-evaluating unchanged grids
    /// issues identical dispatches. Every target must still be alive: its
    /// bind group was created at generation time pointing at its vertex
    /// buffer.
    pub fn evaluate_buffers(&self, grid_buffers: &[&GridBuffers]) -> (r: Vec<u32>)
        requires
            self.wf(),
            forall|k: int| 0 <= k < grid_buffers@.len() ==> (#[trigger] grid_buffers@[k]).alive,
        ensures
            r@ == evaluate_plan(grid_buffers@),
    {
        let mut r: Vec<u32> = Vec::new();
        let mut k: usize = 0;
        while k < grid_buffers.len()
            invariant
                k <= grid_buffers@.len(),
                r@.len() == k,
                forall|k0: int|
                    0 <= k0 < k as int ==> r@[k0] == (#[trigger] grid_buffers@[k0]).evaluator_dispatch_count,
            decreases grid_buffers@.len() - k,
        {
            r.push(grid_buffers[k].evaluator_dispatch_count);
            k = k + 1;
        }
        proof {
            assert(r@ =~= evaluate_plan(grid_buffers@));
        }
        r
    }
}

/// Planning an evaluation is deterministic in the grid state: two
/// consecutive passes over the same targets, with no state change between
/// them, issue the same dispatches.
pub proof fn lemma_evaluate_plan_deterministic(
    first: Seq<&GridBuffers>,
    second: Seq<&GridBuffers>,
)
    requires
        first =~= second,
    ensures
        evaluate_plan(first) == evaluate_plan(second),
{
}

} // verus!
