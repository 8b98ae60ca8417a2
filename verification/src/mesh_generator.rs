//! Single-grid generation with host-side readback: sizing for a fixed
//! demonstration grid, a shared staging buffer large enough for either
//! result buffer, and the readback sequence, proved to obey the
//! map/read/unmap discipline that host access to GPU memory requires.

use vstd::prelude::*;

use crate::grid::GridDims;

verus! {

/// Resolution of the demonstration grid.
pub const DEMO_GRID_RESOLUTION: u32 = 32;

/// Host-visibility of a staging buffer. Mapping is asynchronous: a map
/// request suspends until a single-shot completion signal arrives, and only
/// then is the mapped memory valid.
#[derive(Clone, Copy, Debug, PartialEq, Eq, Structural)]
pub enum MapState {
    /// Not mapped: the GPU may copy into the buffer; the host may not read.
    Idle,
    /// A map request is in flight; neither side may touch the buffer.
    Pending,
    /// Mapped: the host may read; the GPU may not use the buffer until it
    /// is unmapped.
    Mapped,
}

/// One step of a host-side readback through a staging buffer.
#[derive(Clone, Copy, Debug, PartialEq, Eq, Structural)]
pub enum ReadbackStep {
    /// GPU copy of a result buffer into the staging buffer.
    CopyToStaging { byte_count: u32 },
    /// Ask for host access; completes asynchronously.
    RequestMap,
    /// Await the single-shot completion signal, exactly once per request.
    AwaitMapped,
    /// Read a prefix of the mapped range.
    ReadMapped { byte_count: u32 },
    /// Release host access; only then may the GPU touch the buffer again.
    Unmap,
}

/// Whether `step` is legal for a staging buffer of `capacity` bytes in
/// map state `state`: the GPU writes only an unmapped buffer, the host
/// reads only a mapped one, and a map completes only once requested.
pub open spec fn step_allowed(state: MapState, capacity: u32, step: ReadbackStep) -> bool {
    match step {
        ReadbackStep::CopyToStaging { byte_count } => state == MapState::Idle && byte_count
            <= capacity,
        ReadbackStep::RequestMap => state == MapState::Idle,
        ReadbackStep::AwaitMapped => state == MapState::Pending,
        ReadbackStep::ReadMapped { byte_count } => state == MapState::Mapped && byte_count
            <= capacity,
        ReadbackStep::Unmap => state == MapState::Mapped,
    }
}

/// The map state after `step`.
pub open spec fn step_next(state: MapState, step: ReadbackStep) -> MapState {
    match step {
        ReadbackStep::CopyToStaging { .. } => state,
        ReadbackStep::RequestMap => MapState::Pending,
        ReadbackStep::AwaitMapped => MapState::Mapped,
        ReadbackStep::ReadMapped { .. } => state,
        ReadbackStep::Unmap => MapState::Idle,
    }
}

/// Whether every step of `steps`, run in order from `state`, is legal.
pub open spec fn steps_allowed_from(state: MapState, capacity: u32, steps: Seq<ReadbackStep>)
    -> bool
    decreases steps.len(),
{
    steps.len() == 0 || (step_allowed(state, capacity, steps[0]) && steps_allowed_from(
        step_next(state, steps[0]),
        capacity,
        steps.drop_first(),
    ))
}

/// The map state after running `steps` from `state`.
pub open spec fn steps_final_state(state: MapState, steps: Seq<ReadbackStep>) -> MapState
    decreases steps.len(),
{
    if steps.len() == 0 {
        state
    } else {
        steps_final_state(step_next(state, steps[0]), steps.drop_first())
    }
}

/// Generates one grid at a fixed resolution and reads both result buffers
/// back for inspection through a single shared staging buffer.
pub struct MeshGenerator {
    pub dims: GridDims,
}

/// The larger of the two result-buffer sizes: one staging buffer serves
/// both readbacks.
pub open spec fn staging_bytes_spec(dims: GridDims) -> int {
    if dims.vertex_byte_count_spec() >= dims.index_byte_count_spec() {
        dims.vertex_byte_count_spec()
    } else {
        dims.index_byte_count_spec()
    }
}

/// The readback sequence for one generated grid: copy the vertex buffer
/// into the staging buffer, map it, read it, unmap it; then the same for
/// the index buffer.
pub open spec fn readback_plan_spec(dims: GridDims) -> Seq<ReadbackStep> {
    seq![
        ReadbackStep::CopyToStaging { byte_count: dims.vertex_byte_count_spec() as u32 },
        ReadbackStep::RequestMap,
        ReadbackStep::AwaitMapped,
        ReadbackStep::ReadMapped { byte_count: dims.vertex_byte_count_spec() as u32 },
        ReadbackStep::Unmap,
        ReadbackStep::CopyToStaging { byte_count: dims.index_byte_count_spec() as u32 },
        ReadbackStep::RequestMap,
        ReadbackStep::AwaitMapped,
        ReadbackStep::ReadMapped { byte_count: dims.index_byte_count_spec() as u32 },
        ReadbackStep::Unmap,
    ]
}

impl MeshGenerator {
    pub fn new() -> (r: MeshGenerator)
        ensures
            r.dims == (GridDims { width: DEMO_GRID_RESOLUTION, height: DEMO_GRID_RESOLUTION }),
            r.dims.wf(),
    {
        MeshGenerator { dims: GridDims::new(DEMO_GRID_RESOLUTION, DEMO_GRID_RESOLUTION) }
    }

    /// Size of the shared staging buffer: the larger of the two result
    /// buffers.
    pub fn staging_byte_count(&self) -> (r: u32)
        requires
            self.dims.wf(),
        ensures
            r == staging_bytes_spec(self.dims),
    {
        let v = self.dims.vertex_byte_count();
        let i = self.dims.index_byte_count();
        if v >= i {
            v
        } else {
            i
        }
    }

    /// Workgroup counts for the generation passes over the demonstration
    /// grid.
    pub fn workgroup_chunks(&self) -> (r: (u32, u32))
        requires
            self.dims.wf(),
        ensures
            r.0 == self.dims.gen_chunks_spec().0,
            r.1 == self.dims.gen_chunks_spec().1,
    {
        self.dims.gen_chunks()
    }

    /// The readback sequence for this grid, in order.
    pub fn readback_plan(&self) -> (r: Vec<ReadbackStep>)
        requires
            self.dims.wf(),
        ensures
            r@ == readback_plan_spec(self.dims),
    {
        let vertex_bytes = self.dims.vertex_byte_count();
        let index_bytes = self.dims.index_byte_count();
        let mut r: Vec<ReadbackStep> = Vec::new();
        r.push(ReadbackStep::CopyToStaging { byte_count: vertex_bytes });
        r.push(ReadbackStep::RequestMap);
        r.push(ReadbackStep::AwaitMapped);
        r.push(ReadbackStep::ReadMapped { byte_count: vertex_bytes });
        r.push(ReadbackStep::Unmap);
        r.push(ReadbackStep::CopyToStaging { byte_count: index_bytes });
        r.push(ReadbackStep::RequestMap);
        r.push(ReadbackStep::AwaitMapped);
        r.push(ReadbackStep::ReadMapped { byte_count: index_bytes });
        r.push(ReadbackStep::Unmap);
        proof {
            assert(r@ =~= readback_plan_spec(self.dims));
        }
        r
    }
}

/// The readback plan obeys the mapping discipline from start to finish —
/// every copy hits an unmapped buffer that can hold it, every read a mapped
/// one — and it leaves the staging buffer unmapped, ready for further GPU
/// use.
pub proof fn lemma_readback_plan_disciplined(dims: GridDims)
    requires
        dims.wf(),
    ensures
        steps_allowed_from(
            MapState::Idle,
            staging_bytes_spec(dims) as u32,
            readback_plan_spec(dims),
        ),
        steps_final_state(MapState::Idle, readback_plan_spec(dims)) == MapState::Idle,
{
    crate::grid::lemma_sizing_fits(dims);
    reveal_with_fuel(steps_allowed_from, 11);
    reveal_with_fuel(steps_final_state, 11);
    let plan = readback_plan_spec(dims);
    assert(plan.drop_first() =~= plan.subrange(1, 10));
    assert(plan.subrange(1, 10).drop_first() =~= plan.subrange(2, 10));
    assert(plan.subrange(2, 10).drop_first() =~= plan.subrange(3, 10));
    assert(plan.subrange(3, 10).drop_first() =~= plan.subrange(4, 10));
    assert(plan.subrange(4, 10).drop_first() =~= plan.subrange(5, 10));
    assert(plan.subrange(5, 10).drop_first() =~= plan.subrange(6, 10));
    assert(plan.subrange(6, 10).drop_first() =~= plan.subrange(7, 10));
    assert(plan.subrange(7, 10).drop_first() =~= plan.subrange(8, 10));
    assert(plan.subrange(8, 10).drop_first() =~= plan.subrange(9, 10));
    assert(plan.subrange(9, 10).drop_first() =~= Seq::<ReadbackStep>::empty());
}

} // verus!
