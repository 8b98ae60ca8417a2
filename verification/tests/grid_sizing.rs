use meshgrid::grid::GridDims;
use meshgrid::mesh_generator::{MeshGenerator, ReadbackStep};

#[test]
fn sizing_smallest_grid() {
    let dims = GridDims::new(2, 2);
    assert_eq!(dims.vertex_count(), 4);
    assert_eq!(dims.index_count(), 6);
    assert_eq!(dims.vertex_byte_count(), 96);
    assert_eq!(dims.index_byte_count(), 24);
}

#[test]
fn sizing_five_by_five() {
    let dims = GridDims::new(5, 5);
    assert_eq!(dims.vertex_count(), 25);
    assert_eq!(dims.index_count(), 96);
    assert_eq!(dims.vertex_byte_count(), 25 * 24);
    assert_eq!(dims.index_byte_count(), 96 * 4);
}

#[test]
fn sizing_rectangular() {
    let dims = GridDims::new(7, 3);
    assert_eq!(dims.vertex_count(), 21);
    assert_eq!(dims.index_count(), 6 * 2 * 6);
    assert_eq!(dims.vertex_byte_count(), 21 * 24);
    assert_eq!(dims.index_byte_count(), 6 * 2 * 6 * 4);
}

#[test]
fn sizing_default_resolution() {
    let dims = GridDims::new(255, 255);
    assert_eq!(dims.vertex_count(), 65025);
    assert_eq!(dims.index_count(), 254 * 254 * 6);
    assert_eq!(dims.vertex_byte_count(), 65025 * 24);
}

#[test]
fn generation_chunks_split_at_sixteen() {
    // 31 samples need two 16-wide chunks (16 + 15); 32 need exactly two.
    assert_eq!(GridDims::new(31, 32).gen_chunks(), (2, 2));
    assert_eq!(GridDims::new(16, 17).gen_chunks(), (1, 2));
    assert_eq!(GridDims::new(2, 2).gen_chunks(), (1, 1));
    assert_eq!(GridDims::new(255, 255).gen_chunks(), (16, 16));
    assert_eq!(GridDims::new(256, 257).gen_chunks(), (16, 17));
}

#[test]
fn evaluation_dispatch_splits_at_256() {
    // 25 vertices fit one 256-wide chunk; 65025 need 255 of them.
    assert_eq!(GridDims::new(5, 5).eval_dispatch_count(), 1);
    assert_eq!(GridDims::new(16, 16).eval_dispatch_count(), 1);
    assert_eq!(GridDims::new(16, 17).eval_dispatch_count(), 2);
    assert_eq!(GridDims::new(255, 255).eval_dispatch_count(), 255);
}

#[test]
fn staging_buffer_covers_both_results() {
    let generator = MeshGenerator::new();
    // 32 x 32 vertices at 24 bytes outweigh 31 x 31 cells at 24 bytes each.
    assert_eq!(generator.staging_byte_count(), 32 * 32 * 24);
    assert_eq!(generator.workgroup_chunks(), (2, 2));
}

#[test]
fn readback_plan_maps_reads_and_unmaps_each_buffer() {
    let generator = MeshGenerator::new();
    let vertex_bytes = 32 * 32 * 24;
    let index_bytes = 31 * 31 * 6 * 4;
    let plan = generator.readback_plan();
    assert_eq!(
        plan,
        vec![
            ReadbackStep::CopyToStaging { byte_count: vertex_bytes },
            ReadbackStep::RequestMap,
            ReadbackStep::AwaitMapped,
            ReadbackStep::ReadMapped { byte_count: vertex_bytes },
            ReadbackStep::Unmap,
            ReadbackStep::CopyToStaging { byte_count: index_bytes },
            ReadbackStep::RequestMap,
            ReadbackStep::AwaitMapped,
            ReadbackStep::ReadMapped { byte_count: index_bytes },
            ReadbackStep::Unmap,
        ]
    );
}
