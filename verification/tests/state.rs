use meshgrid::meshgrid::IndexFormat;
use meshgrid::state::{Action, State, MSAA_SAMPLE_COUNT};

fn fresh_state() -> State {
    let (state, _) = State::new(800, 600);
    state
}

#[test]
fn startup_state_and_actions() {
    let (state, actions) = State::new(800, 600);
    assert_eq!(state.surface_width, 800);
    assert_eq!(state.surface_height, 600);
    assert!(!state.multisampling_enabled);
    assert_eq!(state.depth_target.sample_count, 1);
    assert!(state.multisample_target.is_none());
    assert_eq!(state.pipeline_sample_count, 1);
    assert_eq!(state.camera.aspect_width, 800);
    assert_eq!(state.camera.aspect_height, 600);
    // Default grid: 255 x 255 samples.
    assert_eq!(state.grid_buffers.index_count, 254 * 254 * 6);
    assert_eq!(state.grid_buffers.vertex_byte_count, 255 * 255 * 24);
    assert!(state.grid_buffers.alive);
    // Generation and evaluation run before the surface and render setup.
    assert_eq!(
        actions,
        vec![
            Action::WriteGridUniform {
                width: 255,
                height: 255,
                x_start: -5_000_000,
                x_end: 5_000_000,
                y_start: -5_000_000,
                y_end: 5_000_000,
            },
            Action::CreateGridBuffers {
                vertex_byte_count: 255 * 255 * 24,
                index_byte_count: 254 * 254 * 6 * 4,
            },
            Action::DispatchGenerateVertices { chunks_x: 16, chunks_y: 16 },
            Action::DispatchGenerateIndices { chunks_x: 16, chunks_y: 16 },
            Action::DispatchEvaluate { workgroup_count: 255 },
            Action::ConfigureSurface { width: 800, height: 600 },
            Action::UploadCameraUniform,
            Action::RebuildRenderPipeline { sample_count: 1 },
            Action::CreateDepthTexture { width: 800, height: 600, sample_count: 1 },
        ]
    );
}

#[test]
fn resize_replaces_targets_and_aspect() {
    let mut state = fresh_state();
    let actions = state.resize(1024, 768);
    assert_eq!(state.surface_width, 1024);
    assert_eq!(state.surface_height, 768);
    assert_eq!(state.depth_target.width, 1024);
    assert_eq!(state.depth_target.height, 768);
    assert_eq!(state.depth_target.sample_count, 1);
    assert_eq!(state.camera.aspect_width, 1024);
    assert_eq!(state.camera.aspect_height, 768);
    // The old depth target is destroyed before the new one exists.
    assert_eq!(
        actions,
        vec![
            Action::ConfigureSurface { width: 1024, height: 768 },
            Action::DestroyDepthTexture,
            Action::CreateDepthTexture { width: 1024, height: 768, sample_count: 1 },
            Action::UploadCameraUniform,
        ]
    );
}

#[test]
fn zero_area_resize_is_a_no_op() {
    // Resize to (0, h): surface, depth target and camera aspect all keep
    // their values, and no GPU work is issued.
    let mut state = fresh_state();
    for (w, h) in [(0u32, 5u32), (0, 768), (7, 0), (0, 0)] {
        let actions = state.resize(w, h);
        assert!(actions.is_empty());
        assert_eq!(state.surface_width, 800);
        assert_eq!(state.surface_height, 600);
        assert_eq!(state.depth_target.width, 800);
        assert_eq!(state.depth_target.height, 600);
        assert_eq!(state.depth_target.sample_count, 1);
        assert_eq!(state.camera.aspect_width, 800);
        assert_eq!(state.camera.aspect_height, 600);
    }
}

#[test]
fn enabling_multisampling_rebuilds_targets_and_pipeline() {
    let mut state = fresh_state();
    let actions = state.set_multisampling_enabled(true);
    assert!(state.multisampling_enabled);
    assert_eq!(state.depth_target.sample_count, MSAA_SAMPLE_COUNT);
    assert_eq!(state.pipeline_sample_count, MSAA_SAMPLE_COUNT);
    let target = state.multisample_target.expect("multisample target exists");
    assert_eq!(target.width, 800);
    assert_eq!(target.height, 600);
    assert_eq!(target.sample_count, MSAA_SAMPLE_COUNT);
    // There was no multisample target to destroy on the way in.
    assert_eq!(
        actions,
        vec![
            Action::ConfigureSurface { width: 800, height: 600 },
            Action::DestroyDepthTexture,
            Action::CreateMultisampleTexture { width: 800, height: 600, sample_count: 4 },
            Action::CreateDepthTexture { width: 800, height: 600, sample_count: 4 },
            Action::UploadCameraUniform,
            Action::RebuildRenderPipeline { sample_count: 4 },
        ]
    );
}

#[test]
fn toggling_multisampling_off_restores_single_sampling() {
    // Toggling on then off at a fixed surface size returns the sample
    // counts to 1 and leaves no live multisample texture.
    let mut state = fresh_state();
    state.set_multisampling_enabled(true);
    let actions = state.set_multisampling_enabled(false);
    assert!(!state.multisampling_enabled);
    assert!(state.multisample_target.is_none());
    assert_eq!(state.depth_target.sample_count, 1);
    assert_eq!(state.pipeline_sample_count, 1);
    assert_eq!(
        actions,
        vec![
            Action::DestroyMultisampleTexture,
            Action::ConfigureSurface { width: 800, height: 600 },
            Action::DestroyDepthTexture,
            Action::CreateDepthTexture { width: 800, height: 600, sample_count: 1 },
            Action::UploadCameraUniform,
            Action::RebuildRenderPipeline { sample_count: 1 },
        ]
    );
}

#[test]
fn redundant_multisampling_request_is_a_no_op() {
    let mut state = fresh_state();
    assert!(state.set_multisampling_enabled(false).is_empty());
    state.set_multisampling_enabled(true);
    assert!(state.set_multisampling_enabled(true).is_empty());
    assert_eq!(state.depth_target.sample_count, MSAA_SAMPLE_COUNT);
}

#[test]
fn resize_while_multisampled_replaces_both_targets() {
    let mut state = fresh_state();
    state.set_multisampling_enabled(true);
    let actions = state.resize(400, 300);
    assert_eq!(
        actions,
        vec![
            Action::ConfigureSurface { width: 400, height: 300 },
            Action::DestroyDepthTexture,
            Action::DestroyMultisampleTexture,
            Action::CreateMultisampleTexture { width: 400, height: 300, sample_count: 4 },
            Action::CreateDepthTexture { width: 400, height: 300, sample_count: 4 },
            Action::UploadCameraUniform,
        ]
    );
    let target = state.multisample_target.expect("multisample target exists");
    assert_eq!((target.width, target.height), (400, 300));
}

#[test]
fn grid_resolution_change_destroys_then_regenerates() {
    let mut state = fresh_state();
    let actions = state.set_grid_resolution(5, 5);
    assert_eq!(state.grid_buffers.index_count, 96);
    assert_eq!(state.grid_buffers.vertex_byte_count, 600);
    assert_eq!(state.grid_buffers.index_format, IndexFormat::Uint32);
    assert!(state.grid_buffers.alive);
    assert_eq!(
        actions,
        vec![
            Action::DestroyGridBuffers,
            Action::WriteGridUniform {
                width: 5,
                height: 5,
                x_start: -5_000_000,
                x_end: 5_000_000,
                y_start: -5_000_000,
                y_end: 5_000_000,
            },
            Action::CreateGridBuffers { vertex_byte_count: 600, index_byte_count: 384 },
            Action::DispatchGenerateVertices { chunks_x: 1, chunks_y: 1 },
            Action::DispatchGenerateIndices { chunks_x: 1, chunks_y: 1 },
            Action::DispatchEvaluate { workgroup_count: 1 },
        ]
    );
}

#[test]
fn camera_moves_upload_one_uniform() {
    let mut state = fresh_state();
    let actions = state.move_camera(500_000, 100_000, -2_000_000);
    assert_eq!(actions, vec![Action::UploadCameraUniform]);
    // Zoom by 0.5, zenith up 0.1 rad, azimuth wrapped below zero.
    assert_eq!(state.camera.distance, 6_000_000);
    assert_eq!(state.camera.zenith, 941_069);
    assert_eq!(state.camera.azimuth, 1_107_149 - 2_000_000 + 6_283_186);
}

#[test]
fn render_plan_follows_state() {
    let mut state = fresh_state();
    let plan = state.render();
    assert!(!plan.use_multisample_target);
    assert_eq!(plan.index_count, 254 * 254 * 6);
    assert_eq!(plan.index_format, IndexFormat::Uint32);
    assert_eq!(plan.sample_count, 1);

    state.set_multisampling_enabled(true);
    state.set_grid_resolution(5, 5);
    let plan = state.render();
    assert!(plan.use_multisample_target);
    assert_eq!(plan.index_count, 96);
    assert_eq!(plan.sample_count, 4);
}
