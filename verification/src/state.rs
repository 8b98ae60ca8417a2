//! Top-level coordinator: surface configuration, depth and multisample
//! render targets, pipeline sample count, camera, and the current grid.
//!
//! Every public operation returns the exact sequence of GPU actions the
//! render layer must perform, in order; the sequences put every destroy
//! before the matching create, so a stale resource is never read after its
//! replacement is installed, and peak GPU memory stays bounded during a
//! transition.

use vstd::prelude::*;

use crate::camera::{
    apply_camera_ops, camera_step, Camera, CameraOp, CAMERA_DELTA_LIMIT, FP_SCALE, PI_FP,
};
use crate::fill::AxisRange;
use crate::grid::GridDims;
use crate::meshgrid::{
    buffers_for, plan_for, uniform_for, Evaluator, Generator, GridBuffers, IndexFormat,
};

verus! {

/// Sample count of the multisample color target when multisampling is
/// enabled; the depth target and the pipeline mirror it.
pub const MSAA_SAMPLE_COUNT: u32 = 4;

/// Grid resolution generated at startup.
pub const DEFAULT_GRID_RESOLUTION: u32 = 255;

/// Fixed-point bounds of the generated surface along both axes.
pub const DEFAULT_RANGE_MIN: i64 = -5 * FP_SCALE;

pub const DEFAULT_RANGE_MAX: i64 = 5 * FP_SCALE;

/// Initial orbit distance (12 world units).
pub const INITIAL_DISTANCE_FP: i64 = 12 * FP_SCALE;

/// Initial zenith angle (about 0.841 rad).
pub const INITIAL_ZENITH_FP: i64 = 841_069;

/// Initial azimuth angle (about 1.107 rad).
pub const INITIAL_AZIMUTH_FP: i64 = 1_107_149;

/// Vertical field of view (a quarter turn, pi/2).
pub const FOVY_FP: i64 = 1_570_796;

/// Near clip plane (0.1 world units).
pub const ZNEAR_FP: i64 = 100_000;

/// Far clip plane (100 world units).
pub const ZFAR_FP: i64 = 100 * FP_SCALE;

/// Size and sample count of one render target texture.
#[derive(Clone, Copy, Debug, PartialEq, Eq, Structural)]
pub struct TargetInfo {
    pub width: u32,
    pub height: u32,
    pub sample_count: u32,
}

/// One GPU action the render layer performs on the state's behalf. Each
/// operation returns the actions it requires, in the order they must run.
#[derive(Clone, Copy, Debug, PartialEq, Eq, Structural)]
pub enum Action {
    ConfigureSurface { width: u32, height: u32 },
    DestroyDepthTexture,
    CreateDepthTexture { width: u32, height: u32, sample_count: u32 },
    DestroyMultisampleTexture,
    CreateMultisampleTexture { width: u32, height: u32, sample_count: u32 },
    RebuildRenderPipeline { sample_count: u32 },
    UploadCameraUniform,
    DestroyGridBuffers,
    WriteGridUniform { width: u32, height: u32, x_start: i64, x_end: i64, y_start: i64, y_end: i64 },
    CreateGridBuffers { vertex_byte_count: u32, index_byte_count: u32 },
    DispatchGenerateVertices { chunks_x: u32, chunks_y: u32 },
    DispatchGenerateIndices { chunks_x: u32, chunks_y: u32 },
    DispatchEvaluate { workgroup_count: u32 },
}

/// What one frame draws: which color target the pass renders into, and the
/// indexed draw covering the full grid.
#[derive(Clone, Copy, Debug, PartialEq, Eq, Structural)]
pub struct RenderPlan {
    pub use_multisample_target: bool,
    pub index_count: u32,
    pub index_format: IndexFormat,
    pub sample_count: u32,
}

pub struct State {
    pub surface_width: u32,
    pub surface_height: u32,
    pub multisampling_enabled: bool,
    pub depth_target: TargetInfo,
    pub multisample_target: Option<TargetInfo>,
    pub pipeline_sample_count: u32,
    pub camera: Camera,
    pub generator: Generator,
    pub evaluator: Evaluator,
    pub grid_buffers: GridBuffers,
    pub x_range: AxisRange,
    pub y_range: AxisRange,
}

/// The numeric bounds of the generated surface, fixed at startup and kept
/// across resolution changes.
pub open spec fn default_range() -> AxisRange {
    AxisRange { start: DEFAULT_RANGE_MIN, end: DEFAULT_RANGE_MAX }
}

/// The camera the state starts with.
pub open spec fn initial_camera(width: u32, height: u32) -> Camera {
    Camera {
        target_x: 0,
        target_y: 0,
        target_z: 0,
        distance: INITIAL_DISTANCE_FP,
        zenith: INITIAL_ZENITH_FP,
        azimuth: INITIAL_AZIMUTH_FP,
        aspect_width: width,
        aspect_height: height,
        fovy: FOVY_FP,
        znear: ZNEAR_FP,
        zfar: ZFAR_FP,
    }
}

/// The actions that fill one grid: write the shape uniform, allocate both
/// buffers, dispatch both generation passes, then the evaluation pass.
pub open spec fn generate_actions(dims: GridDims, x_range: AxisRange, y_range: AxisRange) -> Seq<
    Action,
> {
    let plan = plan_for(dims, x_range, y_range);
    seq![
        Action::WriteGridUniform {
            width: dims.width,
            height: dims.height,
            x_start: x_range.start,
            x_end: x_range.end,
            y_start: y_range.start,
            y_end: y_range.end,
        },
        Action::CreateGridBuffers {
            vertex_byte_count: plan.vertex_byte_count,
            index_byte_count: plan.index_byte_count,
        },
        Action::DispatchGenerateVertices { chunks_x: plan.chunks_x, chunks_y: plan.chunks_y },
        Action::DispatchGenerateIndices { chunks_x: plan.chunks_x, chunks_y: plan.chunks_y },
        Action::DispatchEvaluate { workgroup_count: dims.eval_dispatch_spec() as u32 },
    ]
}

/// The actions a resize performs: reconfigure the surface, replace the
/// depth target (destroying the old one first), replace the multisample
/// target likewise when multisampling is on, and re-upload the camera
/// uniform. A zero-area resize performs nothing.
pub open spec fn resize_actions(s: State, width: u32, height: u32) -> Seq<Action> {
    if width == 0 || height == 0 {
        Seq::empty()
    } else {
        seq![Action::ConfigureSurface { width, height }, Action::DestroyDepthTexture] + (
        if s.multisampling_enabled {
            (if s.multisample_target is Some {
                seq![Action::DestroyMultisampleTexture]
            } else {
                Seq::empty()
            }) + seq![
                Action::CreateMultisampleTexture {
                    width,
                    height,
                    sample_count: MSAA_SAMPLE_COUNT,
                },
            ]
        } else {
            Seq::empty()
        }) + seq![
            Action::CreateDepthTexture {
                width,
                height,
                sample_count: if s.multisampling_enabled {
                    MSAA_SAMPLE_COUNT
                } else {
                    1u32
                },
            },
            Action::UploadCameraUniform,
        ]
    }
}

/// The state a (non-zero) resize leaves behind: new surface size, targets
/// recreated at that size, camera aspect updated, everything else as it
/// was.
pub open spec fn resized_state(s: State, width: u32, height: u32) -> State {
    State {
        surface_width: width,
        surface_height: height,
        depth_target: TargetInfo {
            width,
            height,
            sample_count: if s.multisampling_enabled {
                MSAA_SAMPLE_COUNT
            } else {
                1u32
            },
        },
        multisample_target: if s.multisampling_enabled {
            Some(TargetInfo { width, height, sample_count: MSAA_SAMPLE_COUNT })
        } else {
            s.multisample_target
        },
        camera: Camera {
            aspect_width: width,
            aspect_height: height,
            ..s.camera
        },
        ..s
    }
}

/// The three camera mutations one input event applies, in order.
pub open spec fn move_camera_ops(distance: i64, zenith: i64, azimuth: i64) -> Seq<CameraOp> {
    seq![
        CameraOp::MoveDistance(distance),
        CameraOp::RotateZenith(zenith),
        CameraOp::RotateAzimuth(azimuth),
    ]
}

impl State {
    /// Sample count of the active render targets and pipeline.
    pub open spec fn active_sample_count(self) -> u32 {
        if self.multisampling_enabled {
            MSAA_SAMPLE_COUNT
        } else {
            1u32
        }
    }

    /// The parts of the invariant that hold even mid-transition: a
    /// configurable surface, a well-formed camera and grid, and no
    /// multisample target while multisampling is off.
    pub open spec fn base_wf(self) -> bool {
        &&& self.surface_width > 0
        &&& self.surface_height > 0
        &&& self.camera.wf()
        &&& self.evaluator.wf()
        &&& self.grid_buffers.wf()
        &&& self.grid_buffers.alive
        &&& self.x_range.wf()
        &&& self.y_range.wf()
        &&& (!self.multisampling_enabled ==> self.multisample_target is None)
    }

    /// The render targets match the surface and the multisampling state: a
    /// multisample target exists exactly while multisampling is enabled,
    /// and the depth target mirrors the active sample count.
    pub open spec fn targets_wf(self) -> bool {
        &&& self.depth_target == (TargetInfo {
            width: self.surface_width,
            height: self.surface_height,
            sample_count: self.active_sample_count(),
        })
        &&& (self.multisampling_enabled <==> self.multisample_target is Some)
        &&& (self.multisampling_enabled ==> self.multisample_target == Some(
            TargetInfo {
                width: self.surface_width,
                height: self.surface_height,
                sample_count: MSAA_SAMPLE_COUNT,
            },
        ))
        &&& self.camera.aspect_width == self.surface_width
        &&& self.camera.aspect_height == self.surface_height
    }

    pub open spec fn wf(self) -> bool {
        &&& self.base_wf()
        &&& self.targets_wf()
        &&& self.pipeline_sample_count == self.active_sample_count()
    }

    /// Start up: generate the default grid, evaluate it, configure the
    /// surface, upload the initial camera, and build the pipeline and depth
    /// target at sample count 1 (multisampling starts off).
    pub fn new(width: u32, height: u32) -> (r: (State, Vec<Action>))
        requires
            width > 0,
            height > 0,
        ensures
            r.0.wf(),
            r.0.surface_width == width,
            r.0.surface_height == height,
            !r.0.multisampling_enabled,
            r.0.camera == initial_camera(width, height),
            r.0.x_range == default_range(),
            r.0.y_range == default_range(),
            r.0.grid_buffers == buffers_for(
                GridDims { width: DEFAULT_GRID_RESOLUTION, height: DEFAULT_GRID_RESOLUTION },
            ),
            r.0.generator.uniform == uniform_for(
                GridDims { width: DEFAULT_GRID_RESOLUTION, height: DEFAULT_GRID_RESOLUTION },
                default_range(),
                default_range(),
            ),
            r.1@ == new_actions(width, height),
    {
        let ranges = AxisRange { start: DEFAULT_RANGE_MIN, end: DEFAULT_RANGE_MAX };
        let mut generator = Generator::new();
        let (grid_buffers, plan) = generator.generate_buffers(
            (DEFAULT_GRID_RESOLUTION, DEFAULT_GRID_RESOLUTION),
            ranges,
            ranges,
        );
        let evaluator = generator.create_evaluator();
        let counts = evaluator.evaluate_buffers(&[&grid_buffers]);

        let mut actions: Vec<Action> = Vec::new();
        actions.push(
            Action::WriteGridUniform {
                width: plan.uniform.width,
                height: plan.uniform.height,
                x_start: plan.uniform.x_start,
                x_end: plan.uniform.x_end,
                y_start: plan.uniform.y_start,
                y_end: plan.uniform.y_end,
            },
        );
        actions.push(
            Action::CreateGridBuffers {
                vertex_byte_count: plan.vertex_byte_count,
                index_byte_count: plan.index_byte_count,
            },
        );
        actions.push(
            Action::DispatchGenerateVertices { chunks_x: plan.chunks_x, chunks_y: plan.chunks_y },
        );
        actions.push(
            Action::DispatchGenerateIndices { chunks_x: plan.chunks_x, chunks_y: plan.chunks_y },
        );
        actions.push(Action::DispatchEvaluate { workgroup_count: counts[0] });
        actions.push(Action::ConfigureSurface { width, height });
        actions.push(Action::UploadCameraUniform);
        actions.push(Action::RebuildRenderPipeline { sample_count: 1 });
        actions.push(Action::CreateDepthTexture { width, height, sample_count: 1 });

        let state = State {
            surface_width: width,
            surface_height: height,
            multisampling_enabled: false,
            depth_target: TargetInfo { width, height, sample_count: 1 },
            multisample_target: None,
            pipeline_sample_count: 1,
            camera: Camera {
                target_x: 0,
                target_y: 0,
                target_z: 0,
                distance: INITIAL_DISTANCE_FP,
                zenith: INITIAL_ZENITH_FP,
                azimuth: INITIAL_AZIMUTH_FP,
                aspect_width: width,
                aspect_height: height,
                fovy: FOVY_FP,
                znear: ZNEAR_FP,
                zfar: ZFAR_FP,
            },
            generator,
            evaluator,
            grid_buffers,
            x_range: ranges,
            y_range: ranges,
        };
        proof {
            assert(actions@ =~= new_actions(width, height));
        }
        (state, actions)
    }

    /// Reconfigure for a new surface size: replace the depth target (and
    /// the multisample target if multisampling is on) at the new size, and
    /// update the camera aspect. A zero-area request cannot be configured
    /// and is ignored: the surface, targets and camera stay untouched.
    pub fn resize(&mut self, width: u32, height: u32) -> (actions: Vec<Action>)
        requires
            old(self).base_wf(),
        ensures
            actions@ == resize_actions(*old(self), width, height),
            (width == 0 || height == 0) ==> *final(self) == *old(self),
            (width > 0 && height > 0) ==> *final(self) == resized_state(*old(self), width, height),
            final(self).base_wf(),
            (width > 0 && height > 0) ==> final(self).targets_wf(),
    {
        let mut actions: Vec<Action> = Vec::new();
        if width > 0 && height > 0 {
            self.surface_width = width;
            self.surface_height = height;
            actions.push(Action::ConfigureSurface { width, height });

            // More efficient to destroy the old target explicitly than to
            // rely on deferred reclamation.
            actions.push(Action::DestroyDepthTexture);

            let sample_count: u32;
            if self.multisampling_enabled {
                sample_count = MSAA_SAMPLE_COUNT;

                // May have just been enabled, so there may be none yet.
                if self.multisample_target.is_some() {
                    self.multisample_target = None;
                    actions.push(Action::DestroyMultisampleTexture);
                }
                self.multisample_target = Some(
                    TargetInfo { width, height, sample_count: MSAA_SAMPLE_COUNT },
                );
                actions.push(
                    Action::CreateMultisampleTexture {
                        width,
                        height,
                        sample_count: MSAA_SAMPLE_COUNT,
                    },
                );
            } else {
                sample_count = 1;
            }

            self.depth_target = TargetInfo { width, height, sample_count };
            actions.push(Action::CreateDepthTexture { width, height, sample_count });

            self.camera.set_aspect(width, height);
            actions.push(Action::UploadCameraUniform);
        }
        proof {
            assert(actions@ =~= resize_actions(*old(self), width, height));
        }
        actions
    }

    /// Switch multisampling on or off. A request for the current state is a
    /// no-op. Otherwise the flag flips, the multisample target is destroyed
    /// when disabling, both render targets are rebuilt at the current
    /// surface size (the equivalent of a resize), and the render pipeline
    /// is rebuilt at the new sample count — pipelines are sample-count
    /// specific and cannot be mutated in place.
    pub fn set_multisampling_enabled(&mut self, enabled: bool) -> (actions: Vec<Action>)
        requires
            old(self).wf(),
        ensures
            actions@ == toggle_actions(*old(self), enabled),
            enabled == old(self).multisampling_enabled ==> *final(self) == *old(self),
            enabled != old(self).multisampling_enabled ==> *final(self) == toggled_state(
                *old(self),
                enabled,
            ),
            final(self).wf(),
    {
        if enabled == self.multisampling_enabled {
            // Nothing to do.
            let actions: Vec<Action> = Vec::new();
            proof {
                assert(actions@ =~= toggle_actions(*old(self), enabled));
            }
            return actions;
        }
        let mut actions: Vec<Action> = Vec::new();
        let sample_count: u32;
        if enabled {
            self.multisampling_enabled = true;
            sample_count = MSAA_SAMPLE_COUNT;
        } else {
            self.multisampling_enabled = false;
            // Destroy the multisample target before the rebuild installs
            // anything new.
            self.multisample_target = None;
            actions.push(Action::DestroyMultisampleTexture);
            sample_count = 1;
        }

        // Technically a resize, to rebuild the render targets at the new
        // sample count.
        let w = self.surface_width;
        let h = self.surface_height;
        let mut rest = self.resize(w, h);
        actions.append(&mut rest);

        self.pipeline_sample_count = sample_count;
        actions.push(Action::RebuildRenderPipeline { sample_count });
        proof {
            assert(actions@ =~= toggle_actions(*old(self), enabled));
        }
        actions
    }

    /// Replace the grid: destroy the current buffers first, generate a new
    /// set at the same numeric ranges, and re-run the evaluator over it
    /// before the next frame.
    pub fn set_grid_resolution(&mut self, width: u32, height: u32) -> (actions: Vec<Action>)
        requires
            old(self).wf(),
            width >= 2,
            height >= 2,
            24 * width * height <= u32::MAX,
        ensures
            actions@ == set_grid_actions(*old(self), width, height),
            *final(self) == (State {
                generator: final(self).generator,
                grid_buffers: buffers_for(GridDims { width, height }),
                ..*old(self)
            }),
            final(self).grid_buffers.wf(),
            final(self).wf(),
    {
        let mut actions: Vec<Action> = Vec::new();
        self.grid_buffers.destroy();
        actions.push(Action::DestroyGridBuffers);

        let (grid_buffers, plan) = self.generator.generate_buffers(
            (width, height),
            self.x_range,
            self.y_range,
        );
        actions.push(
            Action::WriteGridUniform {
                width: plan.uniform.width,
                height: plan.uniform.height,
                x_start: plan.uniform.x_start,
                x_end: plan.uniform.x_end,
                y_start: plan.uniform.y_start,
                y_end: plan.uniform.y_end,
            },
        );
        actions.push(
            Action::CreateGridBuffers {
                vertex_byte_count: plan.vertex_byte_count,
                index_byte_count: plan.index_byte_count,
            },
        );
        actions.push(
            Action::DispatchGenerateVertices { chunks_x: plan.chunks_x, chunks_y: plan.chunks_y },
        );
        actions.push(
            Action::DispatchGenerateIndices { chunks_x: plan.chunks_x, chunks_y: plan.chunks_y },
        );
        let counts = self.evaluator.evaluate_buffers(&[&grid_buffers]);
        actions.push(Action::DispatchEvaluate { workgroup_count: counts[0] });

        self.grid_buffers = grid_buffers;
        proof {
            assert(actions@ =~= set_grid_actions(*old(self), width, height));
        }
        actions
    }

    /// Apply one input event to the camera — zoom, then zenith, then
    /// azimuth — and re-upload the view-projection uniform, the only side
    /// effect visible outside the camera.
    pub fn move_camera(&mut self, distance: i64, zenith: i64, azimuth: i64) -> (actions: Vec<
        Action,
    >)
        requires
            old(self).wf(),
            -CAMERA_DELTA_LIMIT <= distance <= CAMERA_DELTA_LIMIT,
            -CAMERA_DELTA_LIMIT <= zenith <= CAMERA_DELTA_LIMIT,
            -CAMERA_DELTA_LIMIT <= azimuth <= CAMERA_DELTA_LIMIT,
        ensures
            *final(self) == (State {
                camera: apply_camera_ops(
                    old(self).camera,
                    move_camera_ops(distance, zenith, azimuth),
                ),
                ..*old(self)
            }),
            actions@ == seq![Action::UploadCameraUniform],
            final(self).wf(),
    {
        self.camera.move_distance(distance);
        self.camera.rotate_zenith(zenith);
        self.camera.rotate_azimuth(azimuth);
        proof {
            let ops = move_camera_ops(distance, zenith, azimuth);
            let c0 = old(self).camera;
            let rest1 = ops.drop_first();
            let rest2 = rest1.drop_first();
            let rest3 = rest2.drop_first();
            assert(rest1 =~= seq![CameraOp::RotateZenith(zenith), CameraOp::RotateAzimuth(azimuth)]);
            assert(rest2 =~= seq![CameraOp::RotateAzimuth(azimuth)]);
            assert(rest3 =~= Seq::<CameraOp>::empty());
            let c1 = camera_step(c0, CameraOp::MoveDistance(distance));
            let c2 = camera_step(c1, CameraOp::RotateZenith(zenith));
            let c3 = camera_step(c2, CameraOp::RotateAzimuth(azimuth));
            assert(apply_camera_ops(c0, ops) == apply_camera_ops(c1, rest1));
            assert(apply_camera_ops(c1, rest1) == apply_camera_ops(c2, rest2));
            assert(apply_camera_ops(c2, rest2) == apply_camera_ops(c3, rest3));
            assert(apply_camera_ops(c3, rest3) == c3);
            assert(apply_camera_ops(c0, ops) == self.camera);
        }
        let mut actions: Vec<Action> = Vec::new();
        actions.push(Action::UploadCameraUniform);
        proof {
            assert(actions@ =~= seq![Action::UploadCameraUniform]);
        }
        actions
    }

    /// Plan one frame: render into the multisample target and resolve into
    /// the acquired image when multisampling is on, directly into the image
    /// otherwise; one indexed draw covers the full index count. Rendering
    /// is always full-grid.
    pub fn render(&self) -> (r: RenderPlan)
        requires
            self.wf(),
        ensures
            r.use_multisample_target == self.multisampling_enabled,
            r.index_count == self.grid_buffers.index_count,
            r.index_format == self.grid_buffers.index_format,
            r.sample_count == self.pipeline_sample_count,
    {
        RenderPlan {
            use_multisample_target: self.multisampling_enabled,
            index_count: self.grid_buffers.index_count,
            index_format: self.grid_buffers.index_format,
            sample_count: self.pipeline_sample_count,
        }
    }
}

/// The actions `State::new` performs, in order.
pub open spec fn new_actions(width: u32, height: u32) -> Seq<Action> {
    let dims = GridDims { width: DEFAULT_GRID_RESOLUTION, height: DEFAULT_GRID_RESOLUTION };
    generate_actions(dims, default_range(), default_range()) + seq![
        Action::ConfigureSurface { width, height },
        Action::UploadCameraUniform,
        Action::RebuildRenderPipeline { sample_count: 1u32 },
        Action::CreateDepthTexture { width, height, sample_count: 1u32 },
    ]
}

/// The actions a multisampling toggle performs: nothing when already in the
/// requested state; otherwise destroy the multisample target when
/// disabling, rebuild both render targets at the current size, and rebuild
/// the pipeline at the new sample count.
pub open spec fn toggle_actions(s: State, enabled: bool) -> Seq<Action> {
    if enabled == s.multisampling_enabled {
        Seq::empty()
    } else {
        let mid = State {
            multisampling_enabled: enabled,
            multisample_target: if enabled {
                s.multisample_target
            } else {
                None
            },
            ..s
        };
        (if enabled {
            Seq::empty()
        } else {
            seq![Action::DestroyMultisampleTexture]
        }) + resize_actions(mid, s.surface_width, s.surface_height) + seq![
            Action::RebuildRenderPipeline {
                sample_count: if enabled {
                    MSAA_SAMPLE_COUNT
                } else {
                    1u32
                },
            },
        ]
    }
}

/// The state a (non-no-op) multisampling toggle leaves behind.
pub open spec fn toggled_state(s: State, enabled: bool) -> State {
    let mid = State {
        multisampling_enabled: enabled,
        multisample_target: if enabled {
            s.multisample_target
        } else {
            None
        },
        ..s
    };
    State {
        pipeline_sample_count: if enabled {
            MSAA_SAMPLE_COUNT
        } else {
            1u32
        },
        ..resized_state(mid, s.surface_width, s.surface_height)
    }
}

/// The actions a grid-resolution change performs: destroy the old buffers
/// first, then generate and evaluate the new grid.
pub open spec fn set_grid_actions(s: State, width: u32, height: u32) -> Seq<Action> {
    seq![Action::DestroyGridBuffers] + generate_actions(
        GridDims { width, height },
        s.x_range,
        s.y_range,
    )
}

} // verus!
