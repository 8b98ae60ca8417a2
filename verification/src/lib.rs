//! Verified model of a GPU-resident procedural grid-surface renderer.
//!
//! The library holds the parts of the system with real invariants: buffer
//! sizing arithmetic, compute-dispatch chunking, the semantics of the
//! grid-generation passes, a bounded orbital camera, and the render-target
//! lifecycle (depth / multisample textures, pipeline rebuilds). The GPU work
//! itself — device and queue calls — is driven by a thin unverified layer
//! that interprets the action sequences these types produce.

pub mod camera;
pub mod fill;
pub mod grid;
pub mod mesh_generator;
pub mod meshgrid;
pub mod state;
