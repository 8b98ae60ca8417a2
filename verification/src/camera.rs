//! Orbital camera: a target point plus spherical coordinates (distance,
//! zenith, azimuth), with every mutation bounded by the camera itself.
//!
//! Angles and distances are fixed-point: `FP_SCALE` units per radian or per
//! world unit. The unverified render layer converts these to floats when it
//! uploads the view-projection matrix; the clamping and wrapping rules live
//! here, where they are proved.

use vstd::prelude::*;

verus! {

/// Fixed-point units per radian (for angles) or per world unit (for
/// distances and coordinates).
pub const FP_SCALE: i64 = 1_000_000;

/// Pi in fixed-point units.
pub const PI_FP: i64 = 3_141_593;

/// A full turn in fixed-point units.
pub const TAU_FP: i64 = 2 * PI_FP;

/// Margin keeping the zenith away from the poles, where the up vector would
/// be parallel to the view direction (0.01 rad).
pub const ZENITH_MARGIN_FP: i64 = 10_000;

/// Nearest allowed orbit distance (0.1 world units).
pub const CLOSEST_FP: i64 = 100_000;

/// Farthest allowed orbit distance (15 world units).
pub const FARTHEST_FP: i64 = 15_000_000;

/// Bound on a single mutation delta, so that the fixed-point arithmetic
/// stays far from `i64` overflow (1000 radians or a zoom factor of 1000).
pub const CAMERA_DELTA_LIMIT: i64 = 1_000_000_000;

/// Orbital camera state. `aspect_width` / `aspect_height` carry the aspect
/// ratio exactly as the surface dimensions that induced it.
pub struct Camera {
    pub target_x: i64,
    pub target_y: i64,
    pub target_z: i64,
    pub distance: i64,
    pub zenith: i64,
    pub azimuth: i64,
    pub aspect_width: u32,
    pub aspect_height: u32,
    pub fovy: i64,
    pub znear: i64,
    pub zfar: i64,
}

/// One camera mutation, as issued by input handling.
pub enum CameraOp {
    MoveDistance(i64),
    RotateZenith(i64),
    RotateAzimuth(i64),
}

pub open spec fn clamp_spec(v: int, lo: int, hi: int) -> int {
    if v < lo {
        lo
    } else if v > hi {
        hi
    } else {
        v
    }
}

/// Zenith after rotating by `delta`: clamped away from both poles.
pub open spec fn zenith_after(zenith: int, delta: int) -> int {
    clamp_spec(zenith + delta, ZENITH_MARGIN_FP as int, PI_FP - ZENITH_MARGIN_FP)
}

/// Azimuth after rotating by `delta`: wrapped into [0, TAU) with a
/// floor-style modulo that is non-negative even for negative operands.
pub open spec fn azimuth_after(azimuth: int, delta: int) -> int {
    (azimuth + delta) % (TAU_FP as int)
}

/// Distance after a multiplicative zoom by `delta`: the distance is scaled
/// by `1 - delta` (in fixed point) and clamped to the allowed orbit range.
pub open spec fn distance_after(distance: int, delta: int) -> int {
    let factor = FP_SCALE - delta;
    if factor <= 0 {
        CLOSEST_FP as int
    } else {
        clamp_spec(distance * factor / (FP_SCALE as int), CLOSEST_FP as int, FARTHEST_FP as int)
    }
}

/// The camera state reached by one mutation.
pub open spec fn camera_step(c: Camera, op: CameraOp) -> Camera {
    match op {
        CameraOp::MoveDistance(delta) => Camera {
            distance: distance_after(c.distance as int, delta as int) as i64,
            ..c
        },
        CameraOp::RotateZenith(delta) => Camera {
            zenith: zenith_after(c.zenith as int, delta as int) as i64,
            ..c
        },
        CameraOp::RotateAzimuth(delta) => Camera {
            azimuth: azimuth_after(c.azimuth as int, delta as int) as i64,
            ..c
        },
    }
}

/// The camera state reached by a sequence of mutations, applied in order.
pub open spec fn apply_camera_ops(c: Camera, ops: Seq<CameraOp>) -> Camera
    decreases ops.len(),
{
    if ops.len() == 0 {
        c
    } else {
        apply_camera_ops(camera_step(c, ops[0]), ops.drop_first())
    }
}

impl Camera {
    /// The numeric invariant every mutation maintains: distance within its
    /// clamp, zenith away from both poles, azimuth wrapped, and a positive
    /// aspect ratio.
    pub open spec fn wf(self) -> bool {
        &&& CLOSEST_FP <= self.distance <= FARTHEST_FP
        &&& ZENITH_MARGIN_FP <= self.zenith <= PI_FP - ZENITH_MARGIN_FP
        &&& 0 <= self.azimuth < TAU_FP
        &&& self.aspect_width > 0
        &&& self.aspect_height > 0
    }

    /// Multiplicative zoom: scale the distance by `1 - delta` so equal input
    /// deltas take proportionally smaller steps as the camera closes in,
    /// then clamp to the allowed orbit range.
    pub fn move_distance(&mut self, delta: i64)
        requires
            old(self).wf(),
            -CAMERA_DELTA_LIMIT <= delta <= CAMERA_DELTA_LIMIT,
        ensures
            *final(self) == camera_step(*old(self), CameraOp::MoveDistance(delta)),
            final(self).wf(),
    {
        let factor = FP_SCALE - delta;
        if factor <= 0 {
            self.distance = CLOSEST_FP;
        } else {
            let d0 = self.distance;
            proof {
                assert(0 <= d0 * factor <= 15_000_000i64 * 1_001_000_000i64) by (nonlinear_arith)
                    requires
                        0 < factor <= 1_001_000_000i64,
                        100_000 <= d0 <= 15_000_000i64,
                ;
            }
            let scaled = d0 * factor;
            let mut d = scaled / FP_SCALE;
            if d < CLOSEST_FP {
                d = CLOSEST_FP;
            }
            if d > FARTHEST_FP {
                d = FARTHEST_FP;
            }
            self.distance = d;
        }
    }

    /// Rotate away from or toward the Z axis, clamped to keep a margin from
    /// both poles.
    pub fn rotate_zenith(&mut self, delta: i64)
        requires
            old(self).wf(),
            -CAMERA_DELTA_LIMIT <= delta <= CAMERA_DELTA_LIMIT,
        ensures
            *final(self) == camera_step(*old(self), CameraOp::RotateZenith(delta)),
            final(self).wf(),
    {
        let mut z = self.zenith + delta;
        if z < ZENITH_MARGIN_FP {
            z = ZENITH_MARGIN_FP;
        }
        let hi = PI_FP - ZENITH_MARGIN_FP;
        if z > hi {
            z = hi;
        }
        self.zenith = z;
    }

    /// Rotate about the XY plane, wrapped into [0, TAU) with a floor-style
    /// modulo that is non-negative even for negative operands.
    pub fn rotate_azimuth(&mut self, delta: i64)
        requires
            old(self).wf(),
            -CAMERA_DELTA_LIMIT <= delta <= CAMERA_DELTA_LIMIT,
        ensures
            *final(self) == camera_step(*old(self), CameraOp::RotateAzimuth(delta)),
            final(self).wf(),
    {
        let s = self.azimuth + delta;
        let r = s % TAU_FP;
        proof {
            lemma_floor_mod(s as int);
        }
        self.azimuth = if r < 0 {
            r + TAU_FP
        } else {
            r
        };
    }

    /// Update the aspect ratio to a resized surface.
    pub fn set_aspect(&mut self, width: u32, height: u32)
        requires
            old(self).wf(),
            width > 0,
            height > 0,
        ensures
            *final(self) == (Camera { aspect_width: width, aspect_height: height, ..*old(self) }),
            final(self).wf(),
    {
        self.aspect_width = width;
        self.aspect_height = height;
    }
}

/// Rust's truncating remainder, corrected by one divisor when negative,
/// equals the Euclidean remainder.
proof fn lemma_floor_mod(s: int)
    ensures
        0 <= s % (TAU_FP as int) < TAU_FP,
        s < 0 && (-s) % (TAU_FP as int) == 0 ==> s % (TAU_FP as int) == 0,
        s < 0 && (-s) % (TAU_FP as int) > 0 ==> s % (TAU_FP as int) == TAU_FP - (-s) % (
        TAU_FP as int),
{
    let t = TAU_FP as int;
    vstd::arithmetic::div_mod::lemma_mod_bound(s, t);
    if s < 0 {
        let q = (-s) / t;
        let e = (-s) % t;
        vstd::arithmetic::div_mod::lemma_fundamental_div_mod(-s, t);
        vstd::arithmetic::div_mod::lemma_mod_bound(-s, t);
        if e == 0 {
            assert(s == t * (-q));
            vstd::arithmetic::div_mod::lemma_mod_multiples_vanish(-q, 0, t);
        } else {
            assert(s == t * (-q - 1) + (t - e)) by (nonlinear_arith)
                requires
                    -s == t * q + e,
            ;
            vstd::arithmetic::div_mod::lemma_mod_multiples_vanish(-q - 1, t - e, t);
            vstd::arithmetic::div_mod::lemma_small_mod((t - e) as nat, t as nat);
        }
    }
}

/// One mutation keeps the camera invariant.
pub proof fn lemma_camera_step_wf(c: Camera, op: CameraOp)
    requires
        c.wf(),
    ensures
        camera_step(c, op).wf(),
{
    match op {
        CameraOp::MoveDistance(delta) => {},
        CameraOp::RotateZenith(delta) => {},
        CameraOp::RotateAzimuth(delta) => {
            vstd::arithmetic::div_mod::lemma_mod_bound(c.azimuth + delta, TAU_FP as int);
        },
    }
}

/// Camera invariants hold after arbitrary sequences of mutations: any
/// interleaving of zooms and rotations leaves the distance, zenith and
/// azimuth within their bounds.
pub proof fn lemma_camera_ops_wf(c: Camera, ops: Seq<CameraOp>)
    requires
        c.wf(),
    ensures
        apply_camera_ops(c, ops).wf(),
    decreases ops.len(),
{
    if ops.len() > 0 {
        lemma_camera_step_wf(c, ops[0]);
        lemma_camera_ops_wf(camera_step(c, ops[0]), ops.drop_first());
    }
}

} // verus!
