use meshgrid::camera::{
    Camera, CLOSEST_FP, FARTHEST_FP, PI_FP, TAU_FP, ZENITH_MARGIN_FP,
};

fn test_camera() -> Camera {
    Camera {
        target_x: 0,
        target_y: 0,
        target_z: 0,
        distance: 12_000_000,
        zenith: 841_069,
        azimuth: 1_107_149,
        aspect_width: 800,
        aspect_height: 600,
        fovy: 1_570_796,
        znear: 100_000,
        zfar: 100_000_000,
    }
}

fn assert_invariants(c: &Camera) {
    assert!(CLOSEST_FP <= c.distance && c.distance <= FARTHEST_FP);
    assert!(ZENITH_MARGIN_FP <= c.zenith && c.zenith <= PI_FP - ZENITH_MARGIN_FP);
    assert!(0 <= c.azimuth && c.azimuth < TAU_FP);
}

#[test]
fn zoom_scales_multiplicatively() {
    let mut c = test_camera();
    // delta 0.5: distance halves.
    c.move_distance(500_000);
    assert_eq!(c.distance, 6_000_000);
    // delta -1.0: distance doubles, clamped to the farthest bound.
    c.move_distance(-1_000_000);
    assert_eq!(c.distance, 12_000_000);
    c.move_distance(-1_000_000);
    assert_eq!(c.distance, FARTHEST_FP);
}

#[test]
fn zoom_clamps_at_closest() {
    let mut c = test_camera();
    // A delta past 1.0 would flip the distance negative; it lands on the
    // closest bound instead.
    c.move_distance(2_000_000);
    assert_eq!(c.distance, CLOSEST_FP);
    // Zooming in further cannot pass the bound.
    c.move_distance(999_999);
    assert_eq!(c.distance, CLOSEST_FP);
    assert_invariants(&c);
}

#[test]
fn zenith_clamps_at_both_poles() {
    let mut c = test_camera();
    c.rotate_zenith(100_000_000);
    assert_eq!(c.zenith, PI_FP - ZENITH_MARGIN_FP);
    c.rotate_zenith(-100_000_000);
    assert_eq!(c.zenith, ZENITH_MARGIN_FP);
    c.rotate_zenith(500_000);
    assert_eq!(c.zenith, ZENITH_MARGIN_FP + 500_000);
    assert_invariants(&c);
}

#[test]
fn azimuth_wraps_into_one_turn() {
    let mut c = test_camera();
    // A negative rotation past zero wraps to the top of the range.
    c.rotate_azimuth(-2_000_000);
    assert_eq!(c.azimuth, 1_107_149 - 2_000_000 + TAU_FP);
    // A full turn is the identity.
    let before = c.azimuth;
    c.rotate_azimuth(TAU_FP);
    assert_eq!(c.azimuth, before);
    // A positive rotation past a full turn wraps back down.
    c.rotate_azimuth(TAU_FP - before + 1);
    assert_eq!(c.azimuth, 1);
    assert_invariants(&c);
}

#[test]
fn invariants_hold_under_arbitrary_sequences() {
    // An arbitrary interleaving of zooms and rotations, checked after
    // every step.
    let mut c = test_camera();
    let deltas: [i64; 10] = [
        1_000_000_000,
        -1_000_000_000,
        3,
        -7_777_777,
        999_999_999,
        -1,
        123_456_789,
        -987_654_321,
        0,
        42,
    ];
    for (k, &d) in deltas.iter().enumerate() {
        match k % 3 {
            0 => c.move_distance(d),
            1 => c.rotate_zenith(d),
            _ => c.rotate_azimuth(d),
        }
        assert_invariants(&c);
    }
}

#[test]
fn aspect_follows_surface() {
    let mut c = test_camera();
    c.set_aspect(1920, 1080);
    assert_eq!(c.aspect_width, 1920);
    assert_eq!(c.aspect_height, 1080);
    assert_eq!(c.distance, 12_000_000);
}
