use palantir::algebra::{Mat4, Vec3};
use palantir::camera::{Camera, MIN_DISTANCE};
use palantir::fixed::Fx;
use palantir::objects::TCamera;

fn test_camera() -> Camera {
    // fov ~0.93 rad, tan(fov/2) = 0.5, near 0.01, far 1000, square aspect.
    Camera::new(
        Fx::from_raw(927_295),
        Fx::from_raw(500_000),
        Fx::from_raw(10_000),
        Fx::from_raw(1_000_000_000),
        Fx::one(),
    )
}

#[test]
fn new_camera_starts_pulled_back() {
    let c = test_camera();
    // The initial zoom of -3 from distance 1: compensated -0.3.
    assert_eq!(c.distance().raw, 1_300_000);
    let local = c.local_matrix();
    assert_eq!(local.entry(2, 3), -300_000);
    assert_eq!(c.target_matrix(), Mat4::identity());
}

#[test]
fn zoom_never_drives_distance_below_clamp() {
    let mut c = test_camera();
    for _ in 0..20 {
        c.zoom(Fx::from_raw(-3_000_000));
        assert!(c.distance().raw >= MIN_DISTANCE);
    }
    // Zooming in by exactly ten tenths lands on the clamp ...
    let mut c = test_camera();
    c.zoom(Fx::from_raw(10_000_000));
    assert_eq!(c.distance().raw, MIN_DISTANCE);
    // ... and stays there under repeated large zooms, in either direction.
    c.zoom(Fx::from_raw(10_000_000));
    assert_eq!(c.distance().raw, MIN_DISTANCE);
    for _ in 0..10 {
        c.zoom(Fx::from_raw(-10_000_000));
        assert!(c.distance().raw >= MIN_DISTANCE);
    }
}

#[test]
fn yaw_from_identity_is_the_rotation_itself() {
    let mut c = test_camera();
    // Quarter turn about the world Y axis: sin 1, cos 0.
    c.rotate(Vec3::unit_y(), Fx::one(), Fx::zero());
    let rotation = Mat4::rotation(Vec3::unit_y(), Fx::one(), Fx::zero());
    // identity * rotation == rotation: the target takes the rotation as is.
    assert_eq!(c.target_matrix(), Mat4::identity().mul(&rotation));
    assert_eq!(c.target_matrix(), rotation);
}

#[test]
fn pitch_composes_on_the_left() {
    let mut c = test_camera();
    let unit_x = Vec3::new(Fx::one(), Fx::zero(), Fx::zero());
    c.rotate(Vec3::unit_y(), Fx::one(), Fx::zero());
    let after_yaw = c.target_matrix();
    c.rotate(unit_x, Fx::one(), Fx::zero());
    let pitch = Mat4::rotation(unit_x, Fx::one(), Fx::zero());
    assert_eq!(c.target_matrix(), pitch.mul(&after_yaw));
}

#[test]
fn focus_recenters_the_orbit_pivot() {
    let mut c = test_camera();
    c.pan(Fx::one(), Fx::one());
    c.focus();
    let t = c.target_matrix();
    assert_eq!(t.entry(0, 3), 0);
    assert_eq!(t.entry(1, 3), 0);
    assert_eq!(t.entry(2, 3), 0);
}

#[test]
fn view_matrix_is_local_times_target() {
    let mut c = test_camera();
    c.rotate(Vec3::unit_y(), Fx::one(), Fx::zero());
    let view = c.view_matrix();
    assert_eq!(view, c.local_matrix().mul(&c.target_matrix()));
    assert_eq!(view, c.matrix());
}

#[test]
fn projection_matrix_entries() {
    // tan(fov/2) = 1, aspect 1, near 1, far 10.
    let c = Camera::new(
        Fx::from_raw(1_570_796),
        Fx::one(),
        Fx::one(),
        Fx::from_raw(10_000_000),
        Fx::one(),
    );
    let p = c.projection_matrix();
    assert_eq!(p.entry(0, 0), 1_000_000);
    assert_eq!(p.entry(1, 1), 1_000_000);
    // (far + near) / (near - far) = 11 / -9, truncated.
    assert_eq!(p.entry(2, 2), -1_222_222);
    assert_eq!(p.entry(3, 2), -1_000_000);
    // 2 * far * near / (near - far) = 20 / -9, truncated.
    assert_eq!(p.entry(2, 3), -2_222_222);
    assert_eq!(p.entry(0, 1), 0);
    assert_eq!(p.entry(3, 3), 0);
}

#[test]
fn set_fov_and_aspect_update_projection() {
    let mut c = test_camera();
    c.set_fov(Fx::from_raw(1_570_796), Fx::one());
    c.set_aspect_ratio(Fx::from_raw(2_000_000));
    let p = c.projection_matrix();
    // 1 / (tan * aspect) = 0.5.
    assert_eq!(p.entry(0, 0), 500_000);
    assert_eq!(p.entry(1, 1), 1_000_000);
    assert_eq!(c.fov().raw, 1_570_796);
}
