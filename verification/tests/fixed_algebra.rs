use palantir::algebra::{Mat4, Vec3};
use palantir::fixed::{Fx, FX_SCALE};

#[test]
fn fx_add_sub_neg_abs_max() {
    let a = Fx::from_raw(1_500_000);
    let b = Fx::from_raw(-250_000);
    assert_eq!(a.add(b).raw, 1_250_000);
    assert_eq!(a.sub(b).raw, 1_750_000);
    assert_eq!(b.neg().raw, 250_000);
    assert_eq!(b.abs().raw, 250_000);
    assert_eq!(a.abs().raw, 1_500_000);
    assert_eq!(a.max(b).raw, 1_500_000);
    assert_eq!(b.max(a).raw, 1_500_000);
    assert_eq!(Fx::zero().raw, 0);
    assert_eq!(Fx::one().raw, FX_SCALE);
}

#[test]
fn fx_mul_exact_and_truncating() {
    // 1.5 * 1.5 == 2.25 exactly.
    let a = Fx::from_raw(1_500_000);
    assert_eq!(a.mul(a).raw, 2_250_000);
    // -1.5 * 1.5 == -2.25 exactly.
    assert_eq!(a.neg().mul(a).raw, -2_250_000);
    // A product below one raw unit truncates toward zero, from both sides.
    assert_eq!(Fx::from_raw(1).mul(Fx::from_raw(100_000)).raw, 0);
    assert_eq!(Fx::from_raw(-1).mul(Fx::from_raw(100_000)).raw, 0);
    // 1/3-ish truncation: 0.333333 * 3 = 0.999999.
    assert_eq!(Fx::from_raw(333_333).mul(Fx::from_raw(3_000_000)).raw, 999_999);
}

#[test]
fn fx_div_exact_and_truncating() {
    let a = Fx::from_raw(3_000_000);
    let b = Fx::from_raw(2_000_000);
    assert_eq!(a.div(b).raw, 1_500_000);
    // 1 / 3 truncates: 0.333333.
    assert_eq!(Fx::one().div(a).raw, 333_333);
    // Negative quotients truncate toward zero.
    assert_eq!(Fx::one().neg().div(a).raw, -333_333);
    assert_eq!(Fx::one().div(a.neg()).raw, -333_333);
}

#[test]
fn identity_multiplication_is_exact() {
    let m = Mat4::from_cols([
        1_000_000, 2, 3, 4, 5, 6_500_000, 7, 8, 9, 10, 11, 12, 13_000_000, -14, 15, 1_000_000,
    ]);
    let id = Mat4::identity();
    assert_eq!(id.mul(&m), m);
    assert_eq!(m.mul(&id), m);
}

#[test]
fn translation_matrix_shape() {
    let t = Mat4::translation(Vec3::new(
        Fx::from_raw(10),
        Fx::from_raw(-20),
        Fx::from_raw(30),
    ));
    assert_eq!(t.entry(0, 3), 10);
    assert_eq!(t.entry(1, 3), -20);
    assert_eq!(t.entry(2, 3), 30);
    assert_eq!(t.entry(0, 0), FX_SCALE);
    assert_eq!(t.entry(1, 1), FX_SCALE);
    assert_eq!(t.entry(2, 2), FX_SCALE);
    assert_eq!(t.entry(3, 3), FX_SCALE);
    assert_eq!(t.entry(1, 0), 0);
}

#[test]
fn translations_compose_by_adding_offsets() {
    let a = Mat4::translation(Vec3::new(Fx::one(), Fx::zero(), Fx::zero()));
    let b = Mat4::translation(Vec3::new(Fx::one(), Fx::one(), Fx::zero()));
    let c = a.mul(&b);
    assert_eq!(c.entry(0, 3), 2_000_000);
    assert_eq!(c.entry(1, 3), 1_000_000);
    assert_eq!(c.entry(2, 3), 0);
    assert_eq!(c.entry(0, 0), FX_SCALE);
}

#[test]
fn rotation_quarter_turn_about_y() {
    // sin 90 = 1, cos 90 = 0.
    let r = Mat4::rotation(Vec3::unit_y(), Fx::one(), Fx::zero());
    let expected = Mat4::from_cols([
        0, 0, -1_000_000, 0, 0, 1_000_000, 0, 0, 1_000_000, 0, 0, 0, 0, 0, 0, 1_000_000,
    ]);
    assert_eq!(r, expected);
}

#[test]
fn zero_translation_and_transpose_rotation() {
    let m = Mat4::from_cols([1, 2, 3, 0, 4, 5, 6, 0, 7, 8, 9, 0, 100, 200, 300, 1_000_000]);
    let z = m.zero_translation();
    assert_eq!(z.entry(0, 3), 0);
    assert_eq!(z.entry(1, 3), 0);
    assert_eq!(z.entry(2, 3), 0);
    assert_eq!(z.entry(3, 3), FX_SCALE);
    assert_eq!(z.entry(2, 1), m.entry(2, 1));
    let t = m.transpose_rotation();
    assert_eq!(t.entry(0, 1), m.entry(1, 0));
    assert_eq!(t.entry(2, 0), m.entry(0, 2));
    assert_eq!(t.entry(0, 3), 0);
    assert_eq!(t.entry(3, 3), FX_SCALE);
}
