//! Fixed-point scalars.
//!
//! The engine's geometry, colors and camera parameters are real-valued. The
//! library represents such a quantity as a fixed-point number: an `i64` count
//! of millionths, so that the value `x` stands for the real number
//! `x / 1_000_000`. All arithmetic on these scalars is exact integer
//! arithmetic with truncation toward zero, which keeps every operation fully
//! specified.

use vstd::prelude::*;

verus! {

/// Raw units per 1.0: one scalar unit is a millionth.
pub const FX_SCALE: i64 = 1_000_000;

/// The raw value of -1.0, for spelling negated unit components.
pub const FX_SCALE_NEG: i64 = -1_000_000;

/// Truncated (round-toward-zero) integer division, the division performed by
/// the executable code. Verus's own `/` on `int` is Euclidean, so the
/// truncating form is spelled out by cases on the signs.
pub open spec fn tdiv(a: int, b: int) -> int
    recommends
        b != 0,
{
    if b > 0 {
        if a >= 0 {
            a / b
        } else {
            -((-a) / b)
        }
    } else {
        if a >= 0 {
            -(a / (-b))
        } else {
            (-a) / (-b)
        }
    }
}

/// The raw value of the fixed-point product of raw values `a` and `b`.
pub open spec fn fx_mul_v(a: int, b: int) -> int {
    tdiv(a * b, FX_SCALE as int)
}

/// The raw value of the fixed-point quotient of raw values `a` and `b`.
pub open spec fn fx_div_v(a: int, b: int) -> int
    recommends
        b != 0,
{
    tdiv(a * (FX_SCALE as int), b)
}

/// Truncated division by a positive divisor is exact on multiples.
pub proof fn lemma_tdiv_exact(k: int, s: int)
    requires
        s > 0,
    ensures
        tdiv(k * s, s) == k,
{
    if k >= 0 {
        assert(k * s >= 0) by (nonlinear_arith)
            requires
                k >= 0,
                s > 0,
        ;
        assert((k * s) / s == k) by (nonlinear_arith)
            requires
                s > 0,
        ;
    } else {
        assert(k * s < 0) by (nonlinear_arith)
            requires
                k < 0,
                s > 0,
        ;
        assert(-(k * s) == (-k) * s) by (nonlinear_arith);
        assert(((-k) * s) / s == -k) by (nonlinear_arith)
            requires
                s > 0,
        ;
    }
}

/// A bound on the dividend gives the matching bound on a truncated quotient.
pub proof fn lemma_tdiv_bound(a: int, b: int, c: int)
    requires
        b > 0,
        c >= 0,
        -(b * c) <= a <= b * c,
    ensures
        -c <= tdiv(a, b) <= c,
{
    if a >= 0 {
        assert(a / b <= c) by (nonlinear_arith)
            requires
                b > 0,
                c >= 0,
                a >= 0,
                a <= b * c,
        ;
        assert(a / b >= 0) by (nonlinear_arith)
            requires
                b > 0,
                a >= 0,
        ;
    } else {
        assert((-a) / b <= c) by (nonlinear_arith)
            requires
                b > 0,
                c >= 0,
                -a >= 0,
                -a <= b * c,
        ;
        assert((-a) / b >= 0) by (nonlinear_arith)
            requires
                b > 0,
                -a >= 0,
        ;
    }
}

/// The divisor's magnitude bounds a truncated quotient: with `|b|` at least
/// `min_b` and the dividend within `min_b * c`, the quotient is within `c`.
pub proof fn lemma_tdiv_bound_divisor(a: int, b: int, min_b: int, c: int)
    requires
        min_b > 0,
        c >= 0,
        b >= min_b || b <= -min_b,
        -(min_b * c) <= a <= min_b * c,
    ensures
        -c <= tdiv(a, b) <= c,
{
    let q = if b > 0 {
        b
    } else {
        -b
    };
    assert(q >= min_b);
    assert(min_b * c <= q * c) by (nonlinear_arith)
        requires
            min_b <= q,
            c >= 0,
    ;
    lemma_tdiv_bound(a, q, c);
    if b < 0 {
        assert(tdiv(a, b) == -tdiv(a, q));
    }
}

/// Bounds in whole scalar units carry through a fixed-point product: if
/// `|a|` is at most `ka` units and `|b|` at most `kb`, the product is at
/// most `ka * kb` units.
pub proof fn lemma_fx_mul_within(a: int, b: int, ka: int, kb: int)
    requires
        0 <= ka,
        0 <= kb,
        -(ka * (FX_SCALE as int)) <= a <= ka * (FX_SCALE as int),
        -(kb * (FX_SCALE as int)) <= b <= kb * (FX_SCALE as int),
    ensures
        -(ka * kb * (FX_SCALE as int)) <= fx_mul_v(a, b) <= ka * kb * (FX_SCALE as int),
{
    let s = FX_SCALE as int;
    assert(-(ka * kb * s * s) <= a * b <= ka * kb * s * s) by (nonlinear_arith)
        requires
            0 <= ka,
            0 <= kb,
            s > 0,
            -(ka * s) <= a <= ka * s,
            -(kb * s) <= b <= kb * s,
    ;
    assert(s * (ka * kb * s) == ka * kb * s * s) by (nonlinear_arith);
    assert(ka * kb * s >= 0) by (nonlinear_arith)
        requires
            0 <= ka,
            0 <= kb,
            s > 0,
    ;
    lemma_tdiv_bound(a * b, s, ka * kb * s);
}

/// A fixed-point scalar: `raw` millionths.
#[derive(Clone, Copy, Debug, PartialEq, Eq, Structural)]
pub struct Fx {
    pub raw: i64,
}

/// Truncated division of an `i128` by a positive `i128`, computed through
/// unsigned division so that the quotient is fully specified.
pub(crate) fn tdiv_i128(a: i128, d: i128) -> (r: i128)
    requires
        d > 0,
        a > i128::MIN,
    ensures
        r == tdiv(a as int, d as int),
{
    if a >= 0 {
        let q: u128 = (a as u128) / (d as u128);
        q as i128
    } else {
        let q: u128 = ((-a) as u128) / (d as u128);
        assert(q <= (-a) as u128) by {
            assert((-a) as u128 / (d as u128) <= (-a) as u128) by (nonlinear_arith)
                requires
                    d as u128 > 0,
            ;
        }
        -(q as i128)
    }
}

impl Fx {
    /// The scalar with the given raw count of millionths.
    pub fn from_raw(raw: i64) -> (r: Fx)
        ensures
            r.raw == raw,
    {
        Fx { raw }
    }

    /// The scalar zero.
    pub fn zero() -> (r: Fx)
        ensures
            r.raw == 0,
    {
        Fx { raw: 0 }
    }

    /// The scalar one.
    pub fn one() -> (r: Fx)
        ensures
            r.raw == FX_SCALE,
    {
        Fx { raw: FX_SCALE }
    }

    /// Fixed-point addition; the raw values add.
    pub fn add(self, o: Fx) -> (r: Fx)
        requires
            i64::MIN <= self.raw + o.raw <= i64::MAX,
        ensures
            r.raw == self.raw + o.raw,
    {
        Fx { raw: self.raw + o.raw }
    }

    /// Fixed-point subtraction; the raw values subtract.
    pub fn sub(self, o: Fx) -> (r: Fx)
        requires
            i64::MIN <= self.raw - o.raw <= i64::MAX,
        ensures
            r.raw == self.raw - o.raw,
    {
        Fx { raw: self.raw - o.raw }
    }

    /// Fixed-point negation.
    pub fn neg(self) -> (r: Fx)
        requires
            self.raw > i64::MIN,
        ensures
            r.raw == -self.raw,
    {
        Fx { raw: -self.raw }
    }

    /// Fixed-point multiplication: the product of the raw values, scaled back
    /// down with truncation toward zero.
    pub fn mul(self, o: Fx) -> (r: Fx)
        requires
            i64::MIN <= fx_mul_v(self.raw as int, o.raw as int) <= i64::MAX,
        ensures
            r.raw == fx_mul_v(self.raw as int, o.raw as int),
    {
        let a: i128 = self.raw as i128;
        let b: i128 = o.raw as i128;
        assert(-0x4000_0000_0000_0000_0000_0000_0000_0000 <= a * b
            <= 0x4000_0000_0000_0000_0000_0000_0000_0000) by (nonlinear_arith)
            requires
                -0x8000_0000_0000_0000 <= a <= 0x7fff_ffff_ffff_ffff,
                -0x8000_0000_0000_0000 <= b <= 0x7fff_ffff_ffff_ffff,
        ;
        let p: i128 = a * b;
        let q: i128 = tdiv_i128(p, FX_SCALE as i128);
        Fx { raw: q as i64 }
    }

    /// Fixed-point division: the dividend scaled up, divided by the divisor's
    /// raw value, with truncation toward zero.
    pub fn div(self, o: Fx) -> (r: Fx)
        requires
            o.raw != 0,
            i64::MIN <= fx_div_v(self.raw as int, o.raw as int) <= i64::MAX,
        ensures
            r.raw == fx_div_v(self.raw as int, o.raw as int),
    {
        let a: i128 = self.raw as i128;
        let b: i128 = o.raw as i128;
        assert(-0x4000_0000_0000_0000_0000_0000_0000_0000 <= a * (FX_SCALE as i128)
            <= 0x4000_0000_0000_0000_0000_0000_0000_0000) by (nonlinear_arith)
            requires
                -0x8000_0000_0000_0000 <= a <= 0x7fff_ffff_ffff_ffff,
        ;
        let p: i128 = a * (FX_SCALE as i128);
        let q: i128 = if b >= 0 {
            tdiv_i128(p, b)
        } else {
            -tdiv_i128(p, -b)
        };
        assert(q == tdiv(a * (FX_SCALE as int), b as int));
        Fx { raw: q as i64 }
    }

    /// Absolute value.
    pub fn abs(self) -> (r: Fx)
        requires
            self.raw > i64::MIN,
        ensures
            r.raw == if self.raw >= 0 {
                self.raw as int
            } else {
                -self.raw as int
            },
    {
        if self.raw >= 0 {
            self
        } else {
            Fx { raw: -self.raw }
        }
    }

    /// The larger of the two scalars.
    pub fn max(self, o: Fx) -> (r: Fx)
        ensures
            r.raw == if self.raw >= o.raw {
                self.raw
            } else {
                o.raw
            },
    {
        if self.raw >= o.raw {
            self
        } else {
            o
        }
    }
}

} // verus!
