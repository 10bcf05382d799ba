//! Vectors and 4x4 matrices over fixed-point scalars.
//!
//! Matrices are stored column-major, as the GPU expects them: the entry at
//! row `r`, column `c` is `e[c * 4 + r]`. In specifications a matrix is read
//! through [`Mat4::m`], a sequence of sixteen mathematical integers (the raw
//! fixed-point entries), so every matrix operation has an exact arithmetic
//! contract.

use vstd::prelude::*;

use crate::fixed::{fx_mul_v, lemma_fx_mul_within, lemma_tdiv_bound, lemma_tdiv_exact, tdiv, Fx,
    FX_SCALE};

verus! {

/// Largest raw magnitude a well-formed matrix entry may have (one million in
/// scalar units). The bound leaves room so that any product of two
/// well-formed matrices still fits in an `i64` entry.
pub const MAT_MAX: i64 = 1_000_000_000_000;

/// A two-component vector of fixed-point scalars.
#[derive(Clone, Copy, Debug, PartialEq, Eq, Structural)]
pub struct Vec2 {
    pub x: Fx,
    pub y: Fx,
}

/// A three-component vector of fixed-point scalars.
#[derive(Clone, Copy, Debug, PartialEq, Eq, Structural)]
pub struct Vec3 {
    pub x: Fx,
    pub y: Fx,
    pub z: Fx,
}

impl Vec2 {
    /// The vector with the given components.
    pub fn new(x: Fx, y: Fx) -> (r: Vec2)
        ensures
            r.x == x,
            r.y == y,
    {
        Vec2 { x, y }
    }
}

impl Vec3 {
    /// The vector with the given components.
    pub fn new(x: Fx, y: Fx, z: Fx) -> (r: Vec3)
        ensures
            r.x == x,
            r.y == y,
            r.z == z,
    {
        Vec3 { x, y, z }
    }

    /// The positive Y axis, the axis of world-space yaw.
    pub fn unit_y() -> (r: Vec3)
        ensures
            r.x.raw == 0,
            r.y.raw == FX_SCALE,
            r.z.raw == 0,
    {
        Vec3 { x: Fx { raw: 0 }, y: Fx { raw: FX_SCALE }, z: Fx { raw: 0 } }
    }

    /// Whether this is exactly the positive Y axis.
    pub open spec fn is_unit_y(self) -> bool {
        self.x.raw == 0 && self.y.raw == FX_SCALE && self.z.raw == 0
    }
}

/// The identity matrix, as raw entries.
pub open spec fn mat_identity_v() -> Seq<int> {
    Seq::new(
        16,
        |i: int|
            if i == 0 || i == 5 || i == 10 || i == 15 {
                FX_SCALE as int
            } else {
                0
            },
    )
}

/// The translation matrix by `(x, y, z)` raw units, as raw entries.
pub open spec fn mat_translation_v(x: int, y: int, z: int) -> Seq<int> {
    Seq::new(
        16,
        |i: int|
            if i == 12 {
                x
            } else if i == 13 {
                y
            } else if i == 14 {
                z
            } else if i == 0 || i == 5 || i == 10 || i == 15 {
                FX_SCALE as int
            } else {
                0
            },
    )
}

/// Entry `(r, c)` of the product of two matrices: the row-by-column dot
/// product of raw entries, scaled back down with truncation.
pub open spec fn mat_mul_entry_v(a: Seq<int>, b: Seq<int>, r: int, c: int) -> int {
    tdiv(
        a[0 * 4 + r] * b[c * 4 + 0] + a[1 * 4 + r] * b[c * 4 + 1] + a[2 * 4 + r] * b[c * 4 + 2]
            + a[3 * 4 + r] * b[c * 4 + 3],
        FX_SCALE as int,
    )
}

/// The product of two matrices, as raw entries.
pub open spec fn mat_mul_v(a: Seq<int>, b: Seq<int>) -> Seq<int> {
    Seq::new(16, |i: int| mat_mul_entry_v(a, b, i % 4, i / 4))
}

/// `m` with its translation column reset to the origin: the orientation part
/// of a rigid transform.
pub open spec fn mat_zero_translation_v(m: Seq<int>) -> Seq<int> {
    Seq::new(
        16,
        |i: int|
            if i == 12 || i == 13 || i == 14 {
                0
            } else if i == 15 {
                FX_SCALE as int
            } else {
                m[i]
            },
    )
}

/// The upper-left 3x3 block of `m` transposed, with an identity translation
/// column: for a rotation this is its inverse.
pub open spec fn mat_transpose_rotation_v(m: Seq<int>) -> Seq<int> {
    Seq::new(
        16,
        |i: int|
            if i % 4 < 3 && i / 4 < 3 {
                m[(i % 4) * 4 + i / 4]
            } else if i == 15 {
                FX_SCALE as int
            } else {
                0
            },
    )
}

/// Whether raw matrix entries are well formed: sixteen of them, each within
/// the [`MAT_MAX`] bound that keeps products representable.
pub open spec fn mat_wf(m: Seq<int>) -> bool {
    &&& m.len() == 16
    &&& forall|i: int| 0 <= i < 16 ==> -MAT_MAX <= #[trigger] m[i] <= MAT_MAX
}

/// A 4x4 matrix of raw fixed-point entries, column-major.
#[derive(Clone, Copy, Debug, PartialEq, Eq)]
pub struct Mat4 {
    pub e: [i64; 16],
}

impl Mat4 {
    /// The raw entries, as mathematical integers.
    pub open spec fn m(&self) -> Seq<int> {
        Seq::new(16, |i: int| self.e@[i] as int)
    }

    /// Well-formedness: every entry within the [`MAT_MAX`] bound.
    pub open spec fn wf(&self) -> bool {
        mat_wf(self.m())
    }

    /// The matrix with the given raw column-major entries.
    pub fn from_cols(e: [i64; 16]) -> (r: Mat4)
        ensures
            r.e@ == e@,
            forall|i: int| 0 <= i < 16 ==> r.m()[i] == e@[i],
    {
        let r = Mat4 { e };
        proof {
            assert(forall|i: int| 0 <= i < 16 ==> r.m()[i] == e@[i]);
        }
        r
    }

    /// The raw entry at row `r`, column `c`.
    pub fn entry(&self, r: usize, c: usize) -> (x: i64)
        requires
            r < 4,
            c < 4,
        ensures
            x as int == self.m()[c * 4 + r],
    {
        self.e[c * 4 + r]
    }

    /// The identity matrix.
    pub fn identity() -> (r: Mat4)
        ensures
            r.m() == mat_identity_v(),
            r.wf(),
    {
        let s: i64 = FX_SCALE;
        let r = Mat4 { e: [s, 0, 0, 0, 0, s, 0, 0, 0, 0, s, 0, 0, 0, 0, s] };
        proof {
            assert(r.m() =~= mat_identity_v());
        }
        r
    }

    /// The translation matrix moving the origin by `v`.
    pub fn translation(v: Vec3) -> (r: Mat4)
        ensures
            r.m() == mat_translation_v(v.x.raw as int, v.y.raw as int, v.z.raw as int),
            -MAT_MAX <= v.x.raw <= MAT_MAX && -MAT_MAX <= v.y.raw <= MAT_MAX && -MAT_MAX
                <= v.z.raw <= MAT_MAX ==> r.wf(),
    {
        let s: i64 = FX_SCALE;
        let r = Mat4 { e: [s, 0, 0, 0, 0, s, 0, 0, 0, 0, s, 0, v.x.raw, v.y.raw, v.z.raw, s] };
        proof {
            assert(r.m() =~= mat_translation_v(v.x.raw as int, v.y.raw as int, v.z.raw as int));
        }
        r
    }

    /// This matrix with its translation column reset to the origin.
    pub fn zero_translation(&self) -> (r: Mat4)
        ensures
            r.m() == mat_zero_translation_v(self.m()),
            self.wf() ==> r.wf(),
    {
        let mut e: [i64; 16] = self.e;
        e[12] = 0;
        e[13] = 0;
        e[14] = 0;
        e[15] = FX_SCALE;
        let r = Mat4 { e };
        proof {
            assert(r.m() =~= mat_zero_translation_v(self.m()));
        }
        r
    }

    /// The transpose of this matrix's 3x3 rotation block, with an identity
    /// translation column.
    pub fn transpose_rotation(&self) -> (r: Mat4)
        ensures
            r.m() == mat_transpose_rotation_v(self.m()),
            self.wf() ==> r.wf(),
    {
        let e: [i64; 16] = [
            self.e[0],
            self.e[4],
            self.e[8],
            0,
            self.e[1],
            self.e[5],
            self.e[9],
            0,
            self.e[2],
            self.e[6],
            self.e[10],
            0,
            0,
            0,
            0,
            FX_SCALE,
        ];
        let r = Mat4 { e };
        proof {
            assert(r.m() =~= mat_transpose_rotation_v(self.m()));
        }
        r
    }

    /// The matrix product `self * o`. Both factors must be well formed so
    /// that every entry of the product fits in an `i64`; the product itself
    /// is only well formed when its entries happen to stay within bounds,
    /// which callers state where they need it.
    pub fn mul(&self, o: &Mat4) -> (r: Mat4)
        requires
            self.wf(),
            o.wf(),
        ensures
            r.m() == mat_mul_v(self.m(), o.m()),
    {
        let mut e: [i64; 16] = [0; 16];
        let mut i: usize = 0;
        while i < 16
            invariant
                i <= 16,
                self.wf(),
                o.wf(),
                forall|j: int|
                    0 <= j < i ==> e@[j] == mat_mul_v(self.m(), o.m())[j],
            decreases 16 - i,
        {
            let r: usize = i % 4;
            let c: usize = i / 4;
            let x: i64 = mat_dot(self, o, r, c);
            proof {
                assert(c * 4 + r == i);
            }
            e[i] = x;
            i += 1;
        }
        let r = Mat4 { e };
        proof {
            assert(r.m() =~= mat_mul_v(self.m(), o.m()));
        }
        r
    }
}

/// Entry `(r, c)` of the product `a * o`: four raw products summed in 128-bit
/// arithmetic, then scaled back down.
fn mat_dot(a: &Mat4, b: &Mat4, r: usize, c: usize) -> (x: i64)
    requires
        r < 4,
        c < 4,
        a.wf(),
        b.wf(),
    ensures
        x as int == mat_mul_entry_v(a.m(), b.m(), r as int, c as int),
{
    proof {
        lemma_mat_product_term_bound(a.m()[0 * 4 + r], b.m()[c as int * 4 + 0]);
        lemma_mat_product_term_bound(a.m()[1 * 4 + r], b.m()[c as int * 4 + 1]);
        lemma_mat_product_term_bound(a.m()[2 * 4 + r], b.m()[c as int * 4 + 2]);
        lemma_mat_product_term_bound(a.m()[3 * 4 + r], b.m()[c as int * 4 + 3]);
    }
    let p0: i128 = (a.e[r] as i128) * (b.e[c * 4] as i128);
    let p1: i128 = (a.e[4 + r] as i128) * (b.e[c * 4 + 1] as i128);
    let p2: i128 = (a.e[8 + r] as i128) * (b.e[c * 4 + 2] as i128);
    let p3: i128 = (a.e[12 + r] as i128) * (b.e[c * 4 + 3] as i128);
    let s: i128 = p0 + p1 + p2 + p3;
    let q: i128 = crate::fixed::tdiv_i128(s, FX_SCALE as i128);
    proof {
        lemma_tdiv_bound(s as int, FX_SCALE as int, 4_000_000_000_000_000_000);
    }
    q as i64
}

/// A product of two entries within [`MAT_MAX`] is within `MAT_MAX * MAT_MAX`.
proof fn lemma_mat_product_term_bound(x: int, y: int)
    requires
        -MAT_MAX <= x <= MAT_MAX,
        -MAT_MAX <= y <= MAT_MAX,
    ensures
        -(MAT_MAX as int * MAT_MAX as int) <= x * y <= MAT_MAX as int * MAT_MAX as int,
{
    assert(-(MAT_MAX as int * MAT_MAX as int) <= x * y <= MAT_MAX as int * MAT_MAX as int)
        by (nonlinear_arith)
        requires
            -MAT_MAX <= x <= MAT_MAX,
            -MAT_MAX <= y <= MAT_MAX,
    ;
}

/// One off-diagonal entry of an axis-angle rotation: `(a * b) * t` with
/// `t = 1 - cos`, as the raw value of the nested fixed-point products.
pub open spec fn rot_term_v(a: int, b: int, t: int) -> int {
    fx_mul_v(fx_mul_v(a, b), t)
}

/// The rotation matrix about axis `(x, y, z)` whose angle has sine `s` and
/// cosine `c` (all raw values), by the axis-angle formula, as raw entries.
pub open spec fn rot_axis_angle_v(x: int, y: int, z: int, s: int, c: int) -> Seq<int> {
    let t = FX_SCALE as int - c;
    Seq::new(
        16,
        |i: int|
            if i == 0 {
                rot_term_v(x, x, t) + c
            } else if i == 1 {
                rot_term_v(x, y, t) + fx_mul_v(z, s)
            } else if i == 2 {
                rot_term_v(x, z, t) - fx_mul_v(y, s)
            } else if i == 4 {
                rot_term_v(x, y, t) - fx_mul_v(z, s)
            } else if i == 5 {
                rot_term_v(y, y, t) + c
            } else if i == 6 {
                rot_term_v(y, z, t) + fx_mul_v(x, s)
            } else if i == 8 {
                rot_term_v(x, z, t) + fx_mul_v(y, s)
            } else if i == 9 {
                rot_term_v(y, z, t) - fx_mul_v(x, s)
            } else if i == 10 {
                rot_term_v(z, z, t) + c
            } else if i == 15 {
                FX_SCALE as int
            } else {
                0
            },
    )
}

/// Raw magnitude bound under which an axis component or a sine/cosine is
/// accepted: two whole units, room enough for any unit axis and any sine or
/// cosine, rounded however the caller obtained them.
pub const ROT_IN_MAX: i64 = 2_000_000;

impl Mat4 {
    /// The rotation matrix about `axis` for the angle whose sine and cosine
    /// are supplied. The axis is expected to be a unit vector and the two
    /// scalars a sine/cosine pair; trigonometric evaluation itself lives
    /// outside the library.
    pub fn rotation(axis: Vec3, sin_angle: Fx, cos_angle: Fx) -> (r: Mat4)
        requires
            -ROT_IN_MAX <= axis.x.raw <= ROT_IN_MAX,
            -ROT_IN_MAX <= axis.y.raw <= ROT_IN_MAX,
            -ROT_IN_MAX <= axis.z.raw <= ROT_IN_MAX,
            -ROT_IN_MAX <= sin_angle.raw <= ROT_IN_MAX,
            -ROT_IN_MAX <= cos_angle.raw <= ROT_IN_MAX,
        ensures
            r.m() == rot_axis_angle_v(
                axis.x.raw as int,
                axis.y.raw as int,
                axis.z.raw as int,
                sin_angle.raw as int,
                cos_angle.raw as int,
            ),
            r.wf(),
    {
        let x = axis.x;
        let y = axis.y;
        let z = axis.z;
        let s = sin_angle;
        let c = cos_angle;
        proof {
            lemma_rotation_products(
                x.raw as int,
                y.raw as int,
                z.raw as int,
                s.raw as int,
                c.raw as int,
            );
        }
        let t = Fx::one().sub(c);
        let e00 = x.mul(x).mul(t).add(c);
        let e01 = x.mul(y).mul(t).add(z.mul(s));
        let e02 = x.mul(z).mul(t).sub(y.mul(s));
        let e10 = x.mul(y).mul(t).sub(z.mul(s));
        let e11 = y.mul(y).mul(t).add(c);
        let e12 = y.mul(z).mul(t).add(x.mul(s));
        let e20 = x.mul(z).mul(t).add(y.mul(s));
        let e21 = y.mul(z).mul(t).sub(x.mul(s));
        let e22 = z.mul(z).mul(t).add(c);
        let r = Mat4 {
            e: [
                e00.raw,
                e01.raw,
                e02.raw,
                0,
                e10.raw,
                e11.raw,
                e12.raw,
                0,
                e20.raw,
                e21.raw,
                e22.raw,
                0,
                0,
                0,
                0,
                FX_SCALE,
            ],
        };
        proof {
            assert(r.m() =~= rot_axis_angle_v(
                x.raw as int,
                y.raw as int,
                z.raw as int,
                s.raw as int,
                c.raw as int,
            ));
        }
        r
    }
}

/// Bounds for every product the axis-angle formula takes: with all five
/// inputs within [`ROT_IN_MAX`], every intermediate product stays within a
/// few dozen scalar units, far inside every machine bound.
proof fn lemma_rotation_products(x: int, y: int, z: int, s: int, c: int)
    requires
        -ROT_IN_MAX <= x <= ROT_IN_MAX,
        -ROT_IN_MAX <= y <= ROT_IN_MAX,
        -ROT_IN_MAX <= z <= ROT_IN_MAX,
        -ROT_IN_MAX <= s <= ROT_IN_MAX,
        -ROT_IN_MAX <= c <= ROT_IN_MAX,
    ensures
        forall|a: int, b: int|
            (-ROT_IN_MAX <= a <= ROT_IN_MAX && -ROT_IN_MAX <= b <= ROT_IN_MAX)
                ==> -4_000_000 <= #[trigger] fx_mul_v(a, b) <= 4_000_000,
        forall|p: int, t: int|
            (-4_000_000 <= p <= 4_000_000 && -3_000_000 <= t <= 3_000_000) ==> -12_000_000
                <= #[trigger] fx_mul_v(p, t) <= 12_000_000,
{
    assert forall|a: int, b: int|
        (-ROT_IN_MAX <= a <= ROT_IN_MAX && -ROT_IN_MAX <= b <= ROT_IN_MAX) implies -4_000_000
        <= #[trigger] fx_mul_v(a, b) <= 4_000_000 by {
        lemma_fx_mul_within(a, b, 2, 2);
    }
    assert forall|p: int, t: int|
        (-4_000_000 <= p <= 4_000_000 && -3_000_000 <= t <= 3_000_000) implies -12_000_000
        <= #[trigger] fx_mul_v(p, t) <= 12_000_000 by {
        lemma_fx_mul_within(p, t, 4, 3);
    }
}

/// Multiplying by the identity on the left leaves a matrix unchanged.
pub proof fn lemma_mul_identity_left(m: Seq<int>)
    requires
        m.len() == 16,
    ensures
        mat_mul_v(mat_identity_v(), m) == m,
{
    assert forall|i: int| 0 <= i < 16 implies mat_mul_v(mat_identity_v(), m)[i] == m[i] by {
        let r = i % 4;
        let c = i / 4;
        lemma_tdiv_exact(m[c * 4 + r], FX_SCALE as int);
    }
    assert(mat_mul_v(mat_identity_v(), m) =~= m);
}

/// Multiplying by the identity on the right leaves a matrix unchanged.
#[verifier::rlimit(50)]
pub proof fn lemma_mul_identity_right(m: Seq<int>)
    requires
        m.len() == 16,
    ensures
        mat_mul_v(m, mat_identity_v()) == m,
{
    assert forall|i: int| 0 <= i < 16 implies mat_mul_v(m, mat_identity_v())[i] == m[i] by {
        let r = i % 4;
        let c = i / 4;
        lemma_tdiv_exact(m[c * 4 + r], FX_SCALE as int);
    }
    assert(mat_mul_v(m, mat_identity_v()) =~= m);
}

} // verus!
