//! The orbit camera.
//!
//! The camera composes transform matrices rather than storing angles: the
//! local matrix accumulates zoom (a camera-local Z translation), the target
//! matrix accumulates orbit rotation and pan, and the view matrix is their
//! product `local * target`. The scalar `distance` tracks the orbit radius,
//! clamped to a minimum of 0.01, and scales zoom and pan sensitivity.
//!
//! Trigonometric evaluation lives outside the library: rotation takes the
//! angle's sine and cosine, and the projection uses a stored tangent of
//! half the field of view, both supplied by the caller.

use vstd::prelude::*;

use crate::algebra::{mat_mul_v, mat_transpose_rotation_v, mat_translation_v,
    mat_zero_translation_v, mat_wf, rot_axis_angle_v, Mat4, Vec3, MAT_MAX, ROT_IN_MAX};
use crate::fixed::{fx_div_v, fx_mul_v, Fx, FX_SCALE};
use crate::objects::TCamera;

verus! {

/// The smallest raw orbit distance: 0.01 scalar units.
pub const MIN_DISTANCE: i64 = 10_000;

/// The raw value `amount * distance * 0.1` that zoom and pan scale their
/// input by, in the order the arithmetic performs it.
pub open spec fn zoom_compensated_v(amount: int, distance: int) -> int {
    fx_mul_v(fx_mul_v(amount, distance), 100_000)
}

/// The orbit distance after a zoom: `|distance - compensated|`, clamped to
/// [`MIN_DISTANCE`].
pub open spec fn zoom_distance_v(amount: int, distance: int) -> int {
    let c = zoom_compensated_v(amount, distance);
    let d = distance - c;
    let a = if d >= 0 {
        d
    } else {
        -d
    };
    if a >= MIN_DISTANCE {
        a
    } else {
        MIN_DISTANCE as int
    }
}

/// The local matrix after a zoom: the camera-local Z translation by the
/// compensated amount, composed on the local side.
pub open spec fn zoom_local_v(local: Seq<int>, amount: int, distance: int) -> Seq<int> {
    mat_mul_v(local, mat_translation_v(0, 0, zoom_compensated_v(amount, distance)))
}

/// The target matrix after a rotation: yaw about the world Y axis composes
/// on the right (world-relative), any other axis on the left (local).
pub open spec fn rotate_target_v(
    target: Seq<int>,
    axis: Vec3,
    sin_angle: int,
    cos_angle: int,
) -> Seq<int> {
    let r = rot_axis_angle_v(
        axis.x.raw as int,
        axis.y.raw as int,
        axis.z.raw as int,
        sin_angle,
        cos_angle,
    );
    if axis.is_unit_y() {
        mat_mul_v(target, r)
    } else {
        mat_mul_v(r, target)
    }
}

/// One pan offset component: the input scaled by `distance * 0.1`.
pub open spec fn pan_offset_v(input: int, distance: int) -> int {
    fx_mul_v(input, fx_mul_v(distance, 100_000))
}

/// The conjugated pan translation: the translation by the pan offsets,
/// conjugated by the current orientation (the target's rotation block), so
/// panning moves along the camera's current view plane.
pub open spec fn pan_conjugate_v(target: Seq<int>, px: int, py: int) -> Seq<int> {
    mat_mul_v(
        mat_mul_v(mat_transpose_rotation_v(target), mat_translation_v(px, py, 0)),
        mat_zero_translation_v(target),
    )
}

/// The target matrix after a pan: the conjugated translation multiplied in
/// from the left.
pub open spec fn pan_target_v(target: Seq<int>, px: int, py: int) -> Seq<int> {
    mat_mul_v(pan_conjugate_v(target, px, py), target)
}

/// The perspective projection matrix from the tangent of half the field of
/// view, the aspect ratio, and the clip distances (all raw values), in the
/// order the arithmetic performs it.
pub open spec fn projection_v(tan_half_fov: int, aspect: int, near: int, far: int) -> Seq<int> {
    let f = fx_div_v(FX_SCALE as int, tan_half_fov);
    let m0 = fx_div_v(f, aspect);
    let den = near - far;
    let m10 = fx_div_v(far + near, den);
    let m14 = fx_div_v(fx_mul_v(2 * FX_SCALE, fx_mul_v(far, near)), den);
    Seq::new(
        16,
        |i: int|
            if i == 0 {
                m0
            } else if i == 5 {
                f
            } else if i == 10 {
                m10
            } else if i == 11 {
                -(FX_SCALE as int)
            } else if i == 14 {
                m14
            } else {
                0
            },
    )
}

/// The orbit camera's state: projection parameters, the two composed
/// transform matrices, and the clamped orbit distance.
#[derive(Debug)]
pub struct Camera {
    fov: Fx,
    tan_half_fov: Fx,
    near_clip: Fx,
    far_clip: Fx,
    aspect: Fx,
    local_matrix: Mat4,
    target_matrix: Mat4,
    distance: Fx,
}

impl Camera {
    /// The field of view, in radians, as a raw value.
    pub closed spec fn fov_spec(&self) -> int {
        self.fov.raw as int
    }

    /// The tangent of half the field of view, as a raw value.
    pub closed spec fn tan_half_fov_spec(&self) -> int {
        self.tan_half_fov.raw as int
    }

    /// The near clip distance, as a raw value.
    pub closed spec fn near_clip_spec(&self) -> int {
        self.near_clip.raw as int
    }

    /// The far clip distance, as a raw value.
    pub closed spec fn far_clip_spec(&self) -> int {
        self.far_clip.raw as int
    }

    /// The aspect ratio, as a raw value.
    pub closed spec fn aspect_spec(&self) -> int {
        self.aspect.raw as int
    }

    /// The local (zoom) matrix, as raw entries.
    pub closed spec fn local_v(&self) -> Seq<int> {
        self.local_matrix.m()
    }

    /// The target (orbit and pan) matrix, as raw entries.
    pub closed spec fn target_v(&self) -> Seq<int> {
        self.target_matrix.m()
    }

    /// The orbit distance, as a raw value.
    pub closed spec fn distance_spec(&self) -> int {
        self.distance.raw as int
    }

    /// Whether the projection parameters keep every projection entry
    /// representable: the tangent and the aspect away from zero and
    /// bounded, the clip planes ordered and at least one unit apart.
    pub open spec fn projection_params_ok(
        tan_half_fov: int,
        aspect: int,
        near: int,
        far: int,
    ) -> bool {
        &&& 100 <= tan_half_fov <= 10_000_000_000
        &&& 1_000 <= aspect <= 1_000_000_000
        &&& 1 <= near
        &&& near < far <= MAT_MAX
        &&& far - near >= FX_SCALE
    }

    /// The camera's invariant: well-formed matrices, a clamped bounded
    /// distance, and projection parameters in range.
    pub open spec fn wf(&self) -> bool {
        &&& mat_wf(self.local_v())
        &&& mat_wf(self.target_v())
        &&& MIN_DISTANCE <= self.distance_spec() <= MAT_MAX
        &&& Self::projection_params_ok(
            self.tan_half_fov_spec(),
            self.aspect_spec(),
            self.near_clip_spec(),
            self.far_clip_spec(),
        )
    }

    /// A camera with the given projection parameters, both matrices at the
    /// identity and the distance at one unit, pulled back by an initial
    /// zoom of -3.
    pub fn new(fov: Fx, tan_half_fov: Fx, near_clip: Fx, far_clip: Fx, aspect: Fx) -> (c: Camera)
        requires
            Camera::projection_params_ok(
                tan_half_fov.raw as int,
                aspect.raw as int,
                near_clip.raw as int,
                far_clip.raw as int,
            ),
        ensures
            c.fov_spec() == fov.raw,
            c.tan_half_fov_spec() == tan_half_fov.raw,
            c.near_clip_spec() == near_clip.raw,
            c.far_clip_spec() == far_clip.raw,
            c.aspect_spec() == aspect.raw,
            c.target_v() == crate::algebra::mat_identity_v(),
            c.local_v() == mat_translation_v(0, 0, -300_000),
            c.distance_spec() == 1_300_000,
            c.wf(),
    {
        let mut c = Camera {
            fov,
            tan_half_fov,
            near_clip,
            far_clip,
            aspect,
            local_matrix: Mat4::identity(),
            target_matrix: Mat4::identity(),
            distance: Fx { raw: FX_SCALE },
        };
        proof {
            assert(zoom_compensated_v(-3 * FX_SCALE, FX_SCALE as int) == -300_000);
            assert(mat_wf(mat_translation_v(0, 0, -300_000)));
            crate::algebra::lemma_mul_identity_left(mat_translation_v(0, 0, -300_000));
        }
        c.zoom(Fx { raw: -3 * FX_SCALE });
        c
    }

    /// Zoom by `amount`: translate the local matrix along its Z axis by
    /// `amount * distance * 0.1`, and move the distance by the same step,
    /// clamped to [`MIN_DISTANCE`]. Repeated zooms of any size never drive
    /// the distance below the clamp.
    pub fn zoom(&mut self, amount: Fx)
        requires
            old(self).wf(),
            -MAT_MAX <= amount.raw <= MAT_MAX,
            zoom_distance_v(amount.raw as int, old(self).distance_spec()) <= MAT_MAX,
            -MAT_MAX <= zoom_compensated_v(amount.raw as int, old(self).distance_spec())
                <= MAT_MAX,
            mat_wf(
                zoom_local_v(old(self).local_v(), amount.raw as int, old(self).distance_spec()),
            ),
        ensures
            final(self).local_v() == zoom_local_v(
                old(self).local_v(),
                amount.raw as int,
                old(self).distance_spec(),
            ),
            final(self).distance_spec() == zoom_distance_v(
                amount.raw as int,
                old(self).distance_spec(),
            ),
            final(self).distance_spec() >= MIN_DISTANCE,
            final(self).target_v() == old(self).target_v(),
            final(self).fov_spec() == old(self).fov_spec(),
            final(self).tan_half_fov_spec() == old(self).tan_half_fov_spec(),
            final(self).near_clip_spec() == old(self).near_clip_spec(),
            final(self).far_clip_spec() == old(self).far_clip_spec(),
            final(self).aspect_spec() == old(self).aspect_spec(),
            final(self).wf(),
    {
        proof {
            crate::fixed::lemma_fx_mul_within(
                amount.raw as int,
                self.distance.raw as int,
                1_000_000,
                1_000_000,
            );
            crate::fixed::lemma_fx_mul_within(
                fx_mul_v(amount.raw as int, self.distance.raw as int),
                100_000,
                1_000_000_000_000,
                1,
            );
        }
        let compensated = amount.mul(self.distance).mul(Fx { raw: 100_000 });
        let translation = Mat4::translation(
            Vec3 { x: Fx { raw: 0 }, y: Fx { raw: 0 }, z: compensated },
        );
        self.local_matrix = self.local_matrix.mul(&translation);
        self.distance = self.distance.sub(compensated).abs().max(Fx { raw: MIN_DISTANCE });
    }

    /// Rotate the orbit by the angle whose sine and cosine are supplied,
    /// about `axis`: yaw about the world Y axis composes on the right of
    /// the target matrix, any other axis on the left.
    pub fn rotate(&mut self, axis: Vec3, sin_angle: Fx, cos_angle: Fx)
        requires
            old(self).wf(),
            -ROT_IN_MAX <= axis.x.raw <= ROT_IN_MAX,
            -ROT_IN_MAX <= axis.y.raw <= ROT_IN_MAX,
            -ROT_IN_MAX <= axis.z.raw <= ROT_IN_MAX,
            -ROT_IN_MAX <= sin_angle.raw <= ROT_IN_MAX,
            -ROT_IN_MAX <= cos_angle.raw <= ROT_IN_MAX,
            mat_wf(
                rotate_target_v(
                    old(self).target_v(),
                    axis,
                    sin_angle.raw as int,
                    cos_angle.raw as int,
                ),
            ),
        ensures
            final(self).target_v() == rotate_target_v(
                old(self).target_v(),
                axis,
                sin_angle.raw as int,
                cos_angle.raw as int,
            ),
            final(self).local_v() == old(self).local_v(),
            final(self).distance_spec() == old(self).distance_spec(),
            final(self).fov_spec() == old(self).fov_spec(),
            final(self).tan_half_fov_spec() == old(self).tan_half_fov_spec(),
            final(self).near_clip_spec() == old(self).near_clip_spec(),
            final(self).far_clip_spec() == old(self).far_clip_spec(),
            final(self).aspect_spec() == old(self).aspect_spec(),
            final(self).wf(),
    {
        let rotation = Mat4::rotation(axis, sin_angle, cos_angle);
        let yaw = axis.x.raw == 0 && axis.y.raw == FX_SCALE && axis.z.raw == 0;
        if yaw {
            self.target_matrix = self.target_matrix.mul(&rotation);
        } else {
            self.target_matrix = rotation.mul(&self.target_matrix);
        }
    }

    /// Pan by `(x, y)`: build a translation by the inputs scaled with
    /// `distance * 0.1` and the Y input negated (screen convention),
    /// conjugate it by the current orientation so the motion follows the
    /// view plane, and multiply it into the target matrix from the left.
    pub fn pan(&mut self, x: Fx, y: Fx)
        requires
            old(self).wf(),
            -MAT_MAX <= x.raw <= MAT_MAX,
            -MAT_MAX <= y.raw <= MAT_MAX,
            -MAT_MAX <= pan_offset_v(x.raw as int, old(self).distance_spec()) <= MAT_MAX,
            -MAT_MAX <= pan_offset_v(-x.raw as int, old(self).distance_spec()) <= MAT_MAX,
            -MAT_MAX <= pan_offset_v(-y.raw as int, old(self).distance_spec()) <= MAT_MAX,
            mat_wf(
                mat_mul_v(
                    mat_transpose_rotation_v(old(self).target_v()),
                    mat_translation_v(
                        pan_offset_v(x.raw as int, old(self).distance_spec()),
                        pan_offset_v(-y.raw as int, old(self).distance_spec()),
                        0,
                    ),
                ),
            ),
            mat_wf(
                pan_conjugate_v(
                    old(self).target_v(),
                    pan_offset_v(x.raw as int, old(self).distance_spec()),
                    pan_offset_v(-y.raw as int, old(self).distance_spec()),
                ),
            ),
            mat_wf(
                pan_target_v(
                    old(self).target_v(),
                    pan_offset_v(x.raw as int, old(self).distance_spec()),
                    pan_offset_v(-y.raw as int, old(self).distance_spec()),
                ),
            ),
        ensures
            final(self).target_v() == pan_target_v(
                old(self).target_v(),
                pan_offset_v(x.raw as int, old(self).distance_spec()),
                pan_offset_v(-y.raw as int, old(self).distance_spec()),
            ),
            final(self).local_v() == old(self).local_v(),
            final(self).distance_spec() == old(self).distance_spec(),
            final(self).fov_spec() == old(self).fov_spec(),
            final(self).tan_half_fov_spec() == old(self).tan_half_fov_spec(),
            final(self).near_clip_spec() == old(self).near_clip_spec(),
            final(self).far_clip_spec() == old(self).far_clip_spec(),
            final(self).aspect_spec() == old(self).aspect_spec(),
            final(self).wf(),
    {
        proof {
            crate::fixed::lemma_fx_mul_within(
                self.distance.raw as int,
                100_000,
                1_000_000,
                1,
            );
            crate::fixed::lemma_fx_mul_within(
                x.raw as int,
                fx_mul_v(self.distance.raw as int, 100_000),
                1_000_000,
                1_000_000,
            );
            crate::fixed::lemma_fx_mul_within(
                -y.raw as int,
                fx_mul_v(self.distance.raw as int, 100_000),
                1_000_000,
                1_000_000,
            );
        }
        let factor = self.distance.mul(Fx { raw: 100_000 });
        let px = x.mul(factor);
        let py = y.neg().mul(factor);
        let translation = Mat4::translation(Vec3 { x: px, y: py, z: Fx { raw: 0 } });
        let orientation = self.target_matrix.zero_translation();
        let orientation_inverse = self.target_matrix.transpose_rotation();
        let conjugate = orientation_inverse.mul(&translation).mul(&orientation);
        self.target_matrix = conjugate.mul(&self.target_matrix);
    }

    /// Recenter the orbit pivot: reset the target matrix's translation
    /// column to the origin.
    pub fn focus(&mut self)
        ensures
            final(self).target_v() == mat_zero_translation_v(old(self).target_v()),
            final(self).local_v() == old(self).local_v(),
            final(self).distance_spec() == old(self).distance_spec(),
            final(self).fov_spec() == old(self).fov_spec(),
            final(self).tan_half_fov_spec() == old(self).tan_half_fov_spec(),
            final(self).near_clip_spec() == old(self).near_clip_spec(),
            final(self).far_clip_spec() == old(self).far_clip_spec(),
            final(self).aspect_spec() == old(self).aspect_spec(),
            old(self).wf() ==> final(self).wf(),
    {
        self.target_matrix = self.target_matrix.zero_translation();
    }

    /// Replace the field of view, with the caller-evaluated tangent of its
    /// half.
    pub fn set_fov(&mut self, fov: Fx, tan_half_fov: Fx)
        requires
            old(self).wf(),
            100 <= tan_half_fov.raw <= 10_000_000_000,
        ensures
            final(self).fov_spec() == fov.raw,
            final(self).tan_half_fov_spec() == tan_half_fov.raw,
            final(self).near_clip_spec() == old(self).near_clip_spec(),
            final(self).far_clip_spec() == old(self).far_clip_spec(),
            final(self).aspect_spec() == old(self).aspect_spec(),
            final(self).local_v() == old(self).local_v(),
            final(self).target_v() == old(self).target_v(),
            final(self).distance_spec() == old(self).distance_spec(),
            final(self).wf(),
    {
        self.fov = fov;
        self.tan_half_fov = tan_half_fov;
    }

    /// Replace the aspect ratio.
    pub fn set_aspect_ratio(&mut self, aspect: Fx)
        requires
            old(self).wf(),
            1_000 <= aspect.raw <= 1_000_000_000,
        ensures
            final(self).aspect_spec() == aspect.raw,
            final(self).fov_spec() == old(self).fov_spec(),
            final(self).tan_half_fov_spec() == old(self).tan_half_fov_spec(),
            final(self).near_clip_spec() == old(self).near_clip_spec(),
            final(self).far_clip_spec() == old(self).far_clip_spec(),
            final(self).local_v() == old(self).local_v(),
            final(self).target_v() == old(self).target_v(),
            final(self).distance_spec() == old(self).distance_spec(),
            final(self).wf(),
    {
        self.aspect = aspect;
    }

    /// The field of view, in radians.
    pub fn fov(&self) -> (f: Fx)
        ensures
            f.raw == self.fov_spec(),
    {
        self.fov
    }

    /// The orbit distance.
    pub fn distance(&self) -> (d: Fx)
        ensures
            d.raw == self.distance_spec(),
    {
        self.distance
    }

    /// The local (zoom) matrix.
    pub fn local_matrix(&self) -> (m: Mat4)
        ensures
            m.m() == self.local_v(),
    {
        self.local_matrix
    }

    /// The target (orbit and pan) matrix.
    pub fn target_matrix(&self) -> (m: Mat4)
        ensures
            m.m() == self.target_v(),
    {
        self.target_matrix
    }

    /// The view matrix: `local * target`.
    pub fn view_matrix(&self) -> (m: Mat4)
        requires
            self.wf(),
        ensures
            m.m() == mat_mul_v(self.local_v(), self.target_v()),
    {
        self.local_matrix.mul(&self.target_matrix)
    }
}

impl TCamera for Camera {
    open spec fn inv(&self) -> bool {
        self.wf()
    }

    open spec fn view_v(&self) -> Seq<int> {
        mat_mul_v(self.local_v(), self.target_v())
    }

    open spec fn proj_v(&self) -> Seq<int> {
        projection_v(
            self.tan_half_fov_spec(),
            self.aspect_spec(),
            self.near_clip_spec(),
            self.far_clip_spec(),
        )
    }

    fn matrix(&self) -> Mat4 {
        self.view_matrix()
    }

    fn projection_matrix(&self) -> Mat4 {
        proof {
            lemma_projection_fits(
                self.tan_half_fov_spec(),
                self.aspect_spec(),
                self.near_clip_spec(),
                self.far_clip_spec(),
            );
        }
        let f = Fx { raw: FX_SCALE }.div(self.tan_half_fov);
        let m0 = f.div(self.aspect);
        let den = self.near_clip.sub(self.far_clip);
        let m10 = self.far_clip.add(self.near_clip).div(den);
        let m14 = Fx { raw: 2 * FX_SCALE }.mul(self.far_clip.mul(self.near_clip)).div(den);
        let r = Mat4 {
            e: [
                m0.raw,
                0,
                0,
                0,
                0,
                f.raw,
                0,
                0,
                0,
                0,
                m10.raw,
                -FX_SCALE,
                0,
                0,
                m14.raw,
                0,
            ],
        };
        proof {
            assert(r.m() =~= projection_v(
                self.tan_half_fov_spec(),
                self.aspect_spec(),
                self.near_clip_spec(),
                self.far_clip_spec(),
            ));
        }
        r
    }
}

/// However large a zoom step is, and whatever its direction, the orbit
/// distance that comes out of it never falls below the 0.01 clamp; since
/// every zoom goes through this formula, no sequence of zooms can drive
/// the distance below the clamp either.
pub proof fn lemma_zoom_distance_floor(amount: int, distance: int)
    ensures
        zoom_distance_v(amount, distance) >= MIN_DISTANCE,
{
}

/// Yaw composition: rotating about the world Y axis from the identity
/// orientation leaves the target matrix at exactly `identity * rotation`,
/// which is the rotation itself — yaw composes on the world (right) side,
/// so from the identity the rotation is taken unchanged.
pub proof fn lemma_yaw_from_identity(axis: Vec3, sin_angle: int, cos_angle: int)
    requires
        axis.is_unit_y(),
    ensures
        rotate_target_v(crate::algebra::mat_identity_v(), axis, sin_angle, cos_angle)
            == mat_mul_v(
            crate::algebra::mat_identity_v(),
            rot_axis_angle_v(
                axis.x.raw as int,
                axis.y.raw as int,
                axis.z.raw as int,
                sin_angle,
                cos_angle,
            ),
        ),
        rotate_target_v(crate::algebra::mat_identity_v(), axis, sin_angle, cos_angle)
            == rot_axis_angle_v(
            axis.x.raw as int,
            axis.y.raw as int,
            axis.z.raw as int,
            sin_angle,
            cos_angle,
        ),
{
    let r = rot_axis_angle_v(
        axis.x.raw as int,
        axis.y.raw as int,
        axis.z.raw as int,
        sin_angle,
        cos_angle,
    );
    crate::algebra::lemma_mul_identity_right(r);
    crate::algebra::lemma_mul_identity_left(r);
}

/// With the projection parameters in range, every quantity the projection
/// computes fits its machine type.
proof fn lemma_projection_fits(tan: int, aspect: int, near: int, far: int)
    requires
        Camera::projection_params_ok(tan, aspect, near, far),
    ensures
        -9_000_000_000_000_000_000 <= fx_div_v(FX_SCALE as int, tan)
            <= 9_000_000_000_000_000_000,
        -9_000_000_000_000_000_000 <= fx_div_v(fx_div_v(FX_SCALE as int, tan), aspect)
            <= 9_000_000_000_000_000_000,
        -9_000_000_000_000_000_000 <= fx_div_v(far + near, near - far)
            <= 9_000_000_000_000_000_000,
        -9_000_000_000_000_000_000 <= fx_mul_v(far, near) <= 9_000_000_000_000_000_000,
        -9_000_000_000_000_000_000 <= fx_mul_v(2 * FX_SCALE, fx_mul_v(far, near))
            <= 9_000_000_000_000_000_000,
        -9_000_000_000_000_000_000 <= fx_div_v(
            fx_mul_v(2 * FX_SCALE, fx_mul_v(far, near)),
            near - far,
        ) <= 9_000_000_000_000_000_000,
{
    let s = FX_SCALE as int;
    crate::fixed::lemma_tdiv_bound_divisor(s * s, tan, 100, 10_000_000_000);
    let f = fx_div_v(s, tan);
    crate::fixed::lemma_tdiv_bound_divisor(f * s, aspect, 1_000, 10_000_000_000_000_000);
    crate::fixed::lemma_tdiv_bound_divisor(
        (far + near) * s,
        near - far,
        s,
        2_000_000_000_000_000_000,
    );
    crate::fixed::lemma_fx_mul_within(far, near, 1_000_000, 1_000_000);
    crate::fixed::lemma_fx_mul_within(2 * s, fx_mul_v(far, near), 2, 1_000_000_000_000);
    crate::fixed::lemma_tdiv_bound_divisor(
        fx_mul_v(2 * s, fx_mul_v(far, near)) * s,
        near - far,
        s,
        2_000_000_000_000_000_000,
    );
}

} // verus!
