//! The directional light.
//!
//! The direction is derived from the light's transform, never stored: it is
//! the transform applied to the unit Z vector, which for a column-major
//! matrix is its third column.

use vstd::prelude::*;

use crate::algebra::{mat_identity_v, Mat4, Vec3};
use crate::fixed::{Fx, FX_SCALE};
use crate::objects::TLight;

verus! {

/// The direction a transform sends the unit Z vector to: the third column
/// of its rotation block.
pub open spec fn light_direction_v(m: Seq<int>) -> Vec3 {
    Vec3 {
        x: Fx { raw: m[8] as i64 },
        y: Fx { raw: m[9] as i64 },
        z: Fx { raw: m[10] as i64 },
    }
}

/// A directional light: a transform its direction is derived from, a
/// color, an ambient strength and a power.
#[derive(Debug)]
pub struct Light {
    matrix: Mat4,
    color: Vec3,
    ambient_strength: Fx,
    power: Fx,
}

impl Light {
    /// A white light of ambient strength 0.25 and power 1, pointing along
    /// the identity transform's Z axis.
    pub fn new() -> (l: Light)
        ensures
            l.matrix_v() == mat_identity_v(),
            l.color_v() == (Vec3 {
                x: Fx { raw: FX_SCALE },
                y: Fx { raw: FX_SCALE },
                z: Fx { raw: FX_SCALE },
            }),
            l.ambient_v().raw == 250_000,
            l.power_v().raw == FX_SCALE,
            l.inv(),
    {
        Light {
            matrix: Mat4::identity(),
            color: Vec3 {
                x: Fx { raw: FX_SCALE },
                y: Fx { raw: FX_SCALE },
                z: Fx { raw: FX_SCALE },
            },
            ambient_strength: Fx { raw: 250_000 },
            power: Fx { raw: FX_SCALE },
        }
    }

    /// Replace the transform the direction is derived from.
    pub fn set_matrix(&mut self, matrix: Mat4)
        ensures
            final(self).matrix_v() == matrix.m(),
            final(self).direction_v() == light_direction_v(matrix.m()),
            final(self).color_v() == old(self).color_v(),
            final(self).ambient_v() == old(self).ambient_v(),
            final(self).power_v() == old(self).power_v(),
            final(self).inv(),
    {
        self.matrix = matrix;
    }
}

impl TLight for Light {
    open spec fn inv(&self) -> bool {
        true
    }

    closed spec fn matrix_v(&self) -> Seq<int> {
        self.matrix.m()
    }

    open spec fn direction_v(&self) -> Vec3 {
        light_direction_v(self.matrix_v())
    }

    closed spec fn color_v(&self) -> Vec3 {
        self.color
    }

    closed spec fn ambient_v(&self) -> Fx {
        self.ambient_strength
    }

    closed spec fn power_v(&self) -> Fx {
        self.power
    }

    fn set_color(&mut self, color: Vec3) {
        self.color = color;
    }

    fn set_ambient_strength(&mut self, ambient_strength: Fx) {
        self.ambient_strength = ambient_strength;
    }

    fn set_power(&mut self, power: Fx) {
        self.power = power;
    }

    fn matrix(&self) -> Mat4 {
        self.matrix
    }

    fn direction(&self) -> Vec3 {
        Vec3 {
            x: Fx { raw: self.matrix.entry(0, 2) },
            y: Fx { raw: self.matrix.entry(1, 2) },
            z: Fx { raw: self.matrix.entry(2, 2) },
        }
    }

    fn color(&self) -> Vec3 {
        self.color
    }

    fn ambient_strength(&self) -> Fx {
        self.ambient_strength
    }

    fn power(&self) -> Fx {
        self.power
    }
}

} // verus!
