//! The capability traits the renderer draws through.
//!
//! The renderer is decoupled from the concrete camera and light: anything
//! exposing view and projection matrices can stand as a camera, and anything
//! exposing a direction, a color and two scalars as a light. Each trait
//! carries specification hooks so the renderer's contract can name exactly
//! what a draw call uploads.

use vstd::prelude::*;

use crate::algebra::{Mat4, Vec3};
use crate::fixed::Fx;

verus! {

/// A camera the renderer can draw through: a view matrix and a projection
/// matrix.
pub trait TCamera {
    /// The camera's own validity condition.
    spec fn inv(&self) -> bool;

    /// The view matrix, as raw entries.
    spec fn view_v(&self) -> Seq<int>;

    /// The projection matrix, as raw entries.
    spec fn proj_v(&self) -> Seq<int>;

    /// The view matrix.
    fn matrix(&self) -> (m: Mat4)
        requires
            self.inv(),
        ensures
            m.m() == self.view_v(),
    ;

    /// The projection matrix.
    fn projection_matrix(&self) -> (m: Mat4)
        requires
            self.inv(),
        ensures
            m.m() == self.proj_v(),
    ;
}

/// A directional light the renderer can draw with: a transform the
/// direction is derived from, a color, and the ambient/power scalars.
pub trait TLight {
    /// The light's own validity condition.
    spec fn inv(&self) -> bool;

    /// The transform matrix, as raw entries.
    spec fn matrix_v(&self) -> Seq<int>;

    /// The derived direction.
    spec fn direction_v(&self) -> Vec3;

    /// The color.
    spec fn color_v(&self) -> Vec3;

    /// The ambient strength.
    spec fn ambient_v(&self) -> Fx;

    /// The power.
    spec fn power_v(&self) -> Fx;

    /// Replace the color, leaving everything else as it is.
    fn set_color(&mut self, color: Vec3)
        ensures
            final(self).color_v() == color,
            final(self).inv() == old(self).inv(),
            final(self).matrix_v() == old(self).matrix_v(),
            final(self).direction_v() == old(self).direction_v(),
            final(self).ambient_v() == old(self).ambient_v(),
            final(self).power_v() == old(self).power_v(),
    ;

    /// Replace the ambient strength, leaving everything else as it is.
    fn set_ambient_strength(&mut self, ambient_strength: Fx)
        ensures
            final(self).ambient_v() == ambient_strength,
            final(self).inv() == old(self).inv(),
            final(self).matrix_v() == old(self).matrix_v(),
            final(self).direction_v() == old(self).direction_v(),
            final(self).color_v() == old(self).color_v(),
            final(self).power_v() == old(self).power_v(),
    ;

    /// Replace the power, leaving everything else as it is.
    fn set_power(&mut self, power: Fx)
        ensures
            final(self).power_v() == power,
            final(self).inv() == old(self).inv(),
            final(self).matrix_v() == old(self).matrix_v(),
            final(self).direction_v() == old(self).direction_v(),
            final(self).color_v() == old(self).color_v(),
            final(self).ambient_v() == old(self).ambient_v(),
    ;

    /// The transform matrix.
    fn matrix(&self) -> (m: Mat4)
        requires
            self.inv(),
        ensures
            m.m() == self.matrix_v(),
    ;

    /// The direction the light points in.
    fn direction(&self) -> (d: Vec3)
        requires
            self.inv(),
        ensures
            d == self.direction_v(),
    ;

    /// The color.
    fn color(&self) -> (c: Vec3)
        requires
            self.inv(),
        ensures
            c == self.color_v(),
    ;

    /// The ambient strength.
    fn ambient_strength(&self) -> (a: Fx)
        requires
            self.inv(),
        ensures
            a == self.ambient_v(),
    ;

    /// The power.
    fn power(&self) -> (p: Fx)
        requires
            self.inv(),
        ensures
            p == self.power_v(),
    ;
}

/// A camera standing still at given matrices: the stub implementation the
/// capability-trait design exists for, used where a test or a host needs a
/// camera with known matrices and no orbit state.
#[derive(Debug)]
pub struct MatrixCamera {
    /// The view matrix handed out.
    pub view: Mat4,
    /// The projection matrix handed out.
    pub projection: Mat4,
}

impl MatrixCamera {
    /// A camera answering with exactly the given matrices.
    pub fn new(view: Mat4, projection: Mat4) -> (c: MatrixCamera)
        ensures
            c.view == view,
            c.projection == projection,
    {
        MatrixCamera { view, projection }
    }
}

impl TCamera for MatrixCamera {
    open spec fn inv(&self) -> bool {
        true
    }

    open spec fn view_v(&self) -> Seq<int> {
        self.view.m()
    }

    open spec fn proj_v(&self) -> Seq<int> {
        self.projection.m()
    }

    fn matrix(&self) -> Mat4 {
        self.view
    }

    fn projection_matrix(&self) -> Mat4 {
        self.projection
    }
}

} // verus!
