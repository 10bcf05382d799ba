//! The scene: the camera and the directional light a frame is drawn with.
//!
//! Importing model files needs the file system and an OBJ parser and lives
//! outside the library; the host converts what the parser yields into plain
//! vertex and index arrays and builds meshes through
//! [`crate::mesh::SubMesh::new`].

use vstd::prelude::*;

use crate::camera::Camera;
use crate::light::Light;

verus! {

/// A scene: one camera and one directional light.
#[derive(Debug)]
pub struct Scene {
    camera: Camera,
    light: Light,
}

impl Scene {
    /// The camera, as a specification value.
    pub closed spec fn camera_spec(&self) -> Camera {
        self.camera
    }

    /// The light, as a specification value.
    pub closed spec fn light_spec(&self) -> Light {
        self.light
    }

    /// A scene of the given camera and light.
    pub fn new(camera: Camera, light: Light) -> (s: Scene)
        ensures
            s.camera_spec() == camera,
            s.light_spec() == light,
    {
        Scene { camera, light }
    }

    /// The camera.
    pub fn camera(&self) -> (c: &Camera)
        ensures
            *c == self.camera_spec(),
    {
        &self.camera
    }

    /// The camera, for mutation.
    pub fn camera_mut(&mut self) -> (c: &mut Camera)
        ensures
            *c == old(self).camera_spec(),
            final(self).camera_spec() == *final(c),
            final(self).light_spec() == old(self).light_spec(),
    {
        &mut self.camera
    }

    /// The light.
    pub fn light(&self) -> (l: &Light)
        ensures
            *l == self.light_spec(),
    {
        &self.light
    }

    /// The light, for mutation.
    pub fn light_mut(&mut self) -> (l: &mut Light)
        ensures
            *l == old(self).light_spec(),
            final(self).light_spec() == *final(l),
            final(self).camera_spec() == old(self).camera_spec(),
    {
        &mut self.light
    }
}

} // verus!
