//! A verified core for a small real-time 3D rendering engine and scene
//! editor: GPU buffer and vertex-layout management, a shader program with a
//! uniform-location cache, mesh/submesh/material composition, an orbit
//! camera, a directional light, and a renderer that resolves per-submesh
//! shader/material fallbacks and emits an exact stream of GPU commands.
//!
//! All scalar quantities are fixed-point values ([`fixed::Fx`]); every GPU
//! interaction is recorded as a command in a [`context::GlContext`] so that
//! the unverified host can replay it against a real OpenGL driver.

pub mod algebra;
pub mod buffers;
pub mod camera;
pub mod context;
pub mod light;
pub mod material;
pub mod mesh;
pub mod objects;
pub mod primitives;
pub mod renderer;
pub mod resources;
pub mod scene;
pub mod fixed;
pub mod shader;
pub mod texture;
pub mod vertex;
