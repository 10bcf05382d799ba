//! Materials: a named diffuse color with an optional diffuse texture.
//!
//! Material state reaches the GPU only through a bound shader:
//! [`Material::send_to_shader`] uploads the diffuse color, then either binds
//! the texture to unit 0 and raises the texture-enable uniform or lowers it,
//! so the fragment stage can branch.

use vstd::prelude::*;

use crate::algebra::Vec3;
use crate::context::{GlContext, GpuCall};
use crate::shader::{cache_after_v, query_calls_v, uniform_slot_v, ShaderProgram};
use crate::texture::Texture;

verus! {

/// The cache a program holds after a material was sent to it: the two
/// material uniform names resolved.
pub open spec fn material_cache_after_v(cache: Seq<Seq<char>>) -> Seq<Seq<char>> {
    cache_after_v(cache_after_v(cache, "material.diffuse"@), "material.use_diffuse_texture"@)
}

/// The commands sending a material to a program records: the diffuse color
/// upload, then — with a texture — the unit-0 bind and a raised
/// texture-enable uniform, or without one a lowered texture-enable uniform.
pub open spec fn material_calls_v(
    program: u32,
    cache: Seq<Seq<char>>,
    x: int,
    y: int,
    z: int,
    tex: Option<u32>,
) -> Seq<GpuCall> {
    let q1 = query_calls_v(program, cache, "material.diffuse"@);
    let s1 = uniform_slot_v(cache, "material.diffuse"@);
    let cache1 = cache_after_v(cache, "material.diffuse"@);
    let q2 = query_calls_v(program, cache1, "material.use_diffuse_texture"@);
    let s2 = uniform_slot_v(cache1, "material.use_diffuse_texture"@);
    let head = q1 + seq![
        GpuCall::UploadVector3 { program, slot: s1 as usize, x, y, z },
    ];
    match tex {
        Some(t) => head + seq![GpuCall::BindTexture { unit: 0, id: t }] + q2 + seq![
            GpuCall::UploadBool { program, slot: s2 as usize, value: true },
        ],
        None => head + q2 + seq![
            GpuCall::UploadBool { program, slot: s2 as usize, value: false },
        ],
    }
}

/// A material: a diffuse color and, optionally, a diffuse texture. Shared
/// across submeshes by index into the mesh's material list, never copied.
#[derive(Debug)]
pub struct Material {
    diffuse: Vec3,
    diffuse_texture: Option<Texture>,
}

impl Material {
    /// The diffuse color.
    pub closed spec fn diffuse_spec(&self) -> Vec3 {
        self.diffuse
    }

    /// The handle of the diffuse texture, if any.
    pub closed spec fn texture_handle(&self) -> Option<u32> {
        match self.diffuse_texture {
            Some(ref t) => Some(t.handle()),
            None => None,
        }
    }

    /// A material with the given diffuse color and optional texture.
    pub fn new(diffuse: Vec3, diffuse_texture: Option<Texture>) -> (m: Material)
        ensures
            m.diffuse_spec() == diffuse,
            m.texture_handle() == (match diffuse_texture {
                Some(ref t) => Some(t.handle()),
                None => None::<u32>,
            }),
    {
        Material { diffuse, diffuse_texture }
    }

    /// The diffuse color.
    pub fn diffuse(&self) -> (d: Vec3)
        ensures
            d == self.diffuse_spec(),
    {
        self.diffuse
    }

    /// Push this material into the bound shader's uniform state: upload the
    /// diffuse color; then bind the texture to unit 0 and raise the
    /// texture-enable uniform if there is one, else lower it.
    pub fn send_to_shader(&self, ctx: &mut GlContext, shader: &mut ShaderProgram)
        requires
            old(shader).cache_v().len() + 2 <= usize::MAX,
        ensures
            final(shader).cache_v() == material_cache_after_v(old(shader).cache_v()),
            final(shader).handle() == old(shader).handle(),
            final(shader).texture_handle() == old(shader).texture_handle(),
            final(ctx).calls() == old(ctx).calls() + material_calls_v(
                old(shader).handle(),
                old(shader).cache_v(),
                self.diffuse_spec().x.raw as int,
                self.diffuse_spec().y.raw as int,
                self.diffuse_spec().z.raw as int,
                self.texture_handle(),
            ),
            final(ctx).upcoming_id() == old(ctx).upcoming_id(),
    {
        shader.set_uniform_vector3(ctx, String::from_str("material.diffuse"), &self.diffuse);
        match &self.diffuse_texture {
            Some(texture) => {
                texture.bind(ctx, 0);
                shader.set_uniform_bool(
                    ctx,
                    String::from_str("material.use_diffuse_texture"),
                    true,
                );
            },
            None => {
                shader.set_uniform_bool(
                    ctx,
                    String::from_str("material.use_diffuse_texture"),
                    false,
                );
            },
        }
        proof {
            assert(ctx.calls() =~= old(ctx).calls() + material_calls_v(
                old(shader).handle(),
                old(shader).cache_v(),
                self.diffuse_spec().x.raw as int,
                self.diffuse_spec().y.raw as int,
                self.diffuse_spec().z.raw as int,
                self.texture_handle(),
            ));
        }
    }
}

} // verus!
