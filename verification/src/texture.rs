//! The 2D texture wrapper.
//!
//! Image decoding lives outside the library; a texture is created from the
//! decoded RGB bytes and only uploads and binds them.

use vstd::prelude::*;

use crate::context::{Cmd, GlContext, GpuCall};

verus! {

/// A GPU 2D texture: one texture handle and the uploaded image's size.
#[derive(Debug)]
pub struct Texture {
    id: u32,
    width: u32,
    height: u32,
}

impl Texture {
    /// The GPU handle this texture owns.
    pub closed spec fn handle(&self) -> u32 {
        self.id
    }

    /// The image width, as a specification value.
    pub closed spec fn width_spec(&self) -> u32 {
        self.width
    }

    /// The image height, as a specification value.
    pub closed spec fn height_spec(&self) -> u32 {
        self.height
    }

    /// Create a texture from `width * height` RGB pixels, three bytes each.
    pub fn new(ctx: &mut GlContext, width: u32, height: u32, data: Vec<u8>) -> (t: Texture)
        requires
            old(ctx).upcoming_id() < u32::MAX,
            data@.len() == width * height * 3,
        ensures
            t.handle() == old(ctx).upcoming_id(),
            t.width_spec() == width,
            t.height_spec() == height,
            final(ctx).upcoming_id() == old(ctx).upcoming_id() + 1,
            final(ctx).calls() == old(ctx).calls().push(
                GpuCall::CreateTexture { id: t.handle(), width, height, data: data@ },
            ),
    {
        let id: u32 = ctx.fresh_id();
        ctx.emit(Cmd::CreateTexture { id, width, height, data });
        Texture { id, width, height }
    }

    /// The image width.
    pub fn width(&self) -> (w: u32)
        ensures
            w == self.width_spec(),
    {
        self.width
    }

    /// The image height.
    pub fn height(&self) -> (h: u32)
        ensures
            h == self.height_spec(),
    {
        self.height
    }

    /// Bind this texture to the given texture unit.
    pub fn bind(&self, ctx: &mut GlContext, unit: u32)
        ensures
            final(ctx).calls() == old(ctx).calls().push(
                GpuCall::BindTexture { unit, id: self.handle() },
            ),
            final(ctx).upcoming_id() == old(ctx).upcoming_id(),
    {
        ctx.emit(Cmd::BindTexture { unit, id: self.id });
    }

    /// Release the texture's handle, exactly once.
    pub fn delete(self, ctx: &mut GlContext)
        ensures
            final(ctx).calls() == old(ctx).calls().push(
                GpuCall::DeleteTexture { id: self.handle() },
            ),
            final(ctx).upcoming_id() == old(ctx).upcoming_id(),
    {
        ctx.emit(Cmd::DeleteTexture { id: self.id });
    }
}

} // verus!
