//! The explicit rendering context.
//!
//! The engine's GPU work is driven through a single context that is threaded
//! through every constructor and draw call. The context hands out fresh
//! object handles and records every GPU call as a [`Cmd`] in order; an
//! unverified host replays the recorded commands against the real driver.
//! Contracts describe the recorded stream through [`GlContext::calls`], a
//! sequence of [`GpuCall`] values, so what a function asks of the GPU is
//! stated exactly.

use vstd::prelude::*;

use crate::algebra::{Mat4, Vec3};
use crate::fixed::Fx;

verus! {

/// GPU type code for a 32-bit float attribute.
pub const GL_FLOAT: u32 = 0x1406;

/// GPU type code for a 32-bit unsigned integer.
pub const GL_UNSIGNED_INT: u32 = 0x1405;

/// GPU type code for an 8-bit unsigned integer.
pub const GL_UNSIGNED_BYTE: u32 = 0x1401;

/// GPU boolean true, as the byte the attribute descriptor carries.
pub const GL_TRUE: u8 = 1;

/// GPU boolean false.
pub const GL_FALSE: u8 = 0;

/// Stage code of a vertex shader.
pub const GL_VERTEX_SHADER: u32 = 0x8B31;

/// Stage code of a fragment shader.
pub const GL_FRAGMENT_SHADER: u32 = 0x8B30;

/// Primitive mode drawing independent triangles.
pub const GL_TRIANGLES: u32 = 0x0004;

/// Clear-mask bit selecting the color buffer.
pub const GL_COLOR_BUFFER_BIT: u32 = 0x4000;

/// Clear-mask bit selecting the depth buffer.
pub const GL_DEPTH_BUFFER_BIT: u32 = 0x0100;

/// One recorded GPU command, as executable data. Uniform uploads name their
/// destination by `(program, slot)`: a slot is the index the program's
/// uniform-location cache assigned to the uniform's name, and the host keeps
/// the driver's actual location for each slot when it replays
/// `QueryUniformLocation`.
#[derive(Clone, Debug)]
pub enum Cmd {
    /// Create vertex buffer `id` holding the flattened raw vertex scalars.
    CreateVertexBuffer { id: u32, data: Vec<i64> },
    /// Create index buffer `id` holding 32-bit indices.
    CreateIndexBuffer { id: u32, data: Vec<u32> },
    /// Create vertex array object `id`.
    CreateVertexArray { id: u32 },
    /// Bind vertex buffer `id`.
    BindVertexBuffer { id: u32 },
    /// Bind index buffer `id`.
    BindIndexBuffer { id: u32 },
    /// Bind vertex array object `id`.
    BindVertexArray { id: u32 },
    /// Enable vertex attribute `slot`.
    EnableAttrib { slot: u32 },
    /// Describe vertex attribute `slot`: component count, GPU type code,
    /// normalized flag, stride and byte offset into the bound buffer.
    AttribPointer { slot: u32, count: u32, gl_type: u32, normalized: u8, stride: u32, offset: u32 },
    /// Create texture `id` from `width * height` RGB bytes.
    CreateTexture { id: u32, width: u32, height: u32, data: Vec<u8> },
    /// Bind texture `id` to texture unit `unit`.
    BindTexture { unit: u32, id: u32 },
    /// Unbind whatever texture is bound to unit `unit`.
    UnbindTexture { unit: u32 },
    /// Compile shader object `id` of stage `kind` from `source`.
    CompileShader { id: u32, kind: u32, source: String },
    /// Create shader program `id`.
    CreateProgram { id: u32 },
    /// Attach shader `shader` to program `program`.
    AttachShader { program: u32, shader: u32 },
    /// Link program `program`.
    LinkProgram { program: u32 },
    /// Detach shader `shader` from program `program`.
    DetachShader { program: u32, shader: u32 },
    /// Look up the location of uniform `name` in `program` and remember it
    /// under `slot`.
    QueryUniformLocation { program: u32, name: String, slot: usize },
    /// Upload a column-major matrix to uniform `slot` of `program`.
    UploadMatrix4 { program: u32, slot: usize, value: Mat4 },
    /// Upload a three-component vector to uniform `slot` of `program`.
    UploadVector3 { program: u32, slot: usize, value: Vec3 },
    /// Upload a scalar to uniform `slot` of `program`.
    UploadFloat { program: u32, slot: usize, value: Fx },
    /// Upload a boolean (as 0 or 1) to uniform `slot` of `program`.
    UploadBool { program: u32, slot: usize, value: bool },
    /// Activate program `id`.
    UseProgram { id: u32 },
    /// Set the clear color.
    ClearColor { r: Fx, g: Fx, b: Fx, a: Fx },
    /// Clear the buffers selected by `mask`.
    Clear { mask: u32 },
    /// Draw `count` indices of kind `index_kind` from the bound index
    /// buffer, starting at byte `offset`, with primitive mode `mode`.
    DrawElements { mode: u32, count: u32, index_kind: u32, offset: u32 },
    /// Release buffer `id`.
    DeleteBuffer { id: u32 },
    /// Release vertex array object `id`.
    DeleteVertexArray { id: u32 },
    /// Release texture `id`.
    DeleteTexture { id: u32 },
    /// Release shader object `id`.
    DeleteShader { id: u32 },
    /// Release program `id`.
    DeleteProgram { id: u32 },
}

/// The mathematical value of one recorded GPU command: the same variants as
/// [`Cmd`], with buffers as sequences, strings as character sequences and
/// scalars as raw integers.
pub enum GpuCall {
    CreateVertexBuffer { id: u32, data: Seq<i64> },
    CreateIndexBuffer { id: u32, data: Seq<u32> },
    CreateVertexArray { id: u32 },
    BindVertexBuffer { id: u32 },
    BindIndexBuffer { id: u32 },
    BindVertexArray { id: u32 },
    EnableAttrib { slot: u32 },
    AttribPointer { slot: u32, count: u32, gl_type: u32, normalized: u8, stride: u32, offset: u32 },
    CreateTexture { id: u32, width: u32, height: u32, data: Seq<u8> },
    BindTexture { unit: u32, id: u32 },
    UnbindTexture { unit: u32 },
    CompileShader { id: u32, kind: u32, source: Seq<char> },
    CreateProgram { id: u32 },
    AttachShader { program: u32, shader: u32 },
    LinkProgram { program: u32 },
    DetachShader { program: u32, shader: u32 },
    QueryUniformLocation { program: u32, name: Seq<char>, slot: usize },
    UploadMatrix4 { program: u32, slot: usize, value: Seq<int> },
    UploadVector3 { program: u32, slot: usize, x: int, y: int, z: int },
    UploadFloat { program: u32, slot: usize, value: int },
    UploadBool { program: u32, slot: usize, value: bool },
    UseProgram { id: u32 },
    ClearColor { r: int, g: int, b: int, a: int },
    Clear { mask: u32 },
    DrawElements { mode: u32, count: u32, index_kind: u32, offset: u32 },
    DeleteBuffer { id: u32 },
    DeleteVertexArray { id: u32 },
    DeleteTexture { id: u32 },
    DeleteShader { id: u32 },
    DeleteProgram { id: u32 },
}

impl View for Cmd {
    type V = GpuCall;

    open spec fn view(&self) -> GpuCall {
        match self {
            Cmd::CreateVertexBuffer { id, data } => GpuCall::CreateVertexBuffer {
                id: *id,
                data: data@,
            },
            Cmd::CreateIndexBuffer { id, data } => GpuCall::CreateIndexBuffer {
                id: *id,
                data: data@,
            },
            Cmd::CreateVertexArray { id } => GpuCall::CreateVertexArray { id: *id },
            Cmd::BindVertexBuffer { id } => GpuCall::BindVertexBuffer { id: *id },
            Cmd::BindIndexBuffer { id } => GpuCall::BindIndexBuffer { id: *id },
            Cmd::BindVertexArray { id } => GpuCall::BindVertexArray { id: *id },
            Cmd::EnableAttrib { slot } => GpuCall::EnableAttrib { slot: *slot },
            Cmd::AttribPointer { slot, count, gl_type, normalized, stride, offset } => {
                GpuCall::AttribPointer {
                    slot: *slot,
                    count: *count,
                    gl_type: *gl_type,
                    normalized: *normalized,
                    stride: *stride,
                    offset: *offset,
                }
            },
            Cmd::CreateTexture { id, width, height, data } => GpuCall::CreateTexture {
                id: *id,
                width: *width,
                height: *height,
                data: data@,
            },
            Cmd::BindTexture { unit, id } => GpuCall::BindTexture { unit: *unit, id: *id },
            Cmd::UnbindTexture { unit } => GpuCall::UnbindTexture { unit: *unit },
            Cmd::CompileShader { id, kind, source } => GpuCall::CompileShader {
                id: *id,
                kind: *kind,
                source: source@,
            },
            Cmd::CreateProgram { id } => GpuCall::CreateProgram { id: *id },
            Cmd::AttachShader { program, shader } => GpuCall::AttachShader {
                program: *program,
                shader: *shader,
            },
            Cmd::LinkProgram { program } => GpuCall::LinkProgram { program: *program },
            Cmd::DetachShader { program, shader } => GpuCall::DetachShader {
                program: *program,
                shader: *shader,
            },
            Cmd::QueryUniformLocation { program, name, slot } => GpuCall::QueryUniformLocation {
                program: *program,
                name: name@,
                slot: *slot,
            },
            Cmd::UploadMatrix4 { program, slot, value } => GpuCall::UploadMatrix4 {
                program: *program,
                slot: *slot,
                value: value.m(),
            },
            Cmd::UploadVector3 { program, slot, value } => GpuCall::UploadVector3 {
                program: *program,
                slot: *slot,
                x: value.x.raw as int,
                y: value.y.raw as int,
                z: value.z.raw as int,
            },
            Cmd::UploadFloat { program, slot, value } => GpuCall::UploadFloat {
                program: *program,
                slot: *slot,
                value: value.raw as int,
            },
            Cmd::UploadBool { program, slot, value } => GpuCall::UploadBool {
                program: *program,
                slot: *slot,
                value: *value,
            },
            Cmd::UseProgram { id } => GpuCall::UseProgram { id: *id },
            Cmd::ClearColor { r, g, b, a } => GpuCall::ClearColor {
                r: r.raw as int,
                g: g.raw as int,
                b: b.raw as int,
                a: a.raw as int,
            },
            Cmd::Clear { mask } => GpuCall::Clear { mask: *mask },
            Cmd::DrawElements { mode, count, index_kind, offset } => GpuCall::DrawElements {
                mode: *mode,
                count: *count,
                index_kind: *index_kind,
                offset: *offset,
            },
            Cmd::DeleteBuffer { id } => GpuCall::DeleteBuffer { id: *id },
            Cmd::DeleteVertexArray { id } => GpuCall::DeleteVertexArray { id: *id },
            Cmd::DeleteTexture { id } => GpuCall::DeleteTexture { id: *id },
            Cmd::DeleteShader { id } => GpuCall::DeleteShader { id: *id },
            Cmd::DeleteProgram { id } => GpuCall::DeleteProgram { id: *id },
        }
    }
}

/// The rendering context: the source of fresh GPU object handles and the
/// ordered record of every GPU command issued through it.
pub struct GlContext {
    next_id: u32,
    log: Vec<Cmd>,
}

impl GlContext {
    /// The recorded command stream, oldest first.
    pub closed spec fn calls(&self) -> Seq<GpuCall> {
        self.log@.map_values(|c: Cmd| c@)
    }

    /// The handle the next created object will receive.
    pub closed spec fn upcoming_id(&self) -> u32 {
        self.next_id
    }

    /// A fresh context: no commands recorded, handles starting at 1 (handle
    /// 0 is kept meaning "no object", as the driver does).
    pub fn new() -> (c: GlContext)
        ensures
            c.calls() == Seq::<GpuCall>::empty(),
            c.upcoming_id() == 1,
    {
        let c = GlContext { next_id: 1, log: Vec::new() };
        proof {
            assert(c.calls() =~= Seq::<GpuCall>::empty());
        }
        c
    }

    /// Record one command.
    pub(crate) fn emit(&mut self, c: Cmd)
        ensures
            final(self).calls() == old(self).calls().push(c@),
            final(self).upcoming_id() == old(self).upcoming_id(),
    {
        let ghost prev = self.log@;
        self.log.push(c);
        proof {
            assert(self.calls() =~= old(self).calls().push(c@));
        }
    }

    /// Hand out a fresh object handle.
    pub(crate) fn fresh_id(&mut self) -> (id: u32)
        requires
            old(self).upcoming_id() < u32::MAX,
        ensures
            id == old(self).upcoming_id(),
            final(self).upcoming_id() == old(self).upcoming_id() + 1,
            final(self).calls() == old(self).calls(),
    {
        let id: u32 = self.next_id;
        self.next_id = self.next_id + 1;
        id
    }

    /// The handle the next created object will receive, for hosts that
    /// want to check headroom before creating objects.
    pub fn next_handle(&self) -> (id: u32)
        ensures
            id == self.upcoming_id(),
    {
        self.next_id
    }

    /// The recorded commands, for inspection.
    pub fn commands(&self) -> (v: &Vec<Cmd>)
        ensures
            v@.map_values(|c: Cmd| c@) == self.calls(),
    {
        &self.log
    }

    /// Remove and return the recorded commands, leaving the context empty
    /// but keeping its handle counter: the host calls this to replay a
    /// frame's worth of commands.
    pub fn take_commands(&mut self) -> (v: Vec<Cmd>)
        ensures
            v@.map_values(|c: Cmd| c@) == old(self).calls(),
            final(self).calls() == Seq::<GpuCall>::empty(),
            final(self).upcoming_id() == old(self).upcoming_id(),
    {
        let mut out: Vec<Cmd> = Vec::new();
        core::mem::swap(&mut self.log, &mut out);
        proof {
            assert(self.calls() =~= Seq::<GpuCall>::empty());
        }
        out
    }
}

} // verus!
