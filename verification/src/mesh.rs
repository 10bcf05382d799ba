//! Meshes and submeshes.
//!
//! A submesh pairs one vertex/index buffer set with an optional material and
//! shader assignment; a mesh is an ordered collection of submeshes plus its
//! material and shader lists and a model transform. Submeshes reference
//! materials and shaders by index, never by copy.

use vstd::prelude::*;

use crate::algebra::{mat_identity_v, Mat4};
use crate::buffers::{attrib_calls_v, GLType, IndexBuffer, VertexArray, VertexBuffer,
    VertexBufferElement, VertexBufferLayout};
use crate::context::{GlContext, GpuCall, GL_FALSE, GL_FLOAT};
use crate::fixed::Fx;
use crate::material::Material;
use crate::shader::ShaderProgram;
use crate::vertex::{flatten_vertices_v, Vertex};

verus! {

/// The fixed attribute layout of a [`Vertex`]: three scalars of position,
/// three of normal, two of texture coordinates, tightly packed.
pub open spec fn standard_layout_v() -> Seq<VertexBufferElement> {
    seq![
        VertexBufferElement { gl_type: GL_FLOAT, gl_size: 4, count: 3, normalized: GL_FALSE },
        VertexBufferElement { gl_type: GL_FLOAT, gl_size: 4, count: 3, normalized: GL_FALSE },
        VertexBufferElement { gl_type: GL_FLOAT, gl_size: 4, count: 2, normalized: GL_FALSE },
    ]
}

/// The commands creating a submesh records, with `first_id` the first of
/// the three handles it takes: create the vertex buffer, the index buffer
/// and the vertex array, then register the buffer under the standard
/// layout.
pub open spec fn submesh_calls_v(first_id: u32, flat: Seq<i64>, indices: Seq<u32>) -> Seq<
    GpuCall,
> {
    seq![
        GpuCall::CreateVertexBuffer { id: first_id, data: flat },
        GpuCall::CreateIndexBuffer { id: (first_id + 1) as u32, data: indices },
        GpuCall::CreateVertexArray { id: (first_id + 2) as u32 },
        GpuCall::BindVertexArray { id: (first_id + 2) as u32 },
        GpuCall::BindVertexBuffer { id: first_id },
    ] + attrib_calls_v(standard_layout_v(), 32)
}

/// One drawable GPU geometry batch: its buffers, its layout, and optional
/// material and shader assignments by index into the owning mesh's lists.
#[derive(Debug)]
pub struct SubMesh {
    /// Which of the mesh's materials this submesh uses, if any.
    pub material_index: Option<usize>,
    /// Which of the mesh's shaders this submesh uses, if any.
    pub shader_index: Option<usize>,
    /// The vertex buffer holding this submesh's vertices.
    pub vertex_buffer: VertexBuffer,
    /// The layout the vertex buffer was registered under.
    pub layout: VertexBufferLayout,
    /// The index buffer holding this submesh's triangle indices.
    pub index_buffer: IndexBuffer,
    /// The vertex array tying buffer and layout together.
    pub vertex_array: VertexArray,
}

impl SubMesh {
    /// Create a submesh from its vertices and indices: upload both, then
    /// register the vertex buffer under the standard
    /// position/normal/texture layout, exactly once, at construction time.
    pub fn new(
        ctx: &mut GlContext,
        vertices: Vec<Vertex>,
        indices: Vec<u32>,
        material_index: Option<usize>,
        shader_index: Option<usize>,
    ) -> (s: SubMesh)
        requires
            old(ctx).upcoming_id() + 3 <= u32::MAX,
            vertices@.len() * 8 <= usize::MAX,
            indices@.len() <= u32::MAX,
        ensures
            s.material_index == material_index,
            s.shader_index == shader_index,
            s.vertex_buffer.handle() == old(ctx).upcoming_id(),
            s.index_buffer.handle() == old(ctx).upcoming_id() + 1,
            s.vertex_array.handle() == old(ctx).upcoming_id() + 2,
            s.index_buffer.count_spec() == indices@.len(),
            s.layout.elements@ == standard_layout_v(),
            s.layout.stride == 32,
            s.layout.wf(),
            final(ctx).upcoming_id() == old(ctx).upcoming_id() + 3,
            final(ctx).calls() == old(ctx).calls() + submesh_calls_v(
                old(ctx).upcoming_id(),
                flatten_vertices_v(vertices@),
                indices@,
            ),
    {
        let ghost flat = flatten_vertices_v(vertices@);
        let ghost idx = indices@;
        let vertex_buffer = VertexBuffer::new(ctx, vertices);
        let mut layout = VertexBufferLayout::new();
        let index_buffer = IndexBuffer::new(ctx, indices);
        let vertex_array = VertexArray::new(ctx);
        layout.push::<Fx>(3);
        layout.push::<Fx>(3);
        layout.push::<Fx>(2);
        proof {
            assert(layout.elements@ =~= standard_layout_v());
        }
        vertex_array.add_buffer(ctx, &vertex_buffer, &layout);
        let s = SubMesh {
            material_index,
            shader_index,
            vertex_buffer,
            layout,
            index_buffer,
            vertex_array,
        };
        proof {
            assert(ctx.calls() =~= old(ctx).calls() + submesh_calls_v(
                old(ctx).upcoming_id(),
                flat,
                idx,
            ));
        }
        s
    }

    /// The submesh's index buffer.
    pub fn index_buffer(&self) -> (b: &IndexBuffer)
        ensures
            *b == self.index_buffer,
    {
        &self.index_buffer
    }

    /// The submesh's vertex array.
    pub fn vertex_array(&self) -> (a: &VertexArray)
        ensures
            *a == self.vertex_array,
    {
        &self.vertex_array
    }

    /// Release the submesh's three GPU handles, each exactly once.
    pub fn delete(self, ctx: &mut GlContext)
        ensures
            final(ctx).calls() == old(ctx).calls() + seq![
                GpuCall::DeleteBuffer { id: self.vertex_buffer.handle() },
                GpuCall::DeleteBuffer { id: self.index_buffer.handle() },
                GpuCall::DeleteVertexArray { id: self.vertex_array.handle() },
            ],
            final(ctx).upcoming_id() == old(ctx).upcoming_id(),
    {
        let SubMesh { vertex_buffer, index_buffer, vertex_array, .. } = self;
        vertex_buffer.delete(ctx);
        index_buffer.delete(ctx);
        vertex_array.delete(ctx);
        proof {
            assert(ctx.calls() =~= old(ctx).calls() + seq![
                GpuCall::DeleteBuffer { id: self.vertex_buffer.handle() },
                GpuCall::DeleteBuffer { id: self.index_buffer.handle() },
                GpuCall::DeleteVertexArray { id: self.vertex_array.handle() },
            ]);
        }
    }
}

/// An ordered collection of submeshes with the material and shader lists
/// they index into, and a model transform.
#[derive(Debug)]
pub struct Mesh {
    /// The submeshes, drawn in order.
    pub submeshes: Vec<SubMesh>,
    /// The materials submeshes reference by index.
    pub materials: Vec<Material>,
    /// The shaders submeshes reference by index.
    pub shaders: Vec<ShaderProgram>,
    /// The model transform.
    pub matrix: Mat4,
}

impl Mesh {
    /// A mesh of the given submeshes, with no materials, no shaders, and
    /// the identity model transform.
    pub fn new(submeshes: Vec<SubMesh>) -> (m: Mesh)
        ensures
            m.submeshes == submeshes,
            m.materials@.len() == 0,
            m.shaders@.len() == 0,
            m.matrix.m() == mat_identity_v(),
    {
        Mesh { submeshes, materials: Vec::new(), shaders: Vec::new(), matrix: Mat4::identity() }
    }
}

} // verus!
