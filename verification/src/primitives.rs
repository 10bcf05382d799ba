//! Primitive meshes: a cube, a plane, and the index pattern of a disk.
//!
//! The disk's vertex ring needs sine and cosine and is therefore built by
//! the host; its index pattern is pure arithmetic and lives here.

use vstd::prelude::*;

use crate::algebra::{Vec2, Vec3};
use crate::context::{GlContext, GpuCall};
use crate::fixed::{Fx, FX_SCALE, FX_SCALE_NEG};
use crate::mesh::{submesh_calls_v, Mesh, SubMesh};
use crate::vertex::{flatten_vertices_v, Vertex};

verus! {

/// A vertex from raw position and normal components, with zero texture
/// coordinates.
pub open spec fn prim_vertex_v(px: i64, py: i64, pz: i64, nx: i64, ny: i64, nz: i64) -> Vertex {
    Vertex {
        position: Vec3 { x: Fx { raw: px }, y: Fx { raw: py }, z: Fx { raw: pz } },
        normal: Vec3 { x: Fx { raw: nx }, y: Fx { raw: ny }, z: Fx { raw: nz } },
        uv: Vec2 { x: Fx { raw: 0 }, y: Fx { raw: 0 } },
    }
}

/// A vertex from raw position, normal and texture components.
pub open spec fn tex_vertex_v(
    px: i64,
    py: i64,
    pz: i64,
    nx: i64,
    ny: i64,
    nz: i64,
    u: i64,
    v: i64,
) -> Vertex {
    Vertex {
        position: Vec3 { x: Fx { raw: px }, y: Fx { raw: py }, z: Fx { raw: pz } },
        normal: Vec3 { x: Fx { raw: nx }, y: Fx { raw: ny }, z: Fx { raw: nz } },
        uv: Vec2 { x: Fx { raw: u }, y: Fx { raw: v } },
    }
}

/// The 24 vertices of a cube of half-extent `p` (with `n == -p`): four per
/// face, each face with its outward unit normal.
pub open spec fn cube_vertices_v(p: i64, n: i64) -> Seq<Vertex> {
    seq![
        prim_vertex_v(p, p, p, 0, FX_SCALE, 0),
        prim_vertex_v(p, p, n, 0, FX_SCALE, 0),
        prim_vertex_v(n, p, n, 0, FX_SCALE, 0),
        prim_vertex_v(n, p, p, 0, FX_SCALE, 0),
        prim_vertex_v(p, n, p, 0, FX_SCALE_NEG, 0),
        prim_vertex_v(n, n, p, 0, FX_SCALE_NEG, 0),
        prim_vertex_v(n, n, n, 0, FX_SCALE_NEG, 0),
        prim_vertex_v(p, n, n, 0, FX_SCALE_NEG, 0),
        prim_vertex_v(p, p, p, FX_SCALE, 0, 0),
        prim_vertex_v(p, n, p, FX_SCALE, 0, 0),
        prim_vertex_v(p, n, n, FX_SCALE, 0, 0),
        prim_vertex_v(p, p, n, FX_SCALE, 0, 0),
        prim_vertex_v(n, p, p, FX_SCALE_NEG, 0, 0),
        prim_vertex_v(n, p, n, FX_SCALE_NEG, 0, 0),
        prim_vertex_v(n, n, n, FX_SCALE_NEG, 0, 0),
        prim_vertex_v(n, n, p, FX_SCALE_NEG, 0, 0),
        prim_vertex_v(p, p, p, 0, 0, FX_SCALE),
        prim_vertex_v(n, p, p, 0, 0, FX_SCALE),
        prim_vertex_v(n, n, p, 0, 0, FX_SCALE),
        prim_vertex_v(p, n, p, 0, 0, FX_SCALE),
        prim_vertex_v(p, p, n, 0, 0, FX_SCALE_NEG),
        prim_vertex_v(p, n, n, 0, 0, FX_SCALE_NEG),
        prim_vertex_v(n, n, n, 0, 0, FX_SCALE_NEG),
        prim_vertex_v(n, p, n, 0, 0, FX_SCALE_NEG),
    ]
}

/// The 36 indices of a cube: two triangles per face.
pub open spec fn cube_indices_v() -> Seq<u32> {
    seq![
        0u32, 1, 2, 0, 2, 3, 4, 5, 6, 4, 6, 7, 8, 9, 10, 8, 10, 11, 12, 13, 14, 12, 14, 15, 16,
        17, 18, 16, 18, 19, 20, 21, 22, 20, 22, 23,
    ]
}

/// The four corner vertices of a plane of half-extent `p` (with `n == -p`)
/// in the XZ plane, facing up, with the texture square mapped across.
pub open spec fn plane_vertices_v(p: i64, n: i64) -> Seq<Vertex> {
    seq![
        tex_vertex_v(p, 0, p, 0, FX_SCALE, 0, FX_SCALE, FX_SCALE),
        tex_vertex_v(p, 0, n, 0, FX_SCALE, 0, FX_SCALE, 0),
        tex_vertex_v(n, 0, n, 0, FX_SCALE, 0, 0, 0),
        tex_vertex_v(n, 0, p, 0, FX_SCALE, 0, 0, FX_SCALE),
    ]
}

/// The six indices of a plane: its two triangles.
pub open spec fn plane_indices_v() -> Seq<u32> {
    seq![0u32, 1, 2, 0, 2, 3]
}

/// The indices of a disk of `resolution` rim vertices: one triangle per
/// rim vertex, each fanning from the center vertex (index `resolution`)
/// through the vertex and its successor around the rim.
pub open spec fn disk_indices_v(resolution: u32) -> Seq<u32> {
    Seq::new(
        3 * resolution as nat,
        |k: int|
            if k % 3 == 0 {
                resolution
            } else if k % 3 == 1 {
                if k / 3 == resolution - 1 {
                    0u32
                } else {
                    (k / 3 + 1) as u32
                }
            } else {
                (k / 3) as u32
            },
    )
}

/// A cube.
#[derive(Debug)]
pub struct Cube;

impl Cube {
    /// A one-submesh mesh of a cube of half-extent `size`, with no
    /// materials and no shaders.
    pub fn new(ctx: &mut GlContext, size: Fx) -> (m: Mesh)
        requires
            size.raw > i64::MIN,
            old(ctx).upcoming_id() + 3 <= u32::MAX,
        ensures
            m.submeshes@.len() == 1,
            m.submeshes@[0].material_index is None,
            m.submeshes@[0].shader_index is None,
            m.submeshes@[0].index_buffer.count_spec() == 36,
            m.materials@.len() == 0,
            m.shaders@.len() == 0,
            m.matrix.m() == crate::algebra::mat_identity_v(),
            final(ctx).upcoming_id() == old(ctx).upcoming_id() + 3,
            final(ctx).calls() == old(ctx).calls() + submesh_calls_v(
                old(ctx).upcoming_id(),
                flatten_vertices_v(cube_vertices_v(size.raw, -size.raw as i64)),
                cube_indices_v(),
            ),
    {
        let p: i64 = size.raw;
        let nsize: i64 = size.neg().raw;
        let mut vertices: Vec<Vertex> = Vec::new();
        vertices.push(prim_vertex(p, p, p, 0, FX_SCALE, 0));
        vertices.push(prim_vertex(p, p, nsize, 0, FX_SCALE, 0));
        vertices.push(prim_vertex(nsize, p, nsize, 0, FX_SCALE, 0));
        vertices.push(prim_vertex(nsize, p, p, 0, FX_SCALE, 0));
        vertices.push(prim_vertex(p, nsize, p, 0, FX_SCALE_NEG, 0));
        vertices.push(prim_vertex(nsize, nsize, p, 0, FX_SCALE_NEG, 0));
        vertices.push(prim_vertex(nsize, nsize, nsize, 0, FX_SCALE_NEG, 0));
        vertices.push(prim_vertex(p, nsize, nsize, 0, FX_SCALE_NEG, 0));
        vertices.push(prim_vertex(p, p, p, FX_SCALE, 0, 0));
        vertices.push(prim_vertex(p, nsize, p, FX_SCALE, 0, 0));
        vertices.push(prim_vertex(p, nsize, nsize, FX_SCALE, 0, 0));
        vertices.push(prim_vertex(p, p, nsize, FX_SCALE, 0, 0));
        vertices.push(prim_vertex(nsize, p, p, FX_SCALE_NEG, 0, 0));
        vertices.push(prim_vertex(nsize, p, nsize, FX_SCALE_NEG, 0, 0));
        vertices.push(prim_vertex(nsize, nsize, nsize, FX_SCALE_NEG, 0, 0));
        vertices.push(prim_vertex(nsize, nsize, p, FX_SCALE_NEG, 0, 0));
        vertices.push(prim_vertex(p, p, p, 0, 0, FX_SCALE));
        vertices.push(prim_vertex(nsize, p, p, 0, 0, FX_SCALE));
        vertices.push(prim_vertex(nsize, nsize, p, 0, 0, FX_SCALE));
        vertices.push(prim_vertex(p, nsize, p, 0, 0, FX_SCALE));
        vertices.push(prim_vertex(p, p, nsize, 0, 0, FX_SCALE_NEG));
        vertices.push(prim_vertex(p, nsize, nsize, 0, 0, FX_SCALE_NEG));
        vertices.push(prim_vertex(nsize, nsize, nsize, 0, 0, FX_SCALE_NEG));
        vertices.push(prim_vertex(nsize, p, nsize, 0, 0, FX_SCALE_NEG));
        proof {
            assert(vertices@ =~= cube_vertices_v(p, nsize));
        }
        let indices: Vec<u32> = vec![
            0u32, 1, 2, 0, 2, 3, 4, 5, 6, 4, 6, 7, 8, 9, 10, 8, 10, 11, 12, 13, 14, 12, 14, 15,
            16, 17, 18, 16, 18, 19, 20, 21, 22, 20, 22, 23,
        ];
        proof {
            assert(indices@ =~= cube_indices_v());
        }
        let submesh = SubMesh::new(ctx, vertices, indices, None, None);
        let mut submeshes: Vec<SubMesh> = Vec::new();
        submeshes.push(submesh);
        Mesh::new(submeshes)
    }
}

/// A flat plane.
#[derive(Debug)]
pub struct Plane;

impl Plane {
    /// A one-submesh mesh of a plane of half-extent `size` in the XZ
    /// plane, with no materials and no shaders.
    pub fn new(ctx: &mut GlContext, size: Fx) -> (m: Mesh)
        requires
            size.raw > i64::MIN,
            old(ctx).upcoming_id() + 3 <= u32::MAX,
        ensures
            m.submeshes@.len() == 1,
            m.submeshes@[0].material_index is None,
            m.submeshes@[0].shader_index is None,
            m.submeshes@[0].index_buffer.count_spec() == 6,
            m.materials@.len() == 0,
            m.shaders@.len() == 0,
            m.matrix.m() == crate::algebra::mat_identity_v(),
            final(ctx).upcoming_id() == old(ctx).upcoming_id() + 3,
            final(ctx).calls() == old(ctx).calls() + submesh_calls_v(
                old(ctx).upcoming_id(),
                flatten_vertices_v(plane_vertices_v(size.raw, -size.raw as i64)),
                plane_indices_v(),
            ),
    {
        let p: i64 = size.raw;
        let nsize: i64 = size.neg().raw;
        let mut vertices: Vec<Vertex> = Vec::new();
        vertices.push(tex_vertex(p, 0, p, 0, FX_SCALE, 0, FX_SCALE, FX_SCALE));
        vertices.push(tex_vertex(p, 0, nsize, 0, FX_SCALE, 0, FX_SCALE, 0));
        vertices.push(tex_vertex(nsize, 0, nsize, 0, FX_SCALE, 0, 0, 0));
        vertices.push(tex_vertex(nsize, 0, p, 0, FX_SCALE, 0, 0, FX_SCALE));
        proof {
            assert(vertices@ =~= plane_vertices_v(p, nsize));
        }
        let indices: Vec<u32> = vec![0u32, 1, 2, 0, 2, 3];
        proof {
            assert(indices@ =~= plane_indices_v());
        }
        let submesh = SubMesh::new(ctx, vertices, indices, None, None);
        let mut submeshes: Vec<SubMesh> = Vec::new();
        submeshes.push(submesh);
        Mesh::new(submeshes)
    }
}

/// A disk.
#[derive(Debug)]
pub struct Disk;

impl Disk {
    /// The index list fanning a disk of `resolution` rim vertices around
    /// its center vertex.
    pub fn generate_indices(resolution: u32) -> (r: Vec<u32>)
        requires
            resolution >= 1,
            3 * resolution <= usize::MAX,
        ensures
            r@ == disk_indices_v(resolution),
    {
        let mut indices: Vec<u32> = Vec::new();
        let mut i: u32 = 0;
        while i < resolution
            invariant
                i <= resolution,
                3 * resolution <= usize::MAX,
                indices@.len() == 3 * i,
                forall|k: int| 0 <= k < 3 * i ==> indices@[k] == disk_indices_v(resolution)[k],
            decreases resolution - i,
        {
            let a: u32 = resolution;
            let b: u32 = if i == resolution - 1 {
                0
            } else {
                i + 1
            };
            let c: u32 = i;
            indices.push(a);
            indices.push(b);
            indices.push(c);
            i += 1;
            proof {
                assert forall|k: int| 0 <= k < 3 * i implies indices@[k] == disk_indices_v(
                    resolution,
                )[k] by {
                    if k >= 3 * (i - 1) {
                        assert(k / 3 == i - 1);
                    }
                }
            }
        }
        proof {
            assert(indices@ =~= disk_indices_v(resolution));
        }
        indices
    }
}

/// A vertex from raw position and normal components, with zero texture
/// coordinates.
fn prim_vertex(px: i64, py: i64, pz: i64, nx: i64, ny: i64, nz: i64) -> (v: Vertex)
    ensures
        v == prim_vertex_v(px, py, pz, nx, ny, nz),
{
    Vertex {
        position: Vec3 { x: Fx { raw: px }, y: Fx { raw: py }, z: Fx { raw: pz } },
        normal: Vec3 { x: Fx { raw: nx }, y: Fx { raw: ny }, z: Fx { raw: nz } },
        uv: Vec2 { x: Fx { raw: 0 }, y: Fx { raw: 0 } },
    }
}

/// A vertex from raw position, normal and texture components.
fn tex_vertex(px: i64, py: i64, pz: i64, nx: i64, ny: i64, nz: i64, u: i64, v: i64) -> (r: Vertex)
    ensures
        r == tex_vertex_v(px, py, pz, nx, ny, nz, u, v),
{
    Vertex {
        position: Vec3 { x: Fx { raw: px }, y: Fx { raw: py }, z: Fx { raw: pz } },
        normal: Vec3 { x: Fx { raw: nx }, y: Fx { raw: ny }, z: Fx { raw: nz } },
        uv: Vec2 { x: Fx { raw: u }, y: Fx { raw: v } },
    }
}

} // verus!
