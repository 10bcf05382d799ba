//! The GPU-uploadable vertex record.

use vstd::prelude::*;

use crate::algebra::{Vec2, Vec3};

verus! {

/// One vertex: position, normal and texture coordinates, in that order,
/// tightly packed. The layout a submesh registers for its vertex buffer
/// (three scalars, three scalars, two scalars) must match this record
/// exactly.
#[derive(Clone, Copy, Debug, PartialEq, Eq, Structural)]
pub struct Vertex {
    pub position: Vec3,
    pub normal: Vec3,
    pub uv: Vec2,
}

impl Vertex {
    /// The vertex with the given attributes.
    pub fn new(position: Vec3, normal: Vec3, uv: Vec2) -> (r: Vertex)
        ensures
            r.position == position,
            r.normal == normal,
            r.uv == uv,
    {
        Vertex { position, normal, uv }
    }

    /// The eight raw scalars of this vertex, in memory order.
    pub open spec fn flat(self) -> Seq<i64> {
        seq![
            self.position.x.raw,
            self.position.y.raw,
            self.position.z.raw,
            self.normal.x.raw,
            self.normal.y.raw,
            self.normal.z.raw,
            self.uv.x.raw,
            self.uv.y.raw,
        ]
    }
}

/// The raw scalars of a whole vertex list, vertex by vertex: what a vertex
/// buffer upload carries.
pub open spec fn flatten_vertices_v(vs: Seq<Vertex>) -> Seq<i64> {
    Seq::new(vs.len() * 8, |i: int| vs[i / 8].flat()[i % 8])
}

/// Flatten a vertex list into its raw scalars.
pub fn flatten_vertices(vs: &Vec<Vertex>) -> (r: Vec<i64>)
    requires
        vs@.len() * 8 <= usize::MAX,
    ensures
        r@ == flatten_vertices_v(vs@),
{
    let mut r: Vec<i64> = Vec::new();
    let mut i: usize = 0;
    while i < vs.len()
        invariant
            i <= vs@.len(),
            vs@.len() * 8 <= usize::MAX,
            r@.len() == i * 8,
            forall|j: int| 0 <= j < i * 8 ==> r@[j] == flatten_vertices_v(vs@)[j],
        decreases vs@.len() - i,
    {
        let v = vs[i];
        r.push(v.position.x.raw);
        r.push(v.position.y.raw);
        r.push(v.position.z.raw);
        r.push(v.normal.x.raw);
        r.push(v.normal.y.raw);
        r.push(v.normal.z.raw);
        r.push(v.uv.x.raw);
        r.push(v.uv.y.raw);
        i += 1;
        proof {
            assert forall|j: int| 0 <= j < i * 8 implies r@[j] == flatten_vertices_v(vs@)[j] by {
                if j >= (i - 1) * 8 {
                    assert(j / 8 == i - 1);
                }
            }
        }
    }
    proof {
        assert(r@ =~= flatten_vertices_v(vs@));
    }
    r
}

} // verus!
