//! The GPU buffer layer: vertex buffers, index buffers, vertex-array
//! objects, and the typed layout that maps vertex attributes to GPU
//! attribute slots.
//!
//! A layout is an ordered list of elements; push order defines the attribute
//! slot index, the stride is the byte size of one whole vertex, and each
//! element's byte offset is the sum of the byte sizes of the elements pushed
//! before it.

use vstd::prelude::*;

use crate::context::{Cmd, GlContext, GpuCall, GL_FALSE, GL_FLOAT, GL_TRUE, GL_UNSIGNED_BYTE,
    GL_UNSIGNED_INT};
use crate::fixed::Fx;
use crate::vertex::{flatten_vertices, flatten_vertices_v, Vertex};

verus! {

/// A type that can be a vertex attribute component, with its GPU type code,
/// its byte size on the GPU, and whether the driver normalizes it.
pub trait GLType {
    /// The byte size, as a specification value.
    spec fn gl_size_v() -> u32;

    /// The GPU type code, as a specification value.
    spec fn gl_type_v() -> u32;

    /// The normalized flag, as a specification value.
    spec fn normalized_v() -> u8;

    /// The byte size of one component.
    fn gl_size() -> (s: u32)
        ensures
            s == Self::gl_size_v(),
    ;

    /// The GPU type code.
    fn gl_type() -> (t: u32)
        ensures
            t == Self::gl_type_v(),
    ;

    /// Whether the driver normalizes the component.
    fn normalized() -> (n: u8)
        ensures
            n == Self::normalized_v(),
    ;
}

impl GLType for Fx {
    open spec fn gl_size_v() -> u32 {
        4
    }

    open spec fn gl_type_v() -> u32 {
        GL_FLOAT
    }

    open spec fn normalized_v() -> u8 {
        GL_FALSE
    }

    fn gl_size() -> u32 {
        4
    }

    fn gl_type() -> u32 {
        GL_FLOAT
    }

    fn normalized() -> u8 {
        GL_FALSE
    }
}

impl GLType for u32 {
    open spec fn gl_size_v() -> u32 {
        4
    }

    open spec fn gl_type_v() -> u32 {
        GL_UNSIGNED_INT
    }

    open spec fn normalized_v() -> u8 {
        GL_FALSE
    }

    fn gl_size() -> u32 {
        4
    }

    fn gl_type() -> u32 {
        GL_UNSIGNED_INT
    }

    fn normalized() -> u8 {
        GL_FALSE
    }
}

impl GLType for u8 {
    open spec fn gl_size_v() -> u32 {
        1
    }

    open spec fn gl_type_v() -> u32 {
        GL_UNSIGNED_BYTE
    }

    open spec fn normalized_v() -> u8 {
        GL_TRUE
    }

    fn gl_size() -> u32 {
        1
    }

    fn gl_type() -> u32 {
        GL_UNSIGNED_BYTE
    }

    fn normalized() -> u8 {
        GL_TRUE
    }
}

/// One element of a vertex layout: `count` components of the GPU type
/// `gl_type`, each `gl_size` bytes, with the driver's normalized flag.
#[derive(Clone, Copy, Debug, PartialEq, Eq, Structural)]
pub struct VertexBufferElement {
    pub gl_type: u32,
    pub gl_size: u32,
    pub count: u32,
    pub normalized: u8,
}

/// The byte size of one layout element: component count times component
/// byte size.
pub open spec fn elem_bytes(e: VertexBufferElement) -> int {
    e.count * e.gl_size
}

/// The total byte size of a list of layout elements.
pub open spec fn stride_sum(elems: Seq<VertexBufferElement>) -> int
    decreases elems.len(),
{
    if elems.len() == 0 {
        0
    } else {
        stride_sum(elems.drop_last()) + elem_bytes(elems.last())
    }
}

/// The byte offset of element `i`: the total byte size of the elements
/// before it.
pub open spec fn offset_sum(elems: Seq<VertexBufferElement>, i: int) -> int {
    stride_sum(elems.take(i))
}

/// A stride sum is never negative.
pub proof fn lemma_stride_sum_nonneg(elems: Seq<VertexBufferElement>)
    ensures
        stride_sum(elems) >= 0,
    decreases elems.len(),
{
    if elems.len() > 0 {
        lemma_stride_sum_nonneg(elems.drop_last());
        assert(elem_bytes(elems.last()) >= 0) by (nonlinear_arith);
    }
}

/// The byte offset of each layout element advances by exactly the byte size
/// of the element before it: offsets are the partial sums of the element
/// byte sizes, as the layout invariant says the stride is their total.
pub proof fn lemma_offset_step(elems: Seq<VertexBufferElement>, i: int)
    requires
        0 <= i < elems.len(),
    ensures
        offset_sum(elems, i + 1) == offset_sum(elems, i) + elem_bytes(elems[i]),
{
    assert(elems.take(i + 1).drop_last() =~= elems.take(i));
    assert(elems.take(i + 1).last() == elems[i]);
}

/// No element's byte offset passes the stride of the whole layout.
pub proof fn lemma_offset_le_total(elems: Seq<VertexBufferElement>, i: int)
    requires
        0 <= i <= elems.len(),
    ensures
        0 <= offset_sum(elems, i) <= stride_sum(elems),
    decreases elems.len() - i,
{
    lemma_stride_sum_nonneg(elems.take(i));
    if i == elems.len() {
        assert(elems.take(i) =~= elems);
    } else {
        lemma_offset_step(elems, i);
        assert(elem_bytes(elems[i]) >= 0) by (nonlinear_arith);
        lemma_offset_le_total(elems, i + 1);
    }
}

/// An ordered vertex layout and its stride. The invariant [`Self::wf`] ties
/// the stored stride to the sum of the element byte sizes.
#[derive(Clone, Debug)]
pub struct VertexBufferLayout {
    pub stride: u32,
    pub elements: Vec<VertexBufferElement>,
}

impl VertexBufferLayout {
    /// The layout invariant: the stride is the sum of `count * gl_size`
    /// over the elements, in push order.
    pub open spec fn wf(&self) -> bool {
        self.stride == stride_sum(self.elements@)
    }

    /// The empty layout.
    pub fn new() -> (r: VertexBufferLayout)
        ensures
            r.elements@.len() == 0,
            r.stride == 0,
            r.wf(),
    {
        VertexBufferLayout { stride: 0, elements: Vec::new() }
    }

    /// Append an element of `count` components of attribute type `T`. The
    /// new element's slot is the previous element count, and the stride
    /// grows by the element's byte size.
    pub fn push<T: GLType>(&mut self, count: u32)
        requires
            old(self).wf(),
            old(self).stride + count * T::gl_size_v() <= u32::MAX,
        ensures
            final(self).wf(),
            final(self).elements@ == old(self).elements@.push(
                VertexBufferElement {
                    gl_type: T::gl_type_v(),
                    gl_size: T::gl_size_v(),
                    count: count,
                    normalized: T::normalized_v(),
                },
            ),
            final(self).stride == old(self).stride + count * T::gl_size_v(),
    {
        let gl_size: u32 = T::gl_size();
        let e = VertexBufferElement {
            gl_type: T::gl_type(),
            gl_size,
            count,
            normalized: T::normalized(),
        };
        proof {
            lemma_stride_sum_nonneg(self.elements@);
        }
        self.elements.push(e);
        self.stride = self.stride + count * gl_size;
        proof {
            assert(self.elements@.drop_last() =~= old(self).elements@);
        }
    }
}

/// A GPU vertex buffer: one buffer handle, created with an immutable upload
/// of a whole vertex array.
#[derive(Debug)]
pub struct VertexBuffer {
    id: u32,
}

impl VertexBuffer {
    /// The GPU handle this buffer owns.
    pub closed spec fn handle(&self) -> u32 {
        self.id
    }

    /// Create a buffer holding `vertices`, uploaded flattened in memory
    /// order.
    pub fn new(ctx: &mut GlContext, vertices: Vec<Vertex>) -> (b: VertexBuffer)
        requires
            old(ctx).upcoming_id() < u32::MAX,
            vertices@.len() * 8 <= usize::MAX,
        ensures
            b.handle() == old(ctx).upcoming_id(),
            final(ctx).upcoming_id() == old(ctx).upcoming_id() + 1,
            final(ctx).calls() == old(ctx).calls().push(
                GpuCall::CreateVertexBuffer {
                    id: b.handle(),
                    data: flatten_vertices_v(vertices@),
                },
            ),
    {
        let id: u32 = ctx.fresh_id();
        let data = flatten_vertices(&vertices);
        ctx.emit(Cmd::CreateVertexBuffer { id, data });
        VertexBuffer { id }
    }

    /// Select this buffer for subsequent vertex-buffer state changes.
    pub fn bind(&self, ctx: &mut GlContext)
        ensures
            final(ctx).calls() == old(ctx).calls().push(
                GpuCall::BindVertexBuffer { id: self.handle() },
            ),
            final(ctx).upcoming_id() == old(ctx).upcoming_id(),
    {
        ctx.emit(Cmd::BindVertexBuffer { id: self.id });
    }

    /// Deselect whatever vertex buffer is bound.
    pub fn unbind(&self, ctx: &mut GlContext)
        ensures
            final(ctx).calls() == old(ctx).calls().push(GpuCall::BindVertexBuffer { id: 0 }),
            final(ctx).upcoming_id() == old(ctx).upcoming_id(),
    {
        ctx.emit(Cmd::BindVertexBuffer { id: 0 });
    }

    /// Release the buffer's handle. Consuming the buffer makes the release
    /// happen exactly once.
    pub fn delete(self, ctx: &mut GlContext)
        ensures
            final(ctx).calls() == old(ctx).calls().push(
                GpuCall::DeleteBuffer { id: self.handle() },
            ),
            final(ctx).upcoming_id() == old(ctx).upcoming_id(),
    {
        ctx.emit(Cmd::DeleteBuffer { id: self.id });
    }
}

/// A GPU index buffer: one buffer handle and the number of indices it
/// holds, for later draw-call sizing.
#[derive(Debug)]
pub struct IndexBuffer {
    /// How many indices the buffer holds.
    pub count: u32,
    id: u32,
}

impl IndexBuffer {
    /// The GPU handle this buffer owns.
    pub closed spec fn handle(&self) -> u32 {
        self.id
    }

    /// The number of indices, as a specification value.
    pub closed spec fn count_spec(&self) -> u32 {
        self.count
    }

    /// The number of indices the buffer holds.
    pub fn count(&self) -> (c: u32)
        ensures
            c == self.count_spec(),
    {
        self.count
    }

    /// Create a buffer holding `indices` and remember their number.
    pub fn new(ctx: &mut GlContext, indices: Vec<u32>) -> (b: IndexBuffer)
        requires
            old(ctx).upcoming_id() < u32::MAX,
            indices@.len() <= u32::MAX,
        ensures
            b.handle() == old(ctx).upcoming_id(),
            b.count_spec() == indices@.len(),
            final(ctx).upcoming_id() == old(ctx).upcoming_id() + 1,
            final(ctx).calls() == old(ctx).calls().push(
                GpuCall::CreateIndexBuffer { id: b.handle(), data: indices@ },
            ),
    {
        let id: u32 = ctx.fresh_id();
        let count: u32 = indices.len() as u32;
        ctx.emit(Cmd::CreateIndexBuffer { id, data: indices });
        IndexBuffer { count, id }
    }

    /// Select this buffer for subsequent index-buffer state changes.
    pub fn bind(&self, ctx: &mut GlContext)
        ensures
            final(ctx).calls() == old(ctx).calls().push(
                GpuCall::BindIndexBuffer { id: self.handle() },
            ),
            final(ctx).upcoming_id() == old(ctx).upcoming_id(),
    {
        ctx.emit(Cmd::BindIndexBuffer { id: self.id });
    }

    /// Deselect whatever index buffer is bound.
    pub fn unbind(&self, ctx: &mut GlContext)
        ensures
            final(ctx).calls() == old(ctx).calls().push(GpuCall::BindIndexBuffer { id: 0 }),
            final(ctx).upcoming_id() == old(ctx).upcoming_id(),
    {
        ctx.emit(Cmd::BindIndexBuffer { id: 0 });
    }

    /// Release the buffer's handle, exactly once.
    pub fn delete(self, ctx: &mut GlContext)
        ensures
            final(ctx).calls() == old(ctx).calls().push(
                GpuCall::DeleteBuffer { id: self.handle() },
            ),
            final(ctx).upcoming_id() == old(ctx).upcoming_id(),
    {
        ctx.emit(Cmd::DeleteBuffer { id: self.id });
    }
}

/// The attribute-registration commands `add_buffer` records after its two
/// binds: for each layout element in push order, enable its slot and
/// describe its pointer with the layout's stride and the element's running
/// byte offset.
pub open spec fn attrib_calls_v(elems: Seq<VertexBufferElement>, stride: u32) -> Seq<GpuCall> {
    Seq::new(
        elems.len() * 2,
        |k: int|
            if k % 2 == 0 {
                GpuCall::EnableAttrib { slot: (k / 2) as u32 }
            } else {
                GpuCall::AttribPointer {
                    slot: (k / 2) as u32,
                    count: elems[k / 2].count,
                    gl_type: elems[k / 2].gl_type,
                    normalized: elems[k / 2].normalized,
                    stride: stride,
                    offset: offset_sum(elems, k / 2) as u32,
                }
            },
    )
}

/// A GPU vertex-array object: the attribute-binding state tying one vertex
/// buffer to one layout.
#[derive(Debug)]
pub struct VertexArray {
    id: u32,
}

impl VertexArray {
    /// The GPU handle this vertex array owns.
    pub closed spec fn handle(&self) -> u32 {
        self.id
    }

    /// Create an empty vertex-array object.
    pub fn new(ctx: &mut GlContext) -> (a: VertexArray)
        requires
            old(ctx).upcoming_id() < u32::MAX,
        ensures
            a.handle() == old(ctx).upcoming_id(),
            final(ctx).upcoming_id() == old(ctx).upcoming_id() + 1,
            final(ctx).calls() == old(ctx).calls().push(
                GpuCall::CreateVertexArray { id: a.handle() },
            ),
    {
        let id: u32 = ctx.fresh_id();
        ctx.emit(Cmd::CreateVertexArray { id });
        VertexArray { id }
    }

    /// Select this vertex array for subsequent attribute state changes.
    pub fn bind(&self, ctx: &mut GlContext)
        ensures
            final(ctx).calls() == old(ctx).calls().push(
                GpuCall::BindVertexArray { id: self.handle() },
            ),
            final(ctx).upcoming_id() == old(ctx).upcoming_id(),
    {
        ctx.emit(Cmd::BindVertexArray { id: self.id });
    }

    /// Register `vertex_buffer` under `layout`: bind the array, bind the
    /// buffer, then for each layout element in push order enable its slot
    /// and describe its pointer, the byte offset advancing by each
    /// element's byte size.
    pub fn add_buffer(
        &self,
        ctx: &mut GlContext,
        vertex_buffer: &VertexBuffer,
        layout: &VertexBufferLayout,
    )
        requires
            layout.wf(),
            layout.elements@.len() <= u32::MAX,
        ensures
            final(ctx).calls() == old(ctx).calls().push(
                GpuCall::BindVertexArray { id: self.handle() },
            ).push(GpuCall::BindVertexBuffer { id: vertex_buffer.handle() }) + attrib_calls_v(
                layout.elements@,
                layout.stride,
            ),
            final(ctx).upcoming_id() == old(ctx).upcoming_id(),
    {
        self.bind(ctx);
        vertex_buffer.bind(ctx);
        let ghost base = ctx.calls();
        let ghost elems = layout.elements@;
        let mut offset: u32 = 0;
        let mut i: usize = 0;
        proof {
            assert(elems.take(0) =~= Seq::<VertexBufferElement>::empty());
            assert(ctx.calls() =~= base + attrib_calls_v(elems, layout.stride).take(0));
        }
        while i < layout.elements.len()
            invariant
                i <= elems.len(),
                elems == layout.elements@,
                layout.wf(),
                elems.len() <= u32::MAX,
                offset == offset_sum(elems, i as int),
                ctx.calls() == base + attrib_calls_v(elems, layout.stride).take(2 * i),
                ctx.upcoming_id() == old(ctx).upcoming_id(),
            decreases elems.len() - i,
        {
            let e: VertexBufferElement = layout.elements[i];
            ctx.emit(Cmd::EnableAttrib { slot: i as u32 });
            ctx.emit(
                Cmd::AttribPointer {
                    slot: i as u32,
                    count: e.count,
                    gl_type: e.gl_type,
                    normalized: e.normalized,
                    stride: layout.stride,
                    offset,
                },
            );
            proof {
                let full = attrib_calls_v(elems, layout.stride);
                assert((2 * i as int) % 2 == 0);
                assert((2 * i as int + 1) % 2 == 1);
                assert((2 * i as int) / 2 == i as int);
                assert((2 * i as int + 1) / 2 == i as int);
                lemma_offset_le_total(elems, i as int);
                assert(full.take(2 * (i + 1) as int) =~= full.take(2 * i as int).push(
                    full[2 * i as int],
                ).push(full[2 * i as int + 1]));
                lemma_offset_step(elems, i as int);
                lemma_offset_le_total(elems, i as int + 1);
                assert(elem_bytes(elems[i as int]) == e.count * e.gl_size);
            }
            offset = offset + e.count * e.gl_size;
            i += 1;
        }
        proof {
            let full = attrib_calls_v(elems, layout.stride);
            assert(full.take(2 * i as int) =~= full);
        }
    }

    /// Deselect whatever vertex array is bound.
    pub fn unbind(&self, ctx: &mut GlContext)
        ensures
            final(ctx).calls() == old(ctx).calls().push(GpuCall::BindVertexArray { id: 0 }),
            final(ctx).upcoming_id() == old(ctx).upcoming_id(),
    {
        ctx.emit(Cmd::BindVertexArray { id: 0 });
    }

    /// Release the vertex array's handle, exactly once.
    pub fn delete(self, ctx: &mut GlContext)
        ensures
            final(ctx).calls() == old(ctx).calls().push(
                GpuCall::DeleteVertexArray { id: self.handle() },
            ),
            final(ctx).upcoming_id() == old(ctx).upcoming_id(),
    {
        ctx.emit(Cmd::DeleteVertexArray { id: self.id });
    }
}

} // verus!
