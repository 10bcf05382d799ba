use palantir::algebra::{Vec2, Vec3};
use palantir::buffers::{IndexBuffer, VertexArray, VertexBuffer, VertexBufferLayout};
use palantir::context::{Cmd, GlContext, GL_FLOAT, GL_TRUE, GL_UNSIGNED_BYTE, GL_UNSIGNED_INT};
use palantir::fixed::Fx;
use palantir::vertex::Vertex;

fn quad_vertices() -> Vec<Vertex> {
    let v = |x: i64, z: i64, u: i64, w: i64| {
        Vertex::new(
            Vec3::new(Fx::from_raw(x), Fx::zero(), Fx::from_raw(z)),
            Vec3::new(Fx::zero(), Fx::one(), Fx::zero()),
            Vec2::new(Fx::from_raw(u), Fx::from_raw(w)),
        )
    };
    vec![
        v(1_000_000, 1_000_000, 1_000_000, 1_000_000),
        v(1_000_000, -1_000_000, 1_000_000, 0),
        v(-1_000_000, -1_000_000, 0, 0),
        v(-1_000_000, 1_000_000, 0, 1_000_000),
    ]
}

#[test]
fn layout_stride_is_sum_of_element_bytes() {
    let mut layout = VertexBufferLayout::new();
    assert_eq!(layout.stride, 0);
    layout.push::<Fx>(3);
    assert_eq!(layout.stride, 12);
    layout.push::<Fx>(3);
    assert_eq!(layout.stride, 24);
    layout.push::<Fx>(2);
    assert_eq!(layout.stride, 32);
    assert_eq!(layout.elements.len(), 3);
    assert_eq!(layout.elements[0].count, 3);
    assert_eq!(layout.elements[0].gl_type, GL_FLOAT);
    assert_eq!(layout.elements[0].gl_size, 4);
}

#[test]
fn layout_mixed_component_types() {
    let mut layout = VertexBufferLayout::new();
    layout.push::<u8>(4);
    assert_eq!(layout.stride, 4);
    layout.push::<u32>(2);
    assert_eq!(layout.stride, 12);
    assert_eq!(layout.elements[0].gl_type, GL_UNSIGNED_BYTE);
    assert_eq!(layout.elements[0].normalized, GL_TRUE);
    assert_eq!(layout.elements[1].gl_type, GL_UNSIGNED_INT);
}

#[test]
fn add_buffer_offsets_are_partial_sums() {
    let mut ctx = GlContext::new();
    let vb = VertexBuffer::new(&mut ctx, quad_vertices());
    let mut layout = VertexBufferLayout::new();
    layout.push::<Fx>(3);
    layout.push::<Fx>(3);
    layout.push::<Fx>(2);
    let va = VertexArray::new(&mut ctx);
    va.add_buffer(&mut ctx, &vb, &layout);
    let cmds = ctx.commands();
    let mut pointers: Vec<(u32, u32, u32, u32)> = Vec::new();
    for c in cmds.iter() {
        if let Cmd::AttribPointer { slot, count, stride, offset, .. } = c {
            pointers.push((*slot, *count, *stride, *offset));
        }
    }
    assert_eq!(pointers, vec![(0, 3, 32, 0), (1, 3, 32, 12), (2, 2, 32, 24)]);
}

#[test]
fn vertex_buffer_uploads_flattened_scalars() {
    let mut ctx = GlContext::new();
    let _vb = VertexBuffer::new(&mut ctx, quad_vertices());
    let cmds = ctx.commands();
    assert_eq!(cmds.len(), 1);
    match &cmds[0] {
        Cmd::CreateVertexBuffer { id, data } => {
            assert_eq!(*id, 1);
            assert_eq!(data.len(), 32);
            // First vertex: position, normal, then texture coordinates.
            assert_eq!(
                &data[0..8],
                &[1_000_000, 0, 1_000_000, 0, 1_000_000, 0, 1_000_000, 1_000_000]
            );
        }
        other => panic!("expected a vertex buffer upload, got {:?}", other),
    }
}

#[test]
fn index_buffer_remembers_count() {
    let mut ctx = GlContext::new();
    let ib = IndexBuffer::new(&mut ctx, vec![0, 1, 2, 0, 2, 3]);
    assert_eq!(ib.count, 6);
    assert_eq!(ib.count(), 6);
    match &ctx.commands()[0] {
        Cmd::CreateIndexBuffer { data, .. } => assert_eq!(data, &vec![0u32, 1, 2, 0, 2, 3]),
        other => panic!("expected an index buffer upload, got {:?}", other),
    }
}

#[test]
fn handles_are_fresh_and_deletes_release_them() {
    let mut ctx = GlContext::new();
    let vb = VertexBuffer::new(&mut ctx, quad_vertices());
    let ib = IndexBuffer::new(&mut ctx, vec![0, 1, 2]);
    let va = VertexArray::new(&mut ctx);
    vb.delete(&mut ctx);
    ib.delete(&mut ctx);
    va.delete(&mut ctx);
    let cmds = ctx.commands();
    let mut deletes: Vec<u32> = Vec::new();
    for c in cmds.iter() {
        match c {
            Cmd::DeleteBuffer { id } => deletes.push(*id),
            Cmd::DeleteVertexArray { id } => deletes.push(*id),
            _ => {}
        }
    }
    assert_eq!(deletes, vec![1, 2, 3]);
}

#[test]
fn unbind_selects_no_object() {
    let mut ctx = GlContext::new();
    let vb = VertexBuffer::new(&mut ctx, quad_vertices());
    let ib = IndexBuffer::new(&mut ctx, vec![0, 1, 2]);
    let va = VertexArray::new(&mut ctx);
    vb.unbind(&mut ctx);
    ib.unbind(&mut ctx);
    va.unbind(&mut ctx);
    let cmds = ctx.commands();
    let n = cmds.len();
    assert!(matches!(&cmds[n - 3], Cmd::BindVertexBuffer { id: 0 }));
    assert!(matches!(&cmds[n - 2], Cmd::BindIndexBuffer { id: 0 }));
    assert!(matches!(&cmds[n - 1], Cmd::BindVertexArray { id: 0 }));
}
