use palantir::algebra::{Mat4, Vec2, Vec3};
use palantir::context::{Cmd, GlContext, GL_TRIANGLES, GL_UNSIGNED_INT};
use palantir::fixed::Fx;
use palantir::light::Light;
use palantir::material::Material;
use palantir::mesh::{Mesh, SubMesh};
use palantir::objects::{MatrixCamera, TLight};
use palantir::renderer::{resolve_material, resolve_shader, Renderer};
use palantir::shader::{BuildOutcome, ShaderProgram};

fn linked_program(ctx: &mut GlContext) -> ShaderProgram {
    let pending = ShaderProgram::from_shaders(ctx, &Vec::new());
    pending.complete(BuildOutcome::success()).unwrap()
}

fn unit_quad(ctx: &mut GlContext, shader_index: Option<usize>) -> SubMesh {
    let v = |x: i64, y: i64| {
        palantir::vertex::Vertex::new(
            Vec3::new(Fx::from_raw(x), Fx::from_raw(y), Fx::zero()),
            Vec3::new(Fx::zero(), Fx::zero(), Fx::one()),
            Vec2::new(Fx::from_raw(x), Fx::from_raw(y)),
        )
    };
    let vertices = vec![v(0, 0), v(1_000_000, 0), v(1_000_000, 1_000_000), v(0, 1_000_000)];
    let indices = vec![0, 1, 2, 0, 2, 3];
    SubMesh::new(ctx, vertices, indices, None, shader_index)
}

#[test]
fn empty_shader_list_short_circuits_index_lookup() {
    let mut ctx = GlContext::new();
    let submesh = unit_quad(&mut ctx, Some(2));
    let mesh = Mesh::new(vec![submesh]);
    assert_eq!(resolve_shader(&mesh, &mesh.submeshes[0]), None);
}

#[test]
fn missing_shader_index_falls_back_to_default() {
    let mut ctx = GlContext::new();
    let submesh = unit_quad(&mut ctx, None);
    let mut mesh = Mesh::new(vec![submesh]);
    mesh.shaders.push(linked_program(&mut ctx));
    assert_eq!(resolve_shader(&mesh, &mesh.submeshes[0]), None);
}

#[test]
fn present_shader_index_is_used() {
    let mut ctx = GlContext::new();
    let submesh = unit_quad(&mut ctx, Some(0));
    let mut mesh = Mesh::new(vec![submesh]);
    mesh.shaders.push(linked_program(&mut ctx));
    assert_eq!(resolve_shader(&mesh, &mesh.submeshes[0]), Some(0));
}

#[test]
fn material_resolution_follows_the_same_fallback() {
    let mut ctx = GlContext::new();
    let submesh = unit_quad(&mut ctx, None);
    let mut mesh = Mesh::new(vec![submesh]);
    mesh.submeshes[0].material_index = Some(1);
    // No materials: the index is ignored.
    assert_eq!(resolve_material(&mesh, &mesh.submeshes[0]), None);
    mesh.materials.push(Material::new(
        Vec3::new(Fx::one(), Fx::one(), Fx::one()),
        None,
    ));
    mesh.materials.push(Material::new(
        Vec3::new(Fx::zero(), Fx::one(), Fx::zero()),
        None,
    ));
    assert_eq!(resolve_material(&mesh, &mesh.submeshes[0]), Some(1));
}

#[test]
fn draw_with_empty_shader_list_uses_default_program() {
    let mut ctx = GlContext::new();
    let default = linked_program(&mut ctx);
    let default_id = default.id();
    let mut renderer = Renderer::new(default);
    let submesh = unit_quad(&mut ctx, Some(2));
    let mut mesh = Mesh::new(vec![submesh]);
    let camera = MatrixCamera::new(Mat4::identity(), Mat4::identity());
    let light = Light::new();
    ctx.take_commands();
    renderer.draw(&mut ctx, &mut mesh, &camera, &light, GL_TRIANGLES);
    let cmds = ctx.commands();
    let mut used: Vec<u32> = Vec::new();
    for c in cmds.iter() {
        if let Cmd::UseProgram { id } = c {
            used.push(*id);
        }
    }
    assert_eq!(used, vec![default_id]);
}

#[test]
fn draw_with_assigned_shader_uses_it() {
    let mut ctx = GlContext::new();
    let default = linked_program(&mut ctx);
    let own = linked_program(&mut ctx);
    let own_id = own.id();
    let default_id = default.id();
    assert_ne!(own_id, default_id);
    let mut renderer = Renderer::new(default);
    let submesh = unit_quad(&mut ctx, Some(0));
    let mut mesh = Mesh::new(vec![submesh]);
    mesh.shaders.push(own);
    let camera = MatrixCamera::new(Mat4::identity(), Mat4::identity());
    let light = Light::new();
    ctx.take_commands();
    renderer.draw(&mut ctx, &mut mesh, &camera, &light, GL_TRIANGLES);
    let mut used: Vec<u32> = Vec::new();
    for c in ctx.commands().iter() {
        if let Cmd::UseProgram { id } = c {
            used.push(*id);
        }
    }
    assert_eq!(used, vec![own_id]);
}

#[test]
fn draw_unit_quad_end_to_end() {
    let mut ctx = GlContext::new();
    let default = linked_program(&mut ctx);
    let mut renderer = Renderer::new(default);
    let submesh = unit_quad(&mut ctx, None);
    let mut mesh = Mesh::new(vec![submesh]);
    let camera = MatrixCamera::new(Mat4::identity(), Mat4::identity());
    let light = Light::new();
    renderer.draw(&mut ctx, &mut mesh, &camera, &light, GL_TRIANGLES);
    let cmds = ctx.commands();
    // Exactly one draw call: six unsigned 32-bit indices from offset 0.
    let mut draws: usize = 0;
    for c in cmds.iter() {
        if let Cmd::DrawElements { mode, count, index_kind, offset } = c {
            draws += 1;
            assert_eq!(*mode, GL_TRIANGLES);
            assert_eq!(*count, 6);
            assert_eq!(*index_kind, GL_UNSIGNED_INT);
            assert_eq!(*offset, 0);
        }
    }
    assert_eq!(draws, 1);
    // The material diffuse uploaded is the renderer's default: magenta.
    let mut diffuse_slot: Option<usize> = None;
    for c in cmds.iter() {
        if let Cmd::QueryUniformLocation { name, slot, .. } = c {
            if name.as_str() == "material.diffuse" {
                diffuse_slot = Some(*slot);
            }
        }
    }
    let diffuse_slot = diffuse_slot.expect("the diffuse uniform was never resolved");
    let mut found = false;
    for c in cmds.iter() {
        if let Cmd::UploadVector3 { slot, value, .. } = c {
            if *slot == diffuse_slot {
                assert_eq!(value.x.raw, 1_000_000);
                assert_eq!(value.y.raw, 0);
                assert_eq!(value.z.raw, 1_000_000);
                found = true;
            }
        }
    }
    assert!(found, "the default diffuse color was never uploaded");
    // The identity view and projection were uploaded as is.
    let mut view_slot: Option<usize> = None;
    for c in cmds.iter() {
        if let Cmd::QueryUniformLocation { name, slot, .. } = c {
            if name.as_str() == "view" {
                view_slot = Some(*slot);
            }
        }
    }
    let view_slot = view_slot.expect("the view uniform was never resolved");
    for c in cmds.iter() {
        if let Cmd::UploadMatrix4 { slot, value, .. } = c {
            if *slot == view_slot {
                assert_eq!(*value, Mat4::identity());
            }
        }
    }
}

#[test]
fn clear_sets_color_and_clears_both_buffers() {
    let mut ctx = GlContext::new();
    let renderer = Renderer::new(linked_program(&mut ctx));
    ctx.take_commands();
    renderer.clear(&mut ctx, Fx::from_raw(100_000), Fx::from_raw(100_000), Fx::from_raw(100_000));
    let cmds = ctx.commands();
    assert_eq!(cmds.len(), 2);
    match &cmds[0] {
        Cmd::ClearColor { r, g, b, a } => {
            assert_eq!(r.raw, 100_000);
            assert_eq!(g.raw, 100_000);
            assert_eq!(b.raw, 100_000);
            assert_eq!(a.raw, 1_000_000);
        }
        other => panic!("expected the clear color, got {:?}", other),
    }
    match &cmds[1] {
        Cmd::Clear { mask } => assert_eq!(*mask, 0x4100),
        other => panic!("expected the clear, got {:?}", other),
    }
}

#[test]
fn material_with_texture_binds_it_and_raises_flag() {
    let mut ctx = GlContext::new();
    let mut program = linked_program(&mut ctx);
    let texture = palantir::texture::Texture::new(&mut ctx, 1, 1, vec![1, 2, 3]);
    let material = Material::new(Vec3::new(Fx::one(), Fx::zero(), Fx::zero()), Some(texture));
    ctx.take_commands();
    material.send_to_shader(&mut ctx, &mut program);
    let cmds = ctx.commands();
    let mut saw_bind = false;
    let mut flag: Option<bool> = None;
    for c in cmds.iter() {
        match c {
            Cmd::BindTexture { unit, .. } => {
                assert_eq!(*unit, 0);
                saw_bind = true;
            }
            Cmd::UploadBool { value, .. } => flag = Some(*value),
            _ => {}
        }
    }
    assert!(saw_bind);
    assert_eq!(flag, Some(true));
}

#[test]
fn material_without_texture_lowers_flag() {
    let mut ctx = GlContext::new();
    let mut program = linked_program(&mut ctx);
    let material = Material::new(Vec3::new(Fx::one(), Fx::zero(), Fx::zero()), None);
    ctx.take_commands();
    material.send_to_shader(&mut ctx, &mut program);
    let mut flag: Option<bool> = None;
    for c in ctx.commands().iter() {
        if let Cmd::UploadBool { value, .. } = c {
            flag = Some(*value);
        }
    }
    assert_eq!(flag, Some(false));
}

#[test]
fn light_direction_is_third_column_of_its_matrix() {
    let mut light = Light::new();
    assert_eq!(light.direction(), Vec3::new(Fx::zero(), Fx::zero(), Fx::one()));
    let m = Mat4::from_cols([
        1_000_000, 0, 0, 0, 0, 1_000_000, 0, 0, 7, 8, 9, 0, 0, 0, 0, 1_000_000,
    ]);
    light.set_matrix(m);
    assert_eq!(
        light.direction(),
        Vec3::new(Fx::from_raw(7), Fx::from_raw(8), Fx::from_raw(9))
    );
    assert_eq!(light.ambient_strength().raw, 250_000);
    assert_eq!(light.power().raw, 1_000_000);
    light.set_power(Fx::from_raw(2_000_000));
    assert_eq!(light.power().raw, 2_000_000);
}
