use palantir::camera::Camera;
use palantir::context::{Cmd, GlContext};
use palantir::fixed::Fx;
use palantir::light::Light;
use palantir::objects::TLight;
use palantir::primitives::{Cube, Disk, Plane};
use palantir::resources::{ResourceError, Resources};
use palantir::scene::Scene;

#[test]
fn cube_builds_one_submesh_with_full_faces() {
    let mut ctx = GlContext::new();
    let mesh = Cube::new(&mut ctx, Fx::one());
    assert_eq!(mesh.submeshes.len(), 1);
    assert_eq!(mesh.submeshes[0].index_buffer.count, 36);
    assert!(mesh.materials.is_empty());
    assert!(mesh.shaders.is_empty());
    let cmds = ctx.commands();
    match &cmds[0] {
        Cmd::CreateVertexBuffer { data, .. } => {
            // 24 vertices of 8 scalars each.
            assert_eq!(data.len(), 192);
            // The first vertex: corner (1, 1, 1), normal +Y, zero texture.
            assert_eq!(&data[0..8], &[1_000_000, 1_000_000, 1_000_000, 0, 1_000_000, 0, 0, 0]);
        }
        other => panic!("expected the vertex upload, got {:?}", other),
    }
    match &cmds[1] {
        Cmd::CreateIndexBuffer { data, .. } => {
            assert_eq!(data.len(), 36);
            assert_eq!(&data[0..6], &[0, 1, 2, 0, 2, 3]);
            assert_eq!(&data[30..36], &[20, 21, 22, 20, 22, 23]);
        }
        other => panic!("expected the index upload, got {:?}", other),
    }
}

#[test]
fn plane_is_a_quad_with_texture_corners() {
    let mut ctx = GlContext::new();
    let mesh = Plane::new(&mut ctx, Fx::one());
    assert_eq!(mesh.submeshes.len(), 1);
    assert_eq!(mesh.submeshes[0].index_buffer.count, 6);
    match &ctx.commands()[0] {
        Cmd::CreateVertexBuffer { data, .. } => {
            assert_eq!(data.len(), 32);
            // First corner (1, 0, 1), normal +Y, texture (1, 1).
            assert_eq!(
                &data[0..8],
                &[1_000_000, 0, 1_000_000, 0, 1_000_000, 0, 1_000_000, 1_000_000]
            );
        }
        other => panic!("expected the vertex upload, got {:?}", other),
    }
}

#[test]
fn disk_indices_fan_around_the_center() {
    let indices = Disk::generate_indices(3);
    assert_eq!(indices, vec![3, 1, 0, 3, 2, 1, 3, 0, 2]);
    let indices = Disk::generate_indices(1);
    assert_eq!(indices, vec![1, 0, 0]);
}

#[test]
fn resource_names_resolve_below_the_root() {
    let res = Resources::new(String::from("/opt/app/assets"));
    assert_eq!(res.root_path(), "/opt/app/assets");
    assert_eq!(
        res.resource_name_to_path("shaders/lambert.glsl"),
        "/opt/app/assets/shaders/lambert.glsl"
    );
    assert_eq!(res.resource_name_to_path(""), "/opt/app/assets/");
}

#[test]
fn resource_error_describes_itself() {
    assert_eq!(
        ResourceError::FailedToGetExePath.describe(),
        "Could not get application executable path."
    );
    assert_eq!(ResourceError::Io(String::from("missing file")).describe(), "missing file");
}

#[test]
fn context_hands_out_fresh_handles_and_replays() {
    let mut ctx = GlContext::new();
    let t1 = palantir::texture::Texture::new(&mut ctx, 1, 1, vec![0, 0, 0]);
    let t2 = palantir::texture::Texture::new(&mut ctx, 1, 1, vec![0, 0, 0]);
    assert_eq!(t1.width(), 1);
    assert_eq!(t2.height(), 1);
    let taken = ctx.take_commands();
    assert_eq!(taken.len(), 2);
    assert_eq!(ctx.commands().len(), 0);
    // The counter survives the take: the next object gets a fresh handle.
    let t3 = palantir::texture::Texture::new(&mut ctx, 1, 1, vec![0, 0, 0]);
    t3.bind(&mut ctx, 0);
    match &ctx.commands()[0] {
        Cmd::CreateTexture { id, .. } => assert_eq!(*id, 3),
        other => panic!("expected the texture upload, got {:?}", other),
    }
}

#[test]
fn scene_holds_camera_and_light() {
    let camera = Camera::new(
        Fx::from_raw(927_295),
        Fx::from_raw(500_000),
        Fx::from_raw(10_000),
        Fx::from_raw(1_000_000_000),
        Fx::one(),
    );
    let mut scene = Scene::new(camera, Light::new());
    assert_eq!(scene.camera().distance().raw, 1_300_000);
    scene.camera_mut().zoom(Fx::from_raw(1_000_000));
    assert!(scene.camera().distance().raw >= 10_000);
    scene.light_mut().set_power(Fx::from_raw(3_000_000));
    assert_eq!(scene.light().power().raw, 3_000_000);
}
