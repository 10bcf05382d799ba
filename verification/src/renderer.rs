//! The renderer: per-frame clear and per-submesh draw dispatch.
//!
//! For each submesh, in array order, the renderer resolves the effective
//! shader and material (submesh assignment, else the renderer's defaults),
//! binds the shader, pushes the material, uploads the per-draw uniforms,
//! binds the submesh's buffers and records the indexed draw call. The whole
//! dispatch is specified as a fold ([`draw_upto`]) over the submeshes that
//! threads each program's uniform-location cache and accumulates the exact
//! command stream.

use vstd::prelude::*;

use crate::algebra::{Mat4, Vec3};
use crate::context::{Cmd, GlContext, GpuCall, GL_COLOR_BUFFER_BIT, GL_DEPTH_BUFFER_BIT,
    GL_UNSIGNED_INT};
use crate::fixed::{Fx, FX_SCALE};
use crate::material::{material_cache_after_v, material_calls_v, Material};
use crate::mesh::{Mesh, SubMesh};
use crate::objects::{TCamera, TLight};
use crate::shader::{cache_after_v, program_bind_calls_v, query_calls_v, uniform_slot_v,
    ShaderProgram};

verus! {

/// Cap on uniform-cache sizes and submesh counts accepted by a draw call,
/// chosen so the caches cannot outgrow `usize` even on a 32-bit host.
pub const CACHE_ROOM: usize = 0x1000_0000;

/// The specification-level state of a shader program: its handle, its
/// uniform-location cache, and its held texture.
pub struct ProgramV {
    pub handle: u32,
    pub cache: Seq<Seq<char>>,
    pub tex: Option<u32>,
}

/// The specification-level state of a material: its diffuse color and its
/// texture handle.
pub struct MaterialV {
    pub diffuse: Vec3,
    pub tex: Option<u32>,
}

/// The specification-level state of a program value.
pub open spec fn prog_of(p: ShaderProgram) -> ProgramV {
    ProgramV { handle: p.handle(), cache: p.cache_v(), tex: p.texture_handle() }
}

/// The specification-level states of a program list.
pub open spec fn progs_of(ps: Seq<ShaderProgram>) -> Seq<ProgramV> {
    ps.map_values(|p: ShaderProgram| prog_of(p))
}

/// The specification-level states of a material list.
pub open spec fn materials_of(ms: Seq<Material>) -> Seq<MaterialV> {
    ms.map_values(|m: Material| MaterialV { diffuse: m.diffuse_spec(), tex: m.texture_handle() })
}

/// Everything a draw call uploads besides the per-submesh state: the three
/// matrices, the light values, the primitive mode, and the renderer's
/// default material.
pub struct DrawEnv {
    pub model: Seq<int>,
    pub view: Seq<int>,
    pub proj: Seq<int>,
    pub light_dir: Vec3,
    pub light_color: Vec3,
    pub ambient: int,
    pub power: int,
    pub mode: u32,
    pub default_diffuse: Vec3,
    pub default_tex: Option<u32>,
}

/// The shader a submesh draws with: its own assignment where the mesh has
/// shaders, else the renderer's default. An empty shader list short-circuits
/// the index lookup.
pub open spec fn resolved_shader_v(shaders_len: int, shader_index: Option<usize>) -> Option<
    usize,
> {
    if shaders_len == 0 {
        None
    } else {
        shader_index
    }
}

/// The material a submesh draws with, resolved the same way.
pub open spec fn resolved_material_v(materials_len: int, material_index: Option<usize>) -> Option<
    usize,
> {
    if materials_len == 0 {
        None
    } else {
        material_index
    }
}

/// The query-and-upload commands of one matrix uniform.
pub open spec fn upload_mat4_calls(
    program: u32,
    cache: Seq<Seq<char>>,
    name: Seq<char>,
    value: Seq<int>,
) -> Seq<GpuCall> {
    query_calls_v(program, cache, name) + seq![
        GpuCall::UploadMatrix4 {
            program,
            slot: uniform_slot_v(cache, name) as usize,
            value,
        },
    ]
}

/// The query-and-upload commands of one vector uniform.
pub open spec fn upload_vec3_calls(
    program: u32,
    cache: Seq<Seq<char>>,
    name: Seq<char>,
    v: Vec3,
) -> Seq<GpuCall> {
    query_calls_v(program, cache, name) + seq![
        GpuCall::UploadVector3 {
            program,
            slot: uniform_slot_v(cache, name) as usize,
            x: v.x.raw as int,
            y: v.y.raw as int,
            z: v.z.raw as int,
        },
    ]
}

/// The query-and-upload commands of one scalar uniform.
pub open spec fn upload_float_calls(
    program: u32,
    cache: Seq<Seq<char>>,
    name: Seq<char>,
    value: int,
) -> Seq<GpuCall> {
    query_calls_v(program, cache, name) + seq![
        GpuCall::UploadFloat {
            program,
            slot: uniform_slot_v(cache, name) as usize,
            value,
        },
    ]
}

/// A program's uniform-location cache after one submesh draw: the two
/// material names, then the seven per-draw uniform names, resolved in
/// upload order.
pub open spec fn submesh_cache_after_v(cache: Seq<Seq<char>>) -> Seq<Seq<char>> {
    let c1 = material_cache_after_v(cache);
    let c2 = cache_after_v(c1, "model"@);
    let c3 = cache_after_v(c2, "view"@);
    let c4 = cache_after_v(c3, "projection"@);
    let c5 = cache_after_v(c4, "light_direction"@);
    let c6 = cache_after_v(c5, "light_color"@);
    let c7 = cache_after_v(c6, "light_ambient_strength"@);
    cache_after_v(c7, "light_power"@)
}

/// The commands one submesh draw records: bind the shader, push the
/// material, upload model/view/projection and the four light uniforms, bind
/// the vertex array and the index buffer, and draw `count` unsigned 32-bit
/// indices from offset 0.
pub open spec fn submesh_draw_calls_v(
    prog: ProgramV,
    mat: MaterialV,
    env: DrawEnv,
    va: u32,
    ib: u32,
    count: u32,
) -> Seq<GpuCall> {
    let h = prog.handle;
    let c0 = prog.cache;
    let c1 = material_cache_after_v(c0);
    let c2 = cache_after_v(c1, "model"@);
    let c3 = cache_after_v(c2, "view"@);
    let c4 = cache_after_v(c3, "projection"@);
    let c5 = cache_after_v(c4, "light_direction"@);
    let c6 = cache_after_v(c5, "light_color"@);
    let c7 = cache_after_v(c6, "light_ambient_strength"@);
    program_bind_calls_v(h, prog.tex) + material_calls_v(
        h,
        c0,
        mat.diffuse.x.raw as int,
        mat.diffuse.y.raw as int,
        mat.diffuse.z.raw as int,
        mat.tex,
    ) + upload_mat4_calls(h, c1, "model"@, env.model) + upload_mat4_calls(h, c2, "view"@, env.view)
        + upload_mat4_calls(h, c3, "projection"@, env.proj) + upload_vec3_calls(
        h,
        c4,
        "light_direction"@,
        env.light_dir,
    ) + upload_vec3_calls(h, c5, "light_color"@, env.light_color) + upload_float_calls(
        h,
        c6,
        "light_ambient_strength"@,
        env.ambient,
    ) + upload_float_calls(h, c7, "light_power"@, env.power) + seq![
        GpuCall::BindVertexArray { id: va },
        GpuCall::BindIndexBuffer { id: ib },
        GpuCall::DrawElements { mode: env.mode, count, index_kind: GL_UNSIGNED_INT, offset: 0 },
    ]
}

/// The result of folding a draw over a prefix of the submeshes: the default
/// program's state, the mesh programs' states, and the commands recorded.
pub struct DrawResult {
    pub default: ProgramV,
    pub shaders: Seq<ProgramV>,
    pub calls: Seq<GpuCall>,
}

/// The draw fold after the first `n` submeshes: each step resolves its
/// shader and material, appends the submesh's draw commands, and updates
/// the used program's uniform-location cache.
pub open spec fn draw_upto(
    default0: ProgramV,
    shaders0: Seq<ProgramV>,
    submeshes: Seq<SubMesh>,
    materials: Seq<MaterialV>,
    env: DrawEnv,
    n: int,
) -> DrawResult
    decreases n,
{
    if n <= 0 {
        DrawResult { default: default0, shaders: shaders0, calls: Seq::empty() }
    } else {
        let prev = draw_upto(default0, shaders0, submeshes, materials, env, n - 1);
        let sm = submeshes[n - 1];
        let choice = resolved_shader_v(shaders0.len() as int, sm.shader_index);
        let prog = match choice {
            Some(i) => prev.shaders[i as int],
            None => prev.default,
        };
        let mat = match resolved_material_v(materials.len() as int, sm.material_index) {
            Some(i) => materials[i as int],
            None => MaterialV { diffuse: env.default_diffuse, tex: env.default_tex },
        };
        let step = submesh_draw_calls_v(
            prog,
            mat,
            env,
            sm.vertex_array.handle(),
            sm.index_buffer.handle(),
            sm.index_buffer.count_spec(),
        );
        let prog2 = ProgramV {
            handle: prog.handle,
            cache: submesh_cache_after_v(prog.cache),
            tex: prog.tex,
        };
        match choice {
            Some(i) => DrawResult {
                default: prev.default,
                shaders: prev.shaders.update(i as int, prog2),
                calls: prev.calls + step,
            },
            None => DrawResult {
                default: prog2,
                shaders: prev.shaders,
                calls: prev.calls + step,
            },
        }
    }
}

/// One submesh draw grows a cache by at most the nine uniform names it
/// resolves.
pub proof fn lemma_submesh_cache_growth(cache: Seq<Seq<char>>)
    ensures
        cache.len() <= submesh_cache_after_v(cache).len() <= cache.len() + 9,
{
}

/// The draw fold keeps the program list's length, each program's handle
/// and texture, and grows each uniform-location cache by at most nine
/// names per submesh drawn.
pub proof fn lemma_draw_upto_frame(
    default0: ProgramV,
    shaders0: Seq<ProgramV>,
    submeshes: Seq<SubMesh>,
    materials: Seq<MaterialV>,
    env: DrawEnv,
    n: int,
)
    requires
        0 <= n <= submeshes.len(),
        forall|q: int|
            0 <= q < submeshes.len() ==> ((#[trigger] submeshes[q]).shader_index matches Some(i)
                ==> (shaders0.len() > 0 ==> i < shaders0.len())),
    ensures
        draw_upto(default0, shaders0, submeshes, materials, env, n).shaders.len()
            == shaders0.len(),
        draw_upto(default0, shaders0, submeshes, materials, env, n).default.cache.len()
            <= default0.cache.len() + 9 * n,
        forall|j: int|
            0 <= j < shaders0.len() ==> (#[trigger] draw_upto(
                default0,
                shaders0,
                submeshes,
                materials,
                env,
                n,
            ).shaders[j]).cache.len() <= shaders0[j].cache.len() + 9 * n,
    decreases n,
{
    if n > 0 {
        lemma_draw_upto_frame(default0, shaders0, submeshes, materials, env, n - 1);
        let prev = draw_upto(default0, shaders0, submeshes, materials, env, n - 1);
        let sm = submeshes[n - 1];
        match resolved_shader_v(shaders0.len() as int, sm.shader_index) {
            Some(i) => {
                if 0 <= i < shaders0.len() {
                    lemma_submesh_cache_growth(prev.shaders[i as int].cache);
                }
            },
            None => {
                lemma_submesh_cache_growth(prev.default.cache);
            },
        }
    }
}

/// With an empty shader list, every submesh of a draw goes through the
/// renderer's default program, whatever shader index it carries: the mesh
/// program list comes out of the fold untouched.
pub proof fn lemma_empty_shader_list_draws_with_default(
    default0: ProgramV,
    shaders0: Seq<ProgramV>,
    submeshes: Seq<SubMesh>,
    materials: Seq<MaterialV>,
    env: DrawEnv,
    n: int,
)
    requires
        shaders0.len() == 0,
        0 <= n,
    ensures
        draw_upto(default0, shaders0, submeshes, materials, env, n).shaders == shaders0,
    decreases n,
{
    if n > 0 {
        lemma_empty_shader_list_draws_with_default(
            default0,
            shaders0,
            submeshes,
            materials,
            env,
            n - 1,
        );
    }
}

/// The shader a submesh will draw with: its own assignment where the mesh
/// has a shader list, `None` (the renderer's default) where the list is
/// empty or the submesh claims none. An empty list short-circuits the index
/// lookup, whatever index the submesh carries.
pub fn resolve_shader(mesh: &Mesh, submesh: &SubMesh) -> (r: Option<usize>)
    ensures
        r == resolved_shader_v(mesh.shaders@.len() as int, submesh.shader_index),
{
    if mesh.shaders.len() == 0 {
        None
    } else {
        submesh.shader_index
    }
}

/// The material a submesh will draw with, resolved the same way against
/// the mesh's material list.
pub fn resolve_material(mesh: &Mesh, submesh: &SubMesh) -> (r: Option<usize>)
    ensures
        r == resolved_material_v(mesh.materials@.len() as int, submesh.material_index),
{
    if mesh.materials.len() == 0 {
        None
    } else {
        submesh.material_index
    }
}

/// The renderer: the default shader and the default (magenta, untextured)
/// material that submeshes without their own fall back to.
#[derive(Debug)]
pub struct Renderer {
    default_shader: ShaderProgram,
    default_material: Material,
}

impl Renderer {
    /// The default shader's state.
    pub closed spec fn default_prog(&self) -> ProgramV {
        prog_of(self.default_shader)
    }

    /// The default material's state.
    pub closed spec fn default_material_v(&self) -> MaterialV {
        MaterialV {
            diffuse: self.default_material.diffuse_spec(),
            tex: self.default_material.texture_handle(),
        }
    }

    /// A renderer using `default_shader` and the magenta default material.
    pub fn new(default_shader: ShaderProgram) -> (r: Renderer)
        ensures
            r.default_prog() == prog_of(default_shader),
            r.default_material_v() == (MaterialV {
                diffuse: Vec3 {
                    x: Fx { raw: FX_SCALE },
                    y: Fx { raw: 0 },
                    z: Fx { raw: FX_SCALE },
                },
                tex: None,
            }),
    {
        Renderer {
            default_shader,
            default_material: Material::new(
                Vec3 { x: Fx { raw: FX_SCALE }, y: Fx { raw: 0 }, z: Fx { raw: FX_SCALE } },
                None,
            ),
        }
    }

    /// Set the clear color (alpha fixed at one) and clear the color and
    /// depth buffers.
    pub fn clear(&self, ctx: &mut GlContext, r: Fx, g: Fx, b: Fx)
        ensures
            final(ctx).calls() == old(ctx).calls() + seq![
                GpuCall::ClearColor {
                    r: r.raw as int,
                    g: g.raw as int,
                    b: b.raw as int,
                    a: FX_SCALE as int,
                },
                GpuCall::Clear { mask: GL_COLOR_BUFFER_BIT | GL_DEPTH_BUFFER_BIT },
            ],
            final(ctx).upcoming_id() == old(ctx).upcoming_id(),
    {
        ctx.emit(Cmd::ClearColor { r, g, b, a: Fx { raw: FX_SCALE } });
        ctx.emit(Cmd::Clear { mask: GL_COLOR_BUFFER_BIT | GL_DEPTH_BUFFER_BIT });
        proof {
            assert(ctx.calls() =~= old(ctx).calls() + seq![
                GpuCall::ClearColor {
                    r: r.raw as int,
                    g: g.raw as int,
                    b: b.raw as int,
                    a: FX_SCALE as int,
                },
                GpuCall::Clear { mask: GL_COLOR_BUFFER_BIT | GL_DEPTH_BUFFER_BIT },
            ]);
        }
    }
}

/// The inputs one draw call uploads, gathered from its arguments: the
/// mesh's model matrix, the camera's matrices, the light's values, the
/// primitive mode and the renderer's default material.
pub open spec fn draw_env_of<C: TCamera, L: TLight>(
    model: Seq<int>,
    camera: C,
    light: L,
    mode: u32,
    default_diffuse: Vec3,
    default_tex: Option<u32>,
) -> DrawEnv {
    DrawEnv {
        model,
        view: camera.view_v(),
        proj: camera.proj_v(),
        light_dir: light.direction_v(),
        light_color: light.color_v(),
        ambient: light.ambient_v().raw as int,
        power: light.power_v().raw as int,
        mode,
        default_diffuse,
        default_tex,
    }
}

impl Renderer {
    /// Draw every submesh of `mesh`, in array order: resolve its shader
    /// and material (submesh assignment where the mesh has a list, else
    /// the renderer's defaults), bind, upload the per-draw uniforms, and
    /// record the indexed draw. The recorded commands and the resulting
    /// uniform-cache states are exactly the [`draw_upto`] fold over all
    /// submeshes.
    #[verifier::rlimit(100)]
    pub fn draw<C: TCamera, L: TLight>(
        &mut self,
        ctx: &mut GlContext,
        mesh: &mut Mesh,
        camera: &C,
        light: &L,
        draw_type: u32,
    )
        requires
            camera.inv(),
            light.inv(),
            old(mesh).submeshes@.len() <= CACHE_ROOM,
            old(self).default_prog().cache.len() <= CACHE_ROOM,
            forall|j: int|
                0 <= j < old(mesh).shaders@.len() ==> (#[trigger] old(
                    mesh,
                ).shaders@[j]).cache_v().len() <= CACHE_ROOM,
            forall|k: int|
                0 <= k < old(mesh).submeshes@.len() ==> ((#[trigger] old(
                    mesh,
                ).submeshes@[k]).shader_index matches Some(i) ==> (old(mesh).shaders@.len() > 0
                    ==> i < old(mesh).shaders@.len())),
            forall|k: int|
                0 <= k < old(mesh).submeshes@.len() ==> ((#[trigger] old(
                    mesh,
                ).submeshes@[k]).material_index matches Some(i) ==> (old(mesh).materials@.len()
                    > 0 ==> i < old(mesh).materials@.len())),
        ensures
            final(ctx).calls() == old(ctx).calls() + draw_upto(
                old(self).default_prog(),
                progs_of(old(mesh).shaders@),
                old(mesh).submeshes@,
                materials_of(old(mesh).materials@),
                draw_env_of(
                    old(mesh).matrix.m(),
                    *camera,
                    *light,
                    draw_type,
                    old(self).default_material_v().diffuse,
                    old(self).default_material_v().tex,
                ),
                old(mesh).submeshes@.len() as int,
            ).calls,
            final(self).default_prog() == draw_upto(
                old(self).default_prog(),
                progs_of(old(mesh).shaders@),
                old(mesh).submeshes@,
                materials_of(old(mesh).materials@),
                draw_env_of(
                    old(mesh).matrix.m(),
                    *camera,
                    *light,
                    draw_type,
                    old(self).default_material_v().diffuse,
                    old(self).default_material_v().tex,
                ),
                old(mesh).submeshes@.len() as int,
            ).default,
            progs_of(final(mesh).shaders@) == draw_upto(
                old(self).default_prog(),
                progs_of(old(mesh).shaders@),
                old(mesh).submeshes@,
                materials_of(old(mesh).materials@),
                draw_env_of(
                    old(mesh).matrix.m(),
                    *camera,
                    *light,
                    draw_type,
                    old(self).default_material_v().diffuse,
                    old(self).default_material_v().tex,
                ),
                old(mesh).submeshes@.len() as int,
            ).shaders,
            final(self).default_material_v() == old(self).default_material_v(),
            final(mesh).submeshes@ == old(mesh).submeshes@,
            final(mesh).materials@ == old(mesh).materials@,
            final(mesh).shaders@.len() == old(mesh).shaders@.len(),
            final(mesh).matrix == old(mesh).matrix,
            final(ctx).upcoming_id() == old(ctx).upcoming_id(),
    {
        let view = camera.matrix();
        let projection = camera.projection_matrix();
        let light_dir = light.direction();
        let light_color = light.color();
        let ambient = light.ambient_strength();
        let power = light.power();
        let model = mesh.matrix;
        let ghost env = draw_env_of(
            old(mesh).matrix.m(),
            *camera,
            *light,
            draw_type,
            old(self).default_material_v().diffuse,
            old(self).default_material_v().tex,
        );
        let ghost d0 = old(self).default_prog();
        let ghost ss0 = progs_of(old(mesh).shaders@);
        let ghost subs = old(mesh).submeshes@;
        let ghost mats = materials_of(old(mesh).materials@);
        let ghost base = old(ctx).calls();
        let n = mesh.submeshes.len();
        let mut k: usize = 0;
        proof {
            assert(progs_of(mesh.shaders@) =~= draw_upto(d0, ss0, subs, mats, env, 0).shaders);
            assert(ctx.calls() =~= base + draw_upto(d0, ss0, subs, mats, env, 0).calls);
        }
        while k < n
            invariant
                k <= n,
                n == mesh.submeshes@.len(),
                mesh.submeshes@ == subs,
                mesh.materials@ == old(mesh).materials@,
                mats == materials_of(old(mesh).materials@),
                mesh.matrix == old(mesh).matrix,
                mesh.shaders@.len() == ss0.len(),
                n <= CACHE_ROOM,
                d0.cache.len() <= CACHE_ROOM,
                forall|j: int|
                    0 <= j < ss0.len() ==> (#[trigger] ss0[j]).cache.len() <= CACHE_ROOM,
                forall|q: int|
                    0 <= q < subs.len() ==> ((#[trigger] subs[q]).shader_index matches Some(i)
                        ==> (ss0.len() > 0 ==> i < ss0.len())),
                forall|q: int|
                    0 <= q < subs.len() ==> ((#[trigger] subs[q]).material_index matches Some(i)
                        ==> (mats.len() > 0 ==> i < mats.len())),
                env.model == model.m(),
                env.view == view.m(),
                env.proj == projection.m(),
                env.light_dir == light_dir,
                env.light_color == light_color,
                env.ambient == ambient.raw as int,
                env.power == power.raw as int,
                env.mode == draw_type,
                env.default_diffuse == self.default_material_v().diffuse,
                env.default_tex == self.default_material_v().tex,
                self.default_material_v() == old(self).default_material_v(),
                self.default_prog() == draw_upto(d0, ss0, subs, mats, env, k as int).default,
                progs_of(mesh.shaders@) == draw_upto(d0, ss0, subs, mats, env, k as int).shaders,
                ctx.calls() == base + draw_upto(d0, ss0, subs, mats, env, k as int).calls,
                ctx.upcoming_id() == old(ctx).upcoming_id(),
            decreases n - k,
        {
            let ghost prev = draw_upto(d0, ss0, subs, mats, env, k as int);
            proof {
                lemma_draw_upto_frame(d0, ss0, subs, mats, env, k as int);
            }
            let shader_choice: Option<usize> = if mesh.shaders.len() == 0 {
                None
            } else {
                mesh.submeshes[k].shader_index
            };
            let material_ref: &Material = if mesh.materials.len() == 0 {
                &self.default_material
            } else {
                match mesh.submeshes[k].material_index {
                    Some(i) => &mesh.materials[i],
                    None => &self.default_material,
                }
            };
            match shader_choice {
                Some(i) => {
                    draw_submesh(
                        ctx,
                        &mut mesh.shaders[i],
                        material_ref,
                        &model,
                        &view,
                        &projection,
                        light_dir,
                        light_color,
                        ambient,
                        power,
                        &mesh.submeshes[k],
                        Ghost(env),
                        draw_type,
                    );
                    proof {
                        let next = draw_upto(d0, ss0, subs, mats, env, k + 1);
                        assert(progs_of(mesh.shaders@) =~= prev.shaders.update(
                            i as int,
                            next.shaders[i as int],
                        ));
                        assert(progs_of(mesh.shaders@) =~= next.shaders);
                        assert(ctx.calls() =~= base + next.calls);
                    }
                },
                None => {
                    draw_submesh(
                        ctx,
                        &mut self.default_shader,
                        material_ref,
                        &model,
                        &view,
                        &projection,
                        light_dir,
                        light_color,
                        ambient,
                        power,
                        &mesh.submeshes[k],
                        Ghost(env),
                        draw_type,
                    );
                    proof {
                        let next = draw_upto(d0, ss0, subs, mats, env, k + 1);
                        assert(self.default_prog() == next.default);
                        assert(progs_of(mesh.shaders@) =~= next.shaders);
                        assert(ctx.calls() =~= base + next.calls);
                    }
                },
            }
            k += 1;
        }
    }
}

/// Bind `shader`, push `material`, upload the per-draw uniforms and record
/// the submesh's indexed draw call.
#[verifier::rlimit(50)]
fn draw_submesh(
    ctx: &mut GlContext,
    shader: &mut ShaderProgram,
    material: &Material,
    model: &Mat4,
    view: &Mat4,
    projection: &Mat4,
    light_dir: Vec3,
    light_color: Vec3,
    ambient: Fx,
    power: Fx,
    submesh: &SubMesh,
    env: Ghost<DrawEnv>,
    draw_type: u32,
)
    requires
        old(shader).cache_v().len() + 9 <= usize::MAX,
        env@.model == model.m(),
        env@.view == view.m(),
        env@.proj == projection.m(),
        env@.light_dir == light_dir,
        env@.light_color == light_color,
        env@.ambient == ambient.raw as int,
        env@.power == power.raw as int,
        env@.mode == draw_type,
    ensures
        final(shader).cache_v() == submesh_cache_after_v(old(shader).cache_v()),
        final(shader).handle() == old(shader).handle(),
        final(shader).texture_handle() == old(shader).texture_handle(),
        final(ctx).calls() == old(ctx).calls() + submesh_draw_calls_v(
            prog_of(*old(shader)),
            MaterialV { diffuse: material.diffuse_spec(), tex: material.texture_handle() },
            env@,
            submesh.vertex_array.handle(),
            submesh.index_buffer.handle(),
            submesh.index_buffer.count_spec(),
        ),
        final(ctx).upcoming_id() == old(ctx).upcoming_id(),
{
    let ghost base = old(ctx).calls();
    let ghost h = old(shader).handle();
    let ghost c0 = old(shader).cache_v();
    let ghost c1 = material_cache_after_v(c0);
    let ghost c2 = cache_after_v(c1, "model"@);
    let ghost c3 = cache_after_v(c2, "view"@);
    let ghost c4 = cache_after_v(c3, "projection"@);
    let ghost c5 = cache_after_v(c4, "light_direction"@);
    let ghost c6 = cache_after_v(c5, "light_color"@);
    let ghost c7 = cache_after_v(c6, "light_ambient_strength"@);
    let ghost mat = MaterialV { diffuse: material.diffuse_spec(), tex: material.texture_handle() };
    let ghost p0 = program_bind_calls_v(h, old(shader).texture_handle());
    let ghost p1 = p0 + material_calls_v(
        h,
        c0,
        mat.diffuse.x.raw as int,
        mat.diffuse.y.raw as int,
        mat.diffuse.z.raw as int,
        mat.tex,
    );
    let ghost p2 = p1 + upload_mat4_calls(h, c1, "model"@, env@.model);
    let ghost p3 = p2 + upload_mat4_calls(h, c2, "view"@, env@.view);
    let ghost p4 = p3 + upload_mat4_calls(h, c3, "projection"@, env@.proj);
    let ghost p5 = p4 + upload_vec3_calls(h, c4, "light_direction"@, env@.light_dir);
    let ghost p6 = p5 + upload_vec3_calls(h, c5, "light_color"@, env@.light_color);
    let ghost p7 = p6 + upload_float_calls(h, c6, "light_ambient_strength"@, env@.ambient);
    let ghost p8 = p7 + upload_float_calls(h, c7, "light_power"@, env@.power);
    shader.bind(ctx);
    proof {
        assert(ctx.calls() =~= base + p0);
    }
    material.send_to_shader(ctx, shader);
    proof {
        assert(ctx.calls() =~= base + p1);
    }
    shader.set_uniform_matrix4(ctx, String::from_str("model"), model);
    proof {
        assert(ctx.calls() =~= base + p2);
    }
    shader.set_uniform_matrix4(ctx, String::from_str("view"), view);
    proof {
        assert(ctx.calls() =~= base + p3);
    }
    shader.set_uniform_matrix4(ctx, String::from_str("projection"), projection);
    proof {
        assert(ctx.calls() =~= base + p4);
    }
    shader.set_uniform_vector3(ctx, String::from_str("light_direction"), &light_dir);
    proof {
        assert(ctx.calls() =~= base + p5);
    }
    shader.set_uniform_vector3(ctx, String::from_str("light_color"), &light_color);
    proof {
        assert(ctx.calls() =~= base + p6);
    }
    shader.set_uniform_float(ctx, String::from_str("light_ambient_strength"), ambient);
    proof {
        assert(ctx.calls() =~= base + p7);
    }
    shader.set_uniform_float(ctx, String::from_str("light_power"), power);
    proof {
        assert(ctx.calls() =~= base + p8);
    }
    submesh.vertex_array.bind(ctx);
    submesh.index_buffer.bind(ctx);
    ctx.emit(
        Cmd::DrawElements {
            mode: draw_type,
            count: submesh.index_buffer.count(),
            index_kind: GL_UNSIGNED_INT,
            offset: 0,
        },
    );
    proof {
        assert(ctx.calls() =~= base + p8.push(
            GpuCall::BindVertexArray { id: submesh.vertex_array.handle() },
        ).push(GpuCall::BindIndexBuffer { id: submesh.index_buffer.handle() }).push(
            GpuCall::DrawElements {
                mode: draw_type,
                count: submesh.index_buffer.count_spec(),
                index_kind: GL_UNSIGNED_INT,
                offset: 0,
            },
        ));
        assert(submesh_draw_calls_v(
            prog_of(*old(shader)),
            mat,
            env@,
            submesh.vertex_array.handle(),
            submesh.index_buffer.handle(),
            submesh.index_buffer.count_spec(),
        ) =~= p8.push(GpuCall::BindVertexArray { id: submesh.vertex_array.handle() }).push(
            GpuCall::BindIndexBuffer { id: submesh.index_buffer.handle() },
        ).push(
            GpuCall::DrawElements {
                mode: draw_type,
                count: submesh.index_buffer.count_spec(),
                index_kind: GL_UNSIGNED_INT,
                offset: 0,
            },
        ));
    }
}

} // verus!
