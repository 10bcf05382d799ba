//! Shader stages and the shader program.
//!
//! A program is loaded from one source blob holding two sections delimited
//! by the marker lines `#vertex` and `#fragment`; lines before any marker
//! are discarded, and each section is the newline-joined lines that follow
//! its marker. Compiling and linking happen on the driver, so loading is
//! split in two verified halves: the first parses the source and records
//! the compile/link commands, the second turns the driver's reported
//! outcome into either a program or a typed error.
//!
//! A program owns a uniform-location cache: the first upload under a name
//! records one location query and assigns the name a slot; every later
//! upload under the same name reuses that slot and queries nothing.

use vstd::prelude::*;

use crate::algebra::{Mat4, Vec3};
use crate::context::{Cmd, GlContext, GpuCall, GL_FRAGMENT_SHADER, GL_VERTEX_SHADER};
use crate::fixed::Fx;
use crate::texture::Texture;

verus! {

/// The marker line that starts the vertex section.
pub open spec fn vertex_marker() -> Seq<char> {
    "#vertex"@
}

/// The marker line that starts the fragment section.
pub open spec fn fragment_marker() -> Seq<char> {
    "#fragment"@
}

/// The length of the first line of `text`: the number of characters before
/// the first newline, or all of them if there is none.
pub open spec fn line_len(text: Seq<char>) -> nat
    decreases text.len(),
{
    if text.len() == 0 {
        0
    } else if text[0] == '\n' {
        0
    } else {
        1 + line_len(text.drop_first())
    }
}

/// `text` split at newlines: each line without its terminator, and no empty
/// final line for a trailing newline.
pub open spec fn split_lines(text: Seq<char>) -> Seq<Seq<char>>
    decreases text.len(),
{
    if text.len() == 0 {
        Seq::empty()
    } else {
        let l = line_len(text);
        if l >= text.len() {
            seq![text]
        } else {
            seq![text.subrange(0, l as int)] + split_lines(
                text.subrange(l as int + 1, text.len() as int),
            )
        }
    }
}

/// The section fold: walk the lines in order, switching section on a marker
/// line, and appending every other line (newline-terminated) to the section
/// last switched to; lines before any marker fall through.
pub open spec fn collect_sections(
    lines: Seq<Seq<char>>,
    section: int,
    vsrc: Seq<char>,
    fsrc: Seq<char>,
) -> (Seq<char>, Seq<char>)
    decreases lines.len(),
{
    if lines.len() == 0 {
        (vsrc, fsrc)
    } else {
        let line = lines[0];
        let rest = lines.drop_first();
        if line == vertex_marker() {
            collect_sections(rest, 1, vsrc, fsrc)
        } else if line == fragment_marker() {
            collect_sections(rest, 2, vsrc, fsrc)
        } else if section == 1 {
            collect_sections(rest, 1, vsrc + line + "\n"@, fsrc)
        } else if section == 2 {
            collect_sections(rest, 2, vsrc, fsrc + line + "\n"@)
        } else {
            collect_sections(rest, section, vsrc, fsrc)
        }
    }
}

/// The vertex and fragment sources a source blob holds.
pub open spec fn split_sections_v(text: Seq<char>) -> (Seq<char>, Seq<char>) {
    collect_sections(split_lines(text), 0, Seq::<char>::empty(), Seq::<char>::empty())
}

/// The first line of `text` ends at `k` exactly when no newline comes
/// before `k` and `k` is a newline or the end.
proof fn lemma_line_len_found(text: Seq<char>, k: int)
    requires
        0 <= k <= text.len(),
        forall|j: int| 0 <= j < k ==> text[j] != '\n',
        k == text.len() || text[k] == '\n',
    ensures
        line_len(text) == k,
    decreases k,
{
    if k == 0 {
    } else {
        assert(text[0] != '\n');
        lemma_line_len_found(text.drop_first(), k - 1);
    }
}

/// The two sections of a source blob: what stands between `#vertex` and
/// `#fragment` markers.
#[derive(Debug)]
pub struct ShaderSections {
    /// The newline-joined lines after the `#vertex` marker.
    pub vertex: String,
    /// The newline-joined lines after the `#fragment` marker.
    pub fragment: String,
}

/// Split a two-section source blob into its vertex and fragment sources:
/// marker lines `#vertex` and `#fragment` switch sections, every other line
/// is appended (newline-terminated) to the section last switched to, and
/// lines before any marker are discarded.
pub fn split_shader_source(text: &str) -> (r: ShaderSections)
    ensures
        (r.vertex@, r.fragment@) == split_sections_v(text@),
{
    let n: usize = text.unicode_len();
    let vm: String = String::from_str("#vertex");
    let fm: String = String::from_str("#fragment");
    let mut vertex: String = String::new();
    let mut fragment: String = String::new();
    let mut section: u8 = 0;
    let mut pos: usize = 0;
    proof {
        assert(text@.subrange(0, n as int) =~= text@);
    }
    while pos < n
        invariant
            pos <= n,
            n == text@.len(),
            vm@ == vertex_marker(),
            fm@ == fragment_marker(),
            section == 0 || section == 1 || section == 2,
            collect_sections(
                split_lines(text@.subrange(pos as int, n as int)),
                section as int,
                vertex@,
                fragment@,
            ) == split_sections_v(text@),
        decreases n - pos,
    {
        let ghost suffix = text@.subrange(pos as int, n as int);
        let mut end: usize = pos;
        while end < n && text.get_char(end) != '\n'
            invariant
                pos <= end <= n,
                n == text@.len(),
                forall|j: int| pos <= j < end ==> text@[j] != '\n',
            decreases n - end,
        {
            end += 1;
        }
        proof {
            assert(suffix.len() == n - pos);
            assert forall|j: int| 0 <= j < end - pos implies suffix[j] != '\n' by {
                assert(suffix[j] == text@[pos + j]);
            }
            if end < n {
                assert(suffix[end - pos] == text@[end as int]);
            }
            lemma_line_len_found(suffix, end - pos);
        }
        let line: &str = text.substring_char(pos, end);
        proof {
            assert(line@ =~= suffix.subrange(0, end - pos));
        }
        let line_string: String = String::from_str(line);
        let ghost old_section: u8 = section;
        let ghost old_vertex = vertex@;
        let ghost old_fragment = fragment@;
        if line_string == vm {
            section = 1;
        } else if line_string == fm {
            section = 2;
        } else if section == 1 {
            vertex.append(line);
            vertex.append("\n");
        } else if section == 2 {
            fragment.append(line);
            fragment.append("\n");
        }
        let next_pos: usize = if end < n {
            end + 1
        } else {
            n
        };
        proof {
            let rest = text@.subrange(next_pos as int, n as int);
            if end < n {
                assert(line_len(suffix) < suffix.len());
                assert(rest =~= suffix.subrange(end - pos + 1, suffix.len() as int));
                assert(split_lines(suffix) == seq![suffix.subrange(0, end - pos)] + split_lines(
                    rest,
                ));
            } else {
                assert(line_len(suffix) >= suffix.len());
                assert(split_lines(suffix) == seq![suffix]);
                assert(line@ =~= suffix);
                assert(rest =~= Seq::<char>::empty());
                assert(split_lines(rest) =~= Seq::<Seq<char>>::empty());
            }
            let lines = split_lines(suffix);
            assert(lines[0] == line@);
            if end < n {
                assert(lines.drop_first() =~= split_lines(rest));
            } else {
                assert(lines.drop_first() =~= split_lines(rest));
            }
            assert(collect_sections(lines, old_section as int, old_vertex, old_fragment)
                == collect_sections(
                split_lines(rest),
                section as int,
                vertex@,
                fragment@,
            ));
        }
        pos = next_pos;
    }
    proof {
        assert(text@.subrange(pos as int, n as int) =~= Seq::<char>::empty());
        assert(split_lines(Seq::<char>::empty()) =~= Seq::<Seq<char>>::empty());
    }
    ShaderSections { vertex, fragment }
}

/// A failed program construction: one shader stage failed to compile, or
/// the program failed to link. Either way the driver's log is kept.
#[derive(Debug)]
pub enum ShaderError {
    /// A stage failed to compile.
    CompileError {
        /// What was being loaded, for the message.
        identifier: String,
        /// The driver's information log, or the library's own reason.
        message: String,
    },
    /// The program failed to link.
    LinkError {
        /// What was being loaded, for the message.
        identifier: String,
        /// The driver's information log.
        message: String,
    },
}

/// The mathematical value of a [`ShaderError`].
pub enum ShaderErrorV {
    CompileError { identifier: Seq<char>, message: Seq<char> },
    LinkError { identifier: Seq<char>, message: Seq<char> },
}

impl View for ShaderError {
    type V = ShaderErrorV;

    open spec fn view(&self) -> ShaderErrorV {
        match self {
            ShaderError::CompileError { identifier, message } => ShaderErrorV::CompileError {
                identifier: identifier@,
                message: message@,
            },
            ShaderError::LinkError { identifier, message } => ShaderErrorV::LinkError {
                identifier: identifier@,
                message: message@,
            },
        }
    }
}

impl ShaderError {
    /// One line saying what failed and why.
    pub fn describe(&self) -> (s: String)
        ensures
            s@ == match self@ {
                ShaderErrorV::CompileError { identifier, message } => "Shader "@ + identifier
                    + " failed to compile: "@ + message,
                ShaderErrorV::LinkError { identifier, message } => "Program "@ + identifier
                    + " failed to link shaders: "@ + message,
            },
    {
        match self {
            ShaderError::CompileError { identifier, message } => {
                let mut s = String::from_str("Shader ");
                s.append(identifier.as_str());
                s.append(" failed to compile: ");
                s.append(message.as_str());
                s
            },
            ShaderError::LinkError { identifier, message } => {
                let mut s = String::from_str("Program ");
                s.append(identifier.as_str());
                s.append(" failed to link shaders: ");
                s.append(message.as_str());
                s
            },
        }
    }
}

/// One compiled shader stage: a shader object handle and its stage kind.
#[derive(Debug)]
pub struct Shader {
    id: u32,
    kind: u32,
}

impl Shader {
    /// The GPU handle this shader object owns.
    pub closed spec fn handle(&self) -> u32 {
        self.id
    }

    /// The stage kind, as a specification value.
    pub closed spec fn kind_spec(&self) -> u32 {
        self.kind
    }

    /// Create a shader object of stage `kind` and compile `source` into it.
    /// Whether the driver accepted the source is reported later, with the
    /// program's build outcome.
    pub fn from_source(ctx: &mut GlContext, source: String, kind: u32) -> (s: Shader)
        requires
            old(ctx).upcoming_id() < u32::MAX,
        ensures
            s.handle() == old(ctx).upcoming_id(),
            s.kind_spec() == kind,
            final(ctx).upcoming_id() == old(ctx).upcoming_id() + 1,
            final(ctx).calls() == old(ctx).calls().push(
                GpuCall::CompileShader { id: s.handle(), kind, source: source@ },
            ),
    {
        let id: u32 = ctx.fresh_id();
        ctx.emit(Cmd::CompileShader { id, kind, source });
        Shader { id, kind }
    }

    /// The shader object's handle.
    pub fn id(&self) -> (i: u32)
        ensures
            i == self.handle(),
    {
        self.id
    }

    /// Create and compile a vertex-stage shader object.
    pub fn from_vert_source(ctx: &mut GlContext, source: String) -> (s: Shader)
        requires
            old(ctx).upcoming_id() < u32::MAX,
        ensures
            s.handle() == old(ctx).upcoming_id(),
            s.kind_spec() == GL_VERTEX_SHADER,
            final(ctx).upcoming_id() == old(ctx).upcoming_id() + 1,
            final(ctx).calls() == old(ctx).calls().push(
                GpuCall::CompileShader {
                    id: s.handle(),
                    kind: GL_VERTEX_SHADER,
                    source: source@,
                },
            ),
    {
        Shader::from_source(ctx, source, GL_VERTEX_SHADER)
    }

    /// Create and compile a fragment-stage shader object.
    pub fn from_frag_source(ctx: &mut GlContext, source: String) -> (s: Shader)
        requires
            old(ctx).upcoming_id() < u32::MAX,
        ensures
            s.handle() == old(ctx).upcoming_id(),
            s.kind_spec() == GL_FRAGMENT_SHADER,
            final(ctx).upcoming_id() == old(ctx).upcoming_id() + 1,
            final(ctx).calls() == old(ctx).calls().push(
                GpuCall::CompileShader {
                    id: s.handle(),
                    kind: GL_FRAGMENT_SHADER,
                    source: source@,
                },
            ),
    {
        Shader::from_source(ctx, source, GL_FRAGMENT_SHADER)
    }

    /// Release the shader object's handle, exactly once.
    pub fn delete(self, ctx: &mut GlContext)
        ensures
            final(ctx).calls() == old(ctx).calls().push(
                GpuCall::DeleteShader { id: self.handle() },
            ),
            final(ctx).upcoming_id() == old(ctx).upcoming_id(),
    {
        ctx.emit(Cmd::DeleteShader { id: self.id });
    }
}

/// First match of `name` in the cache at or after position `i`.
pub open spec fn lookup_from(cache: Seq<Seq<char>>, name: Seq<char>, i: int) -> Option<int>
    decreases cache.len() - i,
{
    if i < 0 || i >= cache.len() {
        None
    } else if cache[i] == name {
        Some(i)
    } else {
        lookup_from(cache, name, i + 1)
    }
}

/// The position `name` holds in the uniform-location cache, if it has been
/// resolved before.
pub open spec fn lookup_v(cache: Seq<Seq<char>>, name: Seq<char>) -> Option<int> {
    lookup_from(cache, name, 0)
}

/// The slot a `set_uniform` call uses for `name`: the cached position, or
/// the fresh position at the end of the cache.
pub open spec fn uniform_slot_v(cache: Seq<Seq<char>>, name: Seq<char>) -> int {
    match lookup_v(cache, name) {
        Some(i) => i,
        None => cache.len() as int,
    }
}

/// The cache after a `set_uniform` call for `name`: unchanged if `name` was
/// already resolved, else extended by it.
pub open spec fn cache_after_v(cache: Seq<Seq<char>>, name: Seq<char>) -> Seq<Seq<char>> {
    if lookup_v(cache, name) is Some {
        cache
    } else {
        cache.push(name)
    }
}

/// The location queries a `set_uniform` call for `name` records: none if
/// `name` was already resolved, else exactly one.
pub open spec fn query_calls_v(program: u32, cache: Seq<Seq<char>>, name: Seq<char>) -> Seq<
    GpuCall,
> {
    if lookup_v(cache, name) is Some {
        Seq::<GpuCall>::empty()
    } else {
        seq![GpuCall::QueryUniformLocation { program, name, slot: cache.len() as usize }]
    }
}

/// Looking up from the start equals looking up from `i` when no earlier
/// entry matches.
proof fn lemma_lookup_prefix(cache: Seq<Seq<char>>, name: Seq<char>, i: int)
    requires
        0 <= i <= cache.len(),
        forall|j: int| 0 <= j < i ==> cache[j] != name,
    ensures
        lookup_v(cache, name) == lookup_from(cache, name, i),
    decreases i,
{
    if i > 0 {
        lemma_lookup_prefix(cache, name, i - 1);
    }
}

/// A failed lookup means no entry matches.
proof fn lemma_lookup_none(cache: Seq<Seq<char>>, name: Seq<char>, i: int)
    requires
        0 <= i,
        lookup_from(cache, name, i) is None,
    ensures
        forall|j: int| i <= j < cache.len() ==> cache[j] != name,
    decreases cache.len() - i,
{
    if 0 <= i < cache.len() {
        lemma_lookup_none(cache, name, i + 1);
    }
}

/// After one `set_uniform` call for `name`, the name is resolved to the
/// slot that call used.
pub proof fn lemma_lookup_after(cache: Seq<Seq<char>>, name: Seq<char>)
    ensures
        lookup_v(cache_after_v(cache, name), name) == Some(uniform_slot_v(cache, name)),
{
    if lookup_v(cache, name) is None {
        lemma_lookup_none(cache, name, 0);
        let cache2 = cache.push(name);
        assert(forall|j: int| 0 <= j < cache.len() ==> cache2[j] != name);
        lemma_lookup_prefix(cache2, name, cache.len() as int);
        assert(cache2[cache.len() as int] == name);
    }
}

/// The uniform-location cache queries once per name: however a cache was
/// reached, after one `set_uniform` call for `name` a second call for the
/// same name records no location query and uploads to the same slot as the
/// first; and a single call records at most one query — exactly one when
/// the name was not yet resolved.
pub proof fn lemma_uniform_query_once(program: u32, cache: Seq<Seq<char>>, name: Seq<char>)
    ensures
        query_calls_v(program, cache_after_v(cache, name), name) == Seq::<GpuCall>::empty(),
        uniform_slot_v(cache_after_v(cache, name), name) == uniform_slot_v(cache, name),
        lookup_v(cache, name) is None ==> query_calls_v(program, cache, name) == seq![
            GpuCall::QueryUniformLocation { program, name, slot: cache.len() as usize },
        ],
        lookup_v(cache, name) is Some ==> query_calls_v(program, cache, name) == Seq::<
            GpuCall,
        >::empty(),
{
    lemma_lookup_after(cache, name);
}

/// The two texture commands and the program activation `bind` records:
/// texture state first, so it is current before the program samples it.
pub open spec fn program_bind_calls_v(program: u32, tex: Option<u32>) -> Seq<GpuCall> {
    match tex {
        Some(t) => seq![
            GpuCall::BindTexture { unit: 0, id: t },
            GpuCall::UseProgram { id: program },
        ],
        None => seq![GpuCall::UnbindTexture { unit: 0 }, GpuCall::UseProgram { id: program }],
    }
}

/// A linked GPU program: its handle, its uniform-location cache, and
/// optionally one texture it binds to unit 0.
#[derive(Debug)]
pub struct ShaderProgram {
    id: u32,
    uniform_location_cache: Vec<String>,
    texture: Option<Texture>,
}

impl ShaderProgram {
    /// The GPU handle this program owns.
    pub closed spec fn handle(&self) -> u32 {
        self.id
    }

    /// The uniform-location cache: the resolved names, in the order their
    /// slots were assigned.
    pub closed spec fn cache_v(&self) -> Seq<Seq<char>> {
        self.uniform_location_cache@.map_values(|s: String| s@)
    }

    /// The handle of the held texture, if any.
    pub closed spec fn texture_handle(&self) -> Option<u32> {
        match self.texture {
            Some(ref t) => Some(t.handle()),
            None => None,
        }
    }

    /// The program's handle.
    pub fn id(&self) -> (i: u32)
        ensures
            i == self.handle(),
    {
        self.id
    }

    /// Resolve `name` through the cache: return its slot, recording one
    /// location query and assigning the next free slot only if `name` has
    /// never been resolved on this program.
    fn get_uniform_location(&mut self, ctx: &mut GlContext, name: String) -> (slot: usize)
        requires
            old(self).cache_v().len() < usize::MAX,
        ensures
            slot as int == uniform_slot_v(old(self).cache_v(), name@),
            final(self).cache_v() == cache_after_v(old(self).cache_v(), name@),
            final(self).handle() == old(self).handle(),
            final(self).texture_handle() == old(self).texture_handle(),
            final(ctx).calls() == old(ctx).calls() + query_calls_v(
                old(self).handle(),
                old(self).cache_v(),
                name@,
            ),
            final(ctx).upcoming_id() == old(ctx).upcoming_id(),
    {
        let n: usize = self.uniform_location_cache.len();
        let mut i: usize = 0;
        while i < n
            invariant
                i <= n,
                n == self.uniform_location_cache@.len(),
                forall|j: int| 0 <= j < i ==> self.cache_v()[j] != name@,
            decreases n - i,
        {
            if self.uniform_location_cache[i] == name {
                proof {
                    lemma_lookup_prefix(self.cache_v(), name@, i as int);
                    assert(lookup_v(self.cache_v(), name@) == Some(i as int));
                    assert(ctx.calls() =~= ctx.calls() + query_calls_v(
                        self.handle(),
                        self.cache_v(),
                        name@,
                    ));
                }
                return i;
            }
            i += 1;
        }
        proof {
            lemma_lookup_prefix(self.cache_v(), name@, n as int);
            assert(lookup_v(self.cache_v(), name@) is None);
        }
        let slot: usize = n;
        let stored: String = name.clone();
        self.uniform_location_cache.push(stored);
        ctx.emit(Cmd::QueryUniformLocation { program: self.id, name, slot });
        proof {
            assert(self.cache_v() =~= cache_after_v(old(self).cache_v(), name@));
            assert(ctx.calls() =~= old(ctx).calls() + query_calls_v(
                old(self).handle(),
                old(self).cache_v(),
                name@,
            ));
        }
        slot
    }

    /// Upload a column-major matrix under `name`, resolving the location
    /// through the cache.
    pub fn set_uniform_matrix4(&mut self, ctx: &mut GlContext, name: String, value: &Mat4)
        requires
            old(self).cache_v().len() < usize::MAX,
        ensures
            final(self).cache_v() == cache_after_v(old(self).cache_v(), name@),
            final(self).handle() == old(self).handle(),
            final(self).texture_handle() == old(self).texture_handle(),
            final(ctx).calls() == old(ctx).calls() + query_calls_v(
                old(self).handle(),
                old(self).cache_v(),
                name@,
            ) + seq![
                GpuCall::UploadMatrix4 {
                    program: old(self).handle(),
                    slot: uniform_slot_v(old(self).cache_v(), name@) as usize,
                    value: value.m(),
                },
            ],
            final(ctx).upcoming_id() == old(ctx).upcoming_id(),
    {
        let ghost name_v = name@;
        let slot: usize = self.get_uniform_location(ctx, name);
        ctx.emit(Cmd::UploadMatrix4 { program: self.id, slot, value: *value });
        proof {
            assert(ctx.calls() =~= old(ctx).calls() + query_calls_v(
                old(self).handle(),
                old(self).cache_v(),
                name_v,
            ) + seq![
                GpuCall::UploadMatrix4 {
                    program: old(self).handle(),
                    slot: uniform_slot_v(old(self).cache_v(), name_v) as usize,
                    value: value.m(),
                },
            ]);
        }
    }

    /// Upload a boolean (0 or 1 on the GPU) under `name`, resolving the
    /// location through the cache.
    pub fn set_uniform_bool(&mut self, ctx: &mut GlContext, name: String, value: bool)
        requires
            old(self).cache_v().len() < usize::MAX,
        ensures
            final(self).cache_v() == cache_after_v(old(self).cache_v(), name@),
            final(self).handle() == old(self).handle(),
            final(self).texture_handle() == old(self).texture_handle(),
            final(ctx).calls() == old(ctx).calls() + query_calls_v(
                old(self).handle(),
                old(self).cache_v(),
                name@,
            ) + seq![
                GpuCall::UploadBool {
                    program: old(self).handle(),
                    slot: uniform_slot_v(old(self).cache_v(), name@) as usize,
                    value,
                },
            ],
            final(ctx).upcoming_id() == old(ctx).upcoming_id(),
    {
        let ghost name_v = name@;
        let slot: usize = self.get_uniform_location(ctx, name);
        ctx.emit(Cmd::UploadBool { program: self.id, slot, value });
        proof {
            assert(ctx.calls() =~= old(ctx).calls() + query_calls_v(
                old(self).handle(),
                old(self).cache_v(),
                name_v,
            ) + seq![
                GpuCall::UploadBool {
                    program: old(self).handle(),
                    slot: uniform_slot_v(old(self).cache_v(), name_v) as usize,
                    value,
                },
            ]);
        }
    }

    /// Upload a scalar under `name`, resolving the location through the
    /// cache.
    pub fn set_uniform_float(&mut self, ctx: &mut GlContext, name: String, value: Fx)
        requires
            old(self).cache_v().len() < usize::MAX,
        ensures
            final(self).cache_v() == cache_after_v(old(self).cache_v(), name@),
            final(self).handle() == old(self).handle(),
            final(self).texture_handle() == old(self).texture_handle(),
            final(ctx).calls() == old(ctx).calls() + query_calls_v(
                old(self).handle(),
                old(self).cache_v(),
                name@,
            ) + seq![
                GpuCall::UploadFloat {
                    program: old(self).handle(),
                    slot: uniform_slot_v(old(self).cache_v(), name@) as usize,
                    value: value.raw as int,
                },
            ],
            final(ctx).upcoming_id() == old(ctx).upcoming_id(),
    {
        let ghost name_v = name@;
        let slot: usize = self.get_uniform_location(ctx, name);
        ctx.emit(Cmd::UploadFloat { program: self.id, slot, value });
        proof {
            assert(ctx.calls() =~= old(ctx).calls() + query_calls_v(
                old(self).handle(),
                old(self).cache_v(),
                name_v,
            ) + seq![
                GpuCall::UploadFloat {
                    program: old(self).handle(),
                    slot: uniform_slot_v(old(self).cache_v(), name_v) as usize,
                    value: value.raw as int,
                },
            ]);
        }
    }

    /// Upload a three-component vector under `name`, resolving the location
    /// through the cache.
    pub fn set_uniform_vector3(&mut self, ctx: &mut GlContext, name: String, value: &Vec3)
        requires
            old(self).cache_v().len() < usize::MAX,
        ensures
            final(self).cache_v() == cache_after_v(old(self).cache_v(), name@),
            final(self).handle() == old(self).handle(),
            final(self).texture_handle() == old(self).texture_handle(),
            final(ctx).calls() == old(ctx).calls() + query_calls_v(
                old(self).handle(),
                old(self).cache_v(),
                name@,
            ) + seq![
                GpuCall::UploadVector3 {
                    program: old(self).handle(),
                    slot: uniform_slot_v(old(self).cache_v(), name@) as usize,
                    x: value.x.raw as int,
                    y: value.y.raw as int,
                    z: value.z.raw as int,
                },
            ],
            final(ctx).upcoming_id() == old(ctx).upcoming_id(),
    {
        let ghost name_v = name@;
        let slot: usize = self.get_uniform_location(ctx, name);
        ctx.emit(Cmd::UploadVector3 { program: self.id, slot, value: *value });
        proof {
            assert(ctx.calls() =~= old(ctx).calls() + query_calls_v(
                old(self).handle(),
                old(self).cache_v(),
                name_v,
            ) + seq![
                GpuCall::UploadVector3 {
                    program: old(self).handle(),
                    slot: uniform_slot_v(old(self).cache_v(), name_v) as usize,
                    x: value.x.raw as int,
                    y: value.y.raw as int,
                    z: value.z.raw as int,
                },
            ]);
        }
    }

    /// Make this program current: bind the held texture to unit 0 (or
    /// unbind unit 0 when there is none), then activate the program. The
    /// order matters: texture state must be current before the program
    /// starts sampling it.
    pub fn bind(&self, ctx: &mut GlContext)
        ensures
            final(ctx).calls() == old(ctx).calls() + program_bind_calls_v(
                self.handle(),
                self.texture_handle(),
            ),
            final(ctx).upcoming_id() == old(ctx).upcoming_id(),
    {
        match &self.texture {
            Some(texture) => texture.bind(ctx, 0),
            None => ctx.emit(Cmd::UnbindTexture { unit: 0 }),
        }
        ctx.emit(Cmd::UseProgram { id: self.id });
        proof {
            assert(ctx.calls() =~= old(ctx).calls() + program_bind_calls_v(
                self.handle(),
                self.texture_handle(),
            ));
        }
    }

    /// Deactivate whatever program is current.
    pub fn unbind(&self, ctx: &mut GlContext)
        ensures
            final(ctx).calls() == old(ctx).calls().push(GpuCall::UseProgram { id: 0 }),
            final(ctx).upcoming_id() == old(ctx).upcoming_id(),
    {
        ctx.emit(Cmd::UseProgram { id: 0 });
    }

    /// Store `texture` as the program's texture and raise the program's
    /// texture-enable uniform, so the fragment stage samples it.
    pub fn set_texture(&mut self, ctx: &mut GlContext, texture: Texture)
        requires
            old(self).cache_v().len() < usize::MAX,
        ensures
            final(self).texture_handle() == Some(texture.handle()),
            final(self).handle() == old(self).handle(),
            final(self).cache_v() == cache_after_v(old(self).cache_v(), "u_use_texture"@),
            final(ctx).calls() == old(ctx).calls() + query_calls_v(
                old(self).handle(),
                old(self).cache_v(),
                "u_use_texture"@,
            ) + seq![
                GpuCall::UploadBool {
                    program: old(self).handle(),
                    slot: uniform_slot_v(old(self).cache_v(), "u_use_texture"@) as usize,
                    value: true,
                },
            ],
            final(ctx).upcoming_id() == old(ctx).upcoming_id(),
    {
        self.set_uniform_bool(ctx, String::from_str("u_use_texture"), true);
        self.texture = Some(texture);
    }

    /// Release the program's handle and, with it, the handle of the held
    /// texture, exactly once each.
    pub fn delete(self, ctx: &mut GlContext)
        ensures
            final(ctx).calls() == old(ctx).calls() + (match self.texture_handle() {
                Some(t) => seq![
                    GpuCall::DeleteProgram { id: self.handle() },
                    GpuCall::DeleteTexture { id: t },
                ],
                None => seq![GpuCall::DeleteProgram { id: self.handle() }],
            }),
            final(ctx).upcoming_id() == old(ctx).upcoming_id(),
    {
        let ghost h = self.handle();
        let ghost t = self.texture_handle();
        ctx.emit(Cmd::DeleteProgram { id: self.id });
        match self.texture {
            Some(texture) => texture.delete(ctx),
            None => (),
        }
        proof {
            assert(ctx.calls() =~= old(ctx).calls() + (match t {
                Some(tid) => seq![
                    GpuCall::DeleteProgram { id: h },
                    GpuCall::DeleteTexture { id: tid },
                ],
                None => seq![GpuCall::DeleteProgram { id: h }],
            }));
        }
    }
}

/// The driver's report on building one program: for each stage and for the
/// link, `None` for success or the information log of the failure.
#[derive(Debug)]
pub struct BuildOutcome {
    /// The vertex stage's compile log, if it failed.
    pub vertex_error: Option<String>,
    /// The fragment stage's compile log, if it failed.
    pub fragment_error: Option<String>,
    /// The program's link log, if linking failed.
    pub link_error: Option<String>,
}

impl BuildOutcome {
    /// A report with every step succeeded.
    pub fn success() -> (r: BuildOutcome)
        ensures
            r.vertex_error is None,
            r.fragment_error is None,
            r.link_error is None,
    {
        BuildOutcome { vertex_error: None, fragment_error: None, link_error: None }
    }
}

/// The program-assembly commands `from_shaders` records: create the
/// program, attach every stage, link, then detach every stage.
pub open spec fn link_calls_v(program: u32, shaders: Seq<u32>) -> Seq<GpuCall> {
    seq![GpuCall::CreateProgram { id: program }] + Seq::new(
        shaders.len(),
        |i: int| GpuCall::AttachShader { program, shader: shaders[i] },
    ) + seq![GpuCall::LinkProgram { program }] + Seq::new(
        shaders.len(),
        |i: int| GpuCall::DetachShader { program, shader: shaders[i] },
    )
}

/// A program whose compile and link commands are recorded but whose
/// outcome the driver has not reported yet. [`PendingProgram::complete`]
/// turns the report into a program or a typed error.
#[derive(Debug)]
pub struct PendingProgram {
    id: u32,
    identifier: String,
}

impl PendingProgram {
    /// The GPU handle the program will own.
    pub closed spec fn handle(&self) -> u32 {
        self.id
    }

    /// The identifier a failure will be reported under.
    pub closed spec fn identifier_v(&self) -> Seq<char> {
        self.identifier@
    }

    /// Judge the driver's report: the program exists exactly when every
    /// step succeeded; a failed vertex stage is reported first, then a
    /// failed fragment stage, then a failed link.
    pub fn complete(self, outcome: BuildOutcome) -> (r: Result<ShaderProgram, ShaderError>)
        ensures
            r is Ok <==> outcome.vertex_error is None && outcome.fragment_error is None
                && outcome.link_error is None,
            r matches Ok(p) ==> p.handle() == self.handle() && p.cache_v() == Seq::<
                Seq<char>,
            >::empty() && p.texture_handle() is None,
            outcome.vertex_error is Some ==> (r matches Err(e) && e@
                == (ShaderErrorV::CompileError {
                identifier: self.identifier_v(),
                message: outcome.vertex_error->0@,
            })),
            outcome.vertex_error is None && outcome.fragment_error is Some ==> (r matches Err(e)
                && e@ == (ShaderErrorV::CompileError {
                identifier: self.identifier_v(),
                message: outcome.fragment_error->0@,
            })),
            outcome.vertex_error is None && outcome.fragment_error is None
                && outcome.link_error is Some ==> (r matches Err(e) && e@
                == (ShaderErrorV::LinkError {
                identifier: self.identifier_v(),
                message: outcome.link_error->0@,
            })),
    {
        let PendingProgram { id, identifier } = self;
        match outcome.vertex_error {
            Some(message) => Err(ShaderError::CompileError { identifier, message }),
            None => match outcome.fragment_error {
                Some(message) => Err(ShaderError::CompileError { identifier, message }),
                None => match outcome.link_error {
                    Some(message) => Err(ShaderError::LinkError { identifier, message }),
                    None => {
                        let p = ShaderProgram {
                            id,
                            uniform_location_cache: Vec::new(),
                            texture: None,
                        };
                        proof {
                            assert(p.cache_v() =~= Seq::<Seq<char>>::empty());
                        }
                        Ok(p)
                    },
                },
            },
        }
    }
}

impl ShaderProgram {
    /// Assemble a program from compiled stages: create it, attach every
    /// stage, link, and detach the stages again so they can be released
    /// independently. The link outcome arrives with
    /// [`PendingProgram::complete`].
    pub fn from_shaders(ctx: &mut GlContext, shaders: &Vec<Shader>) -> (p: PendingProgram)
        requires
            old(ctx).upcoming_id() < u32::MAX,
        ensures
            p.handle() == old(ctx).upcoming_id(),
            p.identifier_v() == Seq::<char>::empty(),
            final(ctx).upcoming_id() == old(ctx).upcoming_id() + 1,
            final(ctx).calls() == old(ctx).calls() + link_calls_v(
                p.handle(),
                shaders@.map_values(|s: Shader| s.handle()),
            ),
    {
        let program_id: u32 = ctx.fresh_id();
        let ghost ids = shaders@.map_values(|s: Shader| s.handle());
        ctx.emit(Cmd::CreateProgram { id: program_id });
        let ghost base = ctx.calls();
        let mut i: usize = 0;
        while i < shaders.len()
            invariant
                i <= shaders@.len(),
                ids == shaders@.map_values(|s: Shader| s.handle()),
                ctx.calls() == base + Seq::new(
                    i as nat,
                    |k: int| GpuCall::AttachShader { program: program_id, shader: ids[k] },
                ),
                ctx.upcoming_id() == old(ctx).upcoming_id() + 1,
            decreases shaders@.len() - i,
        {
            ctx.emit(Cmd::AttachShader { program: program_id, shader: shaders[i].id() });
            proof {
                assert(ctx.calls() =~= base + Seq::new(
                    (i + 1) as nat,
                    |k: int| GpuCall::AttachShader { program: program_id, shader: ids[k] },
                ));
            }
            i += 1;
        }
        ctx.emit(Cmd::LinkProgram { program: program_id });
        let ghost base2 = ctx.calls();
        let mut j: usize = 0;
        while j < shaders.len()
            invariant
                j <= shaders@.len(),
                ids == shaders@.map_values(|s: Shader| s.handle()),
                ctx.calls() == base2 + Seq::new(
                    j as nat,
                    |k: int| GpuCall::DetachShader { program: program_id, shader: ids[k] },
                ),
                ctx.upcoming_id() == old(ctx).upcoming_id() + 1,
            decreases shaders@.len() - j,
        {
            ctx.emit(Cmd::DetachShader { program: program_id, shader: shaders[j].id() });
            proof {
                assert(ctx.calls() =~= base2 + Seq::new(
                    (j + 1) as nat,
                    |k: int| GpuCall::DetachShader { program: program_id, shader: ids[k] },
                ));
            }
            j += 1;
        }
        proof {
            assert(ctx.calls() =~= old(ctx).calls() + link_calls_v(program_id, ids));
        }
        PendingProgram { id: program_id, identifier: String::new() }
    }

    /// The compile, link and cleanup commands `load_from_source` records
    /// when both sections are present: compile each stage, assemble the
    /// program, then release the two stage objects.
    pub open spec fn load_calls_v(first_id: u32, vsrc: Seq<char>, fsrc: Seq<char>) -> Seq<
        GpuCall,
    > {
        seq![
            GpuCall::CompileShader { id: first_id, kind: GL_VERTEX_SHADER, source: vsrc },
            GpuCall::CompileShader {
                id: (first_id + 1) as u32,
                kind: GL_FRAGMENT_SHADER,
                source: fsrc,
            },
        ] + link_calls_v((first_id + 2) as u32, seq![first_id, (first_id + 1) as u32]) + seq![
            GpuCall::DeleteShader { id: (first_id + 1) as u32 },
            GpuCall::DeleteShader { id: first_id },
        ]
    }

    /// Load a program from a two-section source blob: split it at the
    /// `#vertex` and `#fragment` markers, fail if either section is empty,
    /// else compile both stages and assemble the program. A failure of the
    /// driver's own compile or link is reported by
    /// [`PendingProgram::complete`]; an empty section is rejected here,
    /// before any command is recorded.
    pub fn load_from_source(ctx: &mut GlContext, identifier: String, text: &str) -> (r: Result<
        PendingProgram,
        ShaderError,
    >)
        requires
            old(ctx).upcoming_id() + 3 <= u32::MAX,
        ensures
            r is Ok <==> split_sections_v(text@).0.len() > 0 && split_sections_v(text@).1.len()
                > 0,
            split_sections_v(text@).0.len() == 0 ==> (r matches Err(e) && e@
                == (ShaderErrorV::CompileError {
                identifier: identifier@,
                message: "the vertex section is empty"@,
            }) && final(ctx).calls() == old(ctx).calls() && final(ctx).upcoming_id()
                == old(ctx).upcoming_id()),
            split_sections_v(text@).0.len() > 0 && split_sections_v(text@).1.len() == 0
                ==> (r matches Err(e) && e@ == (ShaderErrorV::CompileError {
                identifier: identifier@,
                message: "the fragment section is empty"@,
            }) && final(ctx).calls() == old(ctx).calls() && final(ctx).upcoming_id()
                == old(ctx).upcoming_id()),
            r matches Ok(p) ==> p.handle() == old(ctx).upcoming_id() + 2 && p.identifier_v()
                == identifier@ && final(ctx).upcoming_id() == old(ctx).upcoming_id() + 3
                && final(ctx).calls() == old(ctx).calls() + Self::load_calls_v(
                old(ctx).upcoming_id(),
                split_sections_v(text@).0,
                split_sections_v(text@).1,
            ),
    {
        let sections = split_shader_source(text);
        if sections.vertex.as_str().unicode_len() == 0 {
            return Err(
                ShaderError::CompileError {
                    identifier,
                    message: String::from_str("the vertex section is empty"),
                },
            );
        }
        if sections.fragment.as_str().unicode_len() == 0 {
            return Err(
                ShaderError::CompileError {
                    identifier,
                    message: String::from_str("the fragment section is empty"),
                },
            );
        }
        let vertex_shader = Shader::from_source(ctx, sections.vertex, GL_VERTEX_SHADER);
        let fragment_shader = Shader::from_source(ctx, sections.fragment, GL_FRAGMENT_SHADER);
        let mut shaders: Vec<Shader> = Vec::new();
        shaders.push(vertex_shader);
        shaders.push(fragment_shader);
        let ghost ids = shaders@.map_values(|s: Shader| s.handle());
        let mut pending = Self::from_shaders(ctx, &shaders);
        let fs = shaders.pop().unwrap();
        fs.delete(ctx);
        let vs = shaders.pop().unwrap();
        vs.delete(ctx);
        pending.identifier = identifier;
        proof {
            let first = old(ctx).upcoming_id();
            assert(ids =~= seq![first, (first + 1) as u32]);
            assert(ctx.calls() =~= old(ctx).calls() + Self::load_calls_v(
                first,
                split_sections_v(text@).0,
                split_sections_v(text@).1,
            ));
        }
        Ok(pending)
    }
}

} // verus!
