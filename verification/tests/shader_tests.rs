use palantir::context::{Cmd, GlContext, GL_FRAGMENT_SHADER, GL_VERTEX_SHADER};
use palantir::fixed::Fx;
use palantir::shader::{split_shader_source, BuildOutcome, Shader, ShaderError, ShaderProgram};

fn linked_program(ctx: &mut GlContext) -> ShaderProgram {
    let pending = ShaderProgram::from_shaders(ctx, &Vec::new());
    pending.complete(BuildOutcome::success()).unwrap()
}

#[test]
fn split_two_section_source_round_trips() {
    let sections = split_shader_source("#vertex\nA\n#fragment\nB\n");
    assert_eq!(sections.vertex, "A\n");
    assert_eq!(sections.fragment, "B\n");
}

#[test]
fn split_discards_lines_before_any_marker() {
    let sections = split_shader_source("junk\nmore junk\n#vertex\nv1\nv2\n#fragment\nf1\n");
    assert_eq!(sections.vertex, "v1\nv2\n");
    assert_eq!(sections.fragment, "f1\n");
}

#[test]
fn split_terminates_last_line_missing_newline() {
    let sections = split_shader_source("#vertex\nA\n#fragment\nB");
    assert_eq!(sections.vertex, "A\n");
    assert_eq!(sections.fragment, "B\n");
}

#[test]
fn split_empty_input_gives_empty_sections() {
    let sections = split_shader_source("");
    assert_eq!(sections.vertex, "");
    assert_eq!(sections.fragment, "");
}

#[test]
fn load_from_source_records_compile_and_link() {
    let mut ctx = GlContext::new();
    let pending = ShaderProgram::load_from_source(
        &mut ctx,
        String::from("lambert"),
        "#vertex\nA\n#fragment\nB\n",
    )
    .unwrap();
    let cmds = ctx.commands();
    match &cmds[0] {
        Cmd::CompileShader { id, kind, source } => {
            assert_eq!(*id, 1);
            assert_eq!(*kind, GL_VERTEX_SHADER);
            assert_eq!(source, "A\n");
        }
        other => panic!("expected the vertex compile, got {:?}", other),
    }
    match &cmds[1] {
        Cmd::CompileShader { id, kind, source } => {
            assert_eq!(*id, 2);
            assert_eq!(*kind, GL_FRAGMENT_SHADER);
            assert_eq!(source, "B\n");
        }
        other => panic!("expected the fragment compile, got {:?}", other),
    }
    assert!(matches!(&cmds[2], Cmd::CreateProgram { id: 3 }));
    assert!(matches!(&cmds[3], Cmd::AttachShader { program: 3, shader: 1 }));
    assert!(matches!(&cmds[4], Cmd::AttachShader { program: 3, shader: 2 }));
    assert!(matches!(&cmds[5], Cmd::LinkProgram { program: 3 }));
    assert!(matches!(&cmds[6], Cmd::DetachShader { program: 3, shader: 1 }));
    assert!(matches!(&cmds[7], Cmd::DetachShader { program: 3, shader: 2 }));
    assert!(matches!(&cmds[8], Cmd::DeleteShader { id: 2 }));
    assert!(matches!(&cmds[9], Cmd::DeleteShader { id: 1 }));
    assert_eq!(cmds.len(), 10);
    let program = pending.complete(BuildOutcome::success()).unwrap();
    assert_eq!(program.id(), 3);
}

#[test]
fn load_from_source_rejects_empty_vertex_section() {
    let mut ctx = GlContext::new();
    let r = ShaderProgram::load_from_source(&mut ctx, String::from("broken"), "#fragment\nB\n");
    match r {
        Err(ShaderError::CompileError { identifier, message }) => {
            assert_eq!(identifier, "broken");
            assert_eq!(message, "the vertex section is empty");
        }
        other => panic!("expected a compile error, got {:?}", other),
    }
    assert_eq!(ctx.commands().len(), 0);
}

#[test]
fn load_from_source_rejects_empty_fragment_section() {
    let mut ctx = GlContext::new();
    let r = ShaderProgram::load_from_source(&mut ctx, String::from("broken"), "#vertex\nA\n");
    match r {
        Err(ShaderError::CompileError { message, .. }) => {
            assert_eq!(message, "the fragment section is empty");
        }
        other => panic!("expected a compile error, got {:?}", other),
    }
}

#[test]
fn complete_reports_vertex_failure_first() {
    let mut ctx = GlContext::new();
    let pending = ShaderProgram::load_from_source(
        &mut ctx,
        String::from("lambert"),
        "#vertex\nA\n#fragment\nB\n",
    )
    .unwrap();
    let outcome = BuildOutcome {
        vertex_error: Some(String::from("bad vertex")),
        fragment_error: Some(String::from("bad fragment")),
        link_error: Some(String::from("bad link")),
    };
    match pending.complete(outcome) {
        Err(ShaderError::CompileError { identifier, message }) => {
            assert_eq!(identifier, "lambert");
            assert_eq!(message, "bad vertex");
        }
        other => panic!("expected a compile error, got {:?}", other),
    }
}

#[test]
fn complete_reports_link_failure() {
    let mut ctx = GlContext::new();
    let pending = ShaderProgram::load_from_source(
        &mut ctx,
        String::from("lambert"),
        "#vertex\nA\n#fragment\nB\n",
    )
    .unwrap();
    let outcome = BuildOutcome {
        vertex_error: None,
        fragment_error: None,
        link_error: Some(String::from("no main")),
    };
    match pending.complete(outcome) {
        Err(e @ ShaderError::LinkError { .. }) => {
            assert_eq!(e.describe(), "Program lambert failed to link shaders: no main");
        }
        other => panic!("expected a link error, got {:?}", other),
    }
}

#[test]
fn describe_compile_error() {
    let e = ShaderError::CompileError {
        identifier: String::from("lambert"),
        message: String::from("syntax"),
    };
    assert_eq!(e.describe(), "Shader lambert failed to compile: syntax");
}

#[test]
fn uniform_cache_queries_once_per_name() {
    let mut ctx = GlContext::new();
    let mut program = linked_program(&mut ctx);
    program.set_uniform_float(&mut ctx, String::from("alpha"), Fx::one());
    program.set_uniform_float(&mut ctx, String::from("alpha"), Fx::zero());
    program.set_uniform_float(&mut ctx, String::from("beta"), Fx::one());
    program.set_uniform_float(&mut ctx, String::from("alpha"), Fx::one());
    let cmds = ctx.commands();
    let mut alpha_queries: usize = 0;
    let mut beta_queries: usize = 0;
    let mut float_slots: Vec<usize> = Vec::new();
    for c in cmds.iter() {
        match c {
            Cmd::QueryUniformLocation { name, slot, .. } => {
                if name.as_str() == "alpha" {
                    alpha_queries += 1;
                    assert_eq!(*slot, 0);
                }
                if name.as_str() == "beta" {
                    beta_queries += 1;
                    assert_eq!(*slot, 1);
                }
            }
            Cmd::UploadFloat { slot, .. } => float_slots.push(*slot),
            _ => {}
        }
    }
    assert_eq!(alpha_queries, 1);
    assert_eq!(beta_queries, 1);
    // All three alpha uploads use the same slot; beta has its own.
    assert_eq!(float_slots, vec![0, 0, 1, 0]);
}

#[test]
fn set_texture_raises_texture_enable_uniform() {
    let mut ctx = GlContext::new();
    let mut program = linked_program(&mut ctx);
    let texture = palantir::texture::Texture::new(&mut ctx, 1, 1, vec![10, 20, 30]);
    program.set_texture(&mut ctx, texture);
    let cmds = ctx.commands();
    let mut saw_enable = false;
    for c in cmds.iter() {
        if let Cmd::UploadBool { value, .. } = c {
            assert!(*value);
            saw_enable = true;
        }
    }
    assert!(saw_enable);
    // Binding the program now binds its texture to unit 0 first.
    program.bind(&mut ctx);
    let cmds = ctx.commands();
    let n = cmds.len();
    assert!(matches!(&cmds[n - 2], Cmd::BindTexture { unit: 0, .. }));
    assert!(matches!(&cmds[n - 1], Cmd::UseProgram { .. }));
}

#[test]
fn bind_without_texture_unbinds_unit_zero() {
    let mut ctx = GlContext::new();
    let program = linked_program(&mut ctx);
    program.bind(&mut ctx);
    let cmds = ctx.commands();
    assert!(matches!(&cmds[cmds.len() - 2], Cmd::UnbindTexture { unit: 0 }));
    match &cmds[cmds.len() - 1] {
        Cmd::UseProgram { id } => assert_eq!(*id, program.id()),
        other => panic!("expected the program activation, got {:?}", other),
    }
}

#[test]
fn stage_constructors_record_their_kind() {
    let mut ctx = GlContext::new();
    let vs = Shader::from_vert_source(&mut ctx, String::from("void main() { }"));
    let fs = Shader::from_frag_source(&mut ctx, String::from("void main() { }"));
    assert_eq!(vs.id(), 1);
    assert_eq!(fs.id(), 2);
    let cmds = ctx.commands();
    assert!(matches!(&cmds[0], Cmd::CompileShader { kind, .. } if *kind == GL_VERTEX_SHADER));
    assert!(matches!(&cmds[1], Cmd::CompileShader { kind, .. } if *kind == GL_FRAGMENT_SHADER));
    vs.delete(&mut ctx);
    fs.delete(&mut ctx);
}

#[test]
fn unbind_deactivates_the_program() {
    let mut ctx = GlContext::new();
    let program = linked_program(&mut ctx);
    program.unbind(&mut ctx);
    let cmds = ctx.commands();
    assert!(matches!(&cmds[cmds.len() - 1], Cmd::UseProgram { id: 0 }));
}
