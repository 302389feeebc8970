//! Program assembly and linking: a failing link carries a nonempty
//! message taken from the info log, and location lookups succeed exactly
//! for declared names.

use glitter::context::program_context::ProgramBuilder;
use glitter::context::Context;
use glitter::machine::GlCall;
use glitter::shader::ShaderType;
use glitter::types::GLError;

#[test]
fn link_failure_carries_the_info_log_text() {
    let (ctx, mut gl) = Context::new();
    gl.set_link_ok(false);
    gl.set_info_log(b"error: bad shader pair".to_vec());
    let vertex = ctx.create_shader(&mut gl, ShaderType::Vertex).unwrap();
    let fragment = ctx.create_shader(&mut gl, ShaderType::Fragment).unwrap();
    let shaders = [vertex, fragment];
    let builder = ctx.build_program(&shaders);
    let err = builder.try_unwrap(&ctx, &mut gl).unwrap_err();
    match err {
        GLError::Message(m) => {
            assert_eq!(m, "error: bad shader pair");
            assert!(!m.is_empty());
        }
        other => panic!("expected a message, got {:?}", other),
    }
}

#[test]
fn link_failure_without_log_uses_the_fallback_message() {
    let (ctx, mut gl) = Context::new();
    gl.set_link_ok(false);
    let vertex = ctx.create_shader(&mut gl, ShaderType::Vertex).unwrap();
    let shaders = [vertex];
    let err = ProgramBuilder::new(&shaders).try_unwrap(&ctx, &mut gl).unwrap_err();
    match err {
        GLError::Message(m) => assert_eq!(m, "[Unknown program error]"),
        other => panic!("expected a message, got {:?}", other),
    }
}

#[test]
fn link_failure_with_invalid_text_uses_the_fallback_message() {
    let (ctx, mut gl) = Context::new();
    gl.set_link_ok(false);
    gl.set_info_log(vec![0xff, 0xfe, 0xfd]);
    let vertex = ctx.create_shader(&mut gl, ShaderType::Vertex).unwrap();
    let shaders = [vertex];
    let err = ProgramBuilder::new(&shaders).try_unwrap(&ctx, &mut gl).unwrap_err();
    match err {
        GLError::Message(m) => assert_eq!(m, "[Unknown program error]"),
        other => panic!("expected a message, got {:?}", other),
    }
}

#[test]
fn linked_program_resolves_declared_uniforms() {
    let (ctx, mut gl) = Context::new();
    gl.declare_uniform("tint".to_string(), 7);
    gl.declare_attrib("pos".to_string(), 2);
    let vertex = ctx.create_shader(&mut gl, ShaderType::Vertex).unwrap();
    let fragment = ctx.create_shader(&mut gl, ShaderType::Fragment).unwrap();
    let shaders = [vertex, fragment];
    let program = ctx.build_program(&shaders).try_unwrap(&ctx, &mut gl).unwrap();
    assert!(program.is_linked());

    let uniform = ctx.get_uniform_location(&mut gl, &program, "tint").unwrap();
    assert_eq!(uniform.gl_index, 7);
    let attrib = ctx.get_attrib_location(&mut gl, &program, "pos").unwrap();
    assert_eq!(attrib.gl_index, 2);

    let missing = ctx.get_uniform_location(&mut gl, &program, "shade").err().unwrap();
    assert_eq!(missing.name(), "shade");
    let missing = ctx.get_attrib_location(&mut gl, &program, "normal").unwrap_err();
    assert_eq!(missing.name(), "normal");
}

#[test]
fn builder_attaches_each_shader_once_in_order() {
    let (ctx, mut gl) = Context::new();
    let vertex = ctx.create_shader(&mut gl, ShaderType::Vertex).unwrap();
    let fragment = ctx.create_shader(&mut gl, ShaderType::Fragment).unwrap();
    let vertex_id = vertex.gl_id();
    let fragment_id = fragment.gl_id();
    let shaders = [vertex, fragment];
    let program = ctx.build_program(&shaders).try_unwrap(&ctx, &mut gl).unwrap();
    let program_id = program.gl_id();

    let attaches: Vec<&GlCall> = gl
        .log
        .iter()
        .filter(|c| matches!(c, GlCall::AttachShader { .. }))
        .collect();
    assert_eq!(attaches.len(), 2);
    assert_eq!(
        *attaches[0],
        GlCall::AttachShader { program: program_id, shader: vertex_id }
    );
    assert_eq!(
        *attaches[1],
        GlCall::AttachShader { program: program_id, shader: fragment_id }
    );
    assert!(gl.log.contains(&GlCall::LinkProgram { program: program_id }));
}

#[test]
fn interior_nul_in_a_name_is_reported_without_a_foreign_call() {
    let (ctx, mut gl) = Context::new();
    let program = ctx.build_program(&[]).try_unwrap(&ctx, &mut gl).unwrap();
    let len_before = gl.log.len();
    let err = ctx.get_uniform_location(&mut gl, &program, "ti\0nt").err().unwrap();
    assert_eq!(err.name(), "ti\0nt");
    assert_eq!(gl.log.len(), len_before);
}

#[test]
fn oversized_declared_location_is_not_found() {
    let (ctx, mut gl) = Context::new();
    gl.declare_attrib("huge".to_string(), 0x8000_0000);
    let program = ctx.build_program(&[]).try_unwrap(&ctx, &mut gl).unwrap();
    assert!(ctx.get_attrib_location(&mut gl, &program, "huge").is_err());
}

#[test]
fn creation_failure_reports_a_message() {
    let (ctx, mut gl) = Context::new();
    gl.set_alloc_ok(false);
    let err = ctx.build_program(&[]).try_unwrap(&ctx, &mut gl).unwrap_err();
    match err {
        GLError::Message(m) => assert_eq!(m, "Error creating OpenGL program"),
        other => panic!("expected a message, got {:?}", other),
    }
}
