//! Resource handle lifecycle: every create is paired with exactly one
//! delete of the same identifier, and a refusing allocator surfaces as a
//! creation failure.

use glitter::context::Context;
use glitter::laws::{count_creates, count_deletes};
use glitter::machine::{GlCall, ResourceKind};
use glitter::shader::ShaderType;

#[test]
fn create_then_destroy_program_is_balanced() {
    let (ctx, mut gl) = Context::new();
    let program = ctx.create_program(&mut gl).unwrap();
    let id = program.gl_id();
    program.delete(&mut gl);
    assert_eq!(gl.log.len(), 2);
    assert_eq!(gl.log[0], GlCall::CreateProgram { result: id });
    assert_eq!(gl.log[1], GlCall::DeleteProgram { id });
    assert_eq!(count_creates(&gl.log, ResourceKind::Program), 1);
    assert_eq!(count_deletes(&gl.log, ResourceKind::Program), 1);
}

#[test]
fn create_then_destroy_every_kind_is_balanced() {
    let (ctx, mut gl) = Context::new();
    let program = ctx.create_program(&mut gl).unwrap();
    program.delete(&mut gl);
    let shader = ctx.create_shader(&mut gl, ShaderType::Vertex).unwrap();
    shader.delete(&mut gl);
    let buffer = ctx.gen_buffer(&mut gl);
    buffer.delete(&mut gl);
    let texture = ctx.gen_texture::<glitter::texture::Tx2d>(&mut gl);
    texture.delete(&mut gl);
    let framebuffer = ctx.gen_framebuffer(&mut gl);
    framebuffer.delete(&mut gl);
    let renderbuffer = ctx.gen_renderbuffer(&mut gl);
    renderbuffer.delete(&mut gl);
    for kind in [
        ResourceKind::Program,
        ResourceKind::Shader,
        ResourceKind::Buffer,
        ResourceKind::Texture,
        ResourceKind::Framebuffer,
        ResourceKind::Renderbuffer,
    ] {
        assert_eq!(count_creates(&gl.log, kind), 1);
        assert_eq!(count_deletes(&gl.log, kind), 1);
    }
}

#[test]
fn delete_names_the_created_identifier() {
    let (ctx, mut gl) = Context::new();
    let buffer = ctx.gen_buffer(&mut gl);
    let id = buffer.gl_id();
    assert!(id != 0);
    buffer.delete(&mut gl);
    assert_eq!(gl.log[0], GlCall::GenBuffer { result: id });
    assert_eq!(gl.log[1], GlCall::DeleteBuffer { id });
}

#[test]
fn identifiers_are_never_reused() {
    let (ctx, mut gl) = Context::new();
    let a = ctx.gen_buffer(&mut gl);
    let a_id = a.gl_id();
    a.delete(&mut gl);
    let b = ctx.gen_buffer(&mut gl);
    let b_id = b.gl_id();
    assert_ne!(a_id, b_id);
    b.delete(&mut gl);
}

#[test]
fn refusing_allocator_fails_creation() {
    let (ctx, mut gl) = Context::new();
    gl.set_alloc_ok(false);
    assert!(ctx.create_program(&mut gl).is_err());
    assert!(ctx.create_shader(&mut gl, ShaderType::Fragment).is_err());
    assert_eq!(gl.log[0], GlCall::CreateProgram { result: 0 });
    assert_eq!(
        gl.log[1],
        GlCall::CreateShader { ty: ShaderType::Fragment, result: 0 }
    );
}
