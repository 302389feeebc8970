//! The framebuffer builder: completeness checks against the collected
//! attachments, the driver's image verdicts, and last-write-wins per
//! attachment point.

use glitter::context::Context;
use glitter::framebuffer::{FramebufferAttachment, FramebufferBuilder};
use glitter::machine::{FramebufferStatus, GlCall};
use glitter::types::{BufferBits, GLError, GLFramebufferError};

#[test]
fn no_attachments_is_incomplete_for_want_of_one() {
    let (mut ctx, mut gl) = Context::new();
    let err = FramebufferBuilder::new().try_unwrap(&mut ctx, &mut gl).unwrap_err();
    assert_eq!(
        err,
        GLError::Framebuffer(GLFramebufferError::IncompleteMissingAttachment)
    );
    let n = gl.log.len();
    assert!(matches!(gl.log[n - 2], GlCall::CheckFramebufferStatus {
        result: FramebufferStatus::IncompleteMissingAttachment,
    }));
    assert!(matches!(gl.log[n - 1], GlCall::DeleteFramebuffer { .. }));
}

#[test]
fn color_texture_attachment_completes() {
    let (mut ctx, mut gl) = Context::new();
    let texture = ctx.gen_texture(&mut gl);
    let texture_id = texture.gl_id();
    let fbo = FramebufferBuilder::new()
        .texture_2d(FramebufferAttachment::ColorAttachment0, &texture, 0)
        .try_unwrap(&mut ctx, &mut gl)
        .unwrap();
    let fbo_id = fbo.gl_id();
    assert!(gl.log.contains(&GlCall::GenFramebuffer { result: fbo_id }));
    assert!(gl.log.contains(&GlCall::BindFramebuffer { id: fbo_id }));
    assert!(gl.log.contains(&GlCall::FramebufferTexture2d {
        attachment: FramebufferAttachment::ColorAttachment0,
        texture: texture_id,
        level: 0,
    }));
    assert!(gl.log.contains(&GlCall::CheckFramebufferStatus {
        result: FramebufferStatus::Complete,
    }));
    fbo.delete(&mut gl);
    texture.delete(&mut gl);
}

#[test]
fn flawed_attachment_verdict_is_reported() {
    let (mut ctx, mut gl) = Context::new();
    gl.set_framebuffer_flaws(true, false);
    let renderbuffer = ctx.gen_renderbuffer(&mut gl);
    let err = FramebufferBuilder::new()
        .renderbuffer(FramebufferAttachment::DepthAttachment, &renderbuffer)
        .try_unwrap(&mut ctx, &mut gl)
        .unwrap_err();
    assert_eq!(err, GLError::Framebuffer(GLFramebufferError::IncompleteAttachment));
    renderbuffer.delete(&mut gl);
}

#[test]
fn unsupported_combination_verdict_is_reported() {
    let (mut ctx, mut gl) = Context::new();
    gl.set_framebuffer_flaws(false, true);
    let renderbuffer = ctx.gen_renderbuffer(&mut gl);
    let err = FramebufferBuilder::new()
        .renderbuffer(FramebufferAttachment::StencilAttachment, &renderbuffer)
        .try_unwrap(&mut ctx, &mut gl)
        .unwrap_err();
    assert_eq!(err, GLError::Framebuffer(GLFramebufferError::Unsupported));
    renderbuffer.delete(&mut gl);
}

#[test]
fn last_write_per_attachment_point_wins() {
    let (mut ctx, mut gl) = Context::new();
    let texture = ctx.gen_texture(&mut gl);
    let renderbuffer = ctx.gen_renderbuffer(&mut gl);
    let renderbuffer_id = renderbuffer.gl_id();
    let fbo = FramebufferBuilder::new()
        .texture_2d(FramebufferAttachment::ColorAttachment0, &texture, 0)
        .renderbuffer(FramebufferAttachment::ColorAttachment0, &renderbuffer)
        .try_unwrap(&mut ctx, &mut gl)
        .unwrap();
    assert!(!gl
        .log
        .iter()
        .any(|c| matches!(c, GlCall::FramebufferTexture2d { .. })));
    assert!(gl.log.contains(&GlCall::FramebufferRenderbuffer {
        attachment: FramebufferAttachment::ColorAttachment0,
        renderbuffer: renderbuffer_id,
    }));
    fbo.delete(&mut gl);
    texture.delete(&mut gl);
    renderbuffer.delete(&mut gl);
}

#[test]
fn bound_framebuffer_can_be_cleared() {
    let (mut ctx, mut gl) = Context::new();
    let texture = ctx.gen_texture(&mut gl);
    let fbo = FramebufferBuilder::new()
        .texture_2d(FramebufferAttachment::ColorAttachment0, &texture, 0)
        .unwrap(&mut ctx, &mut gl);
    let mut binder = ctx.split_framebuffer();
    let mut binding = binder.bind(&mut gl, fbo);
    binding.clear(&mut gl, BufferBits::color_buffer());
    assert_eq!(
        *gl.log.last().unwrap(),
        GlCall::Clear { buffers: BufferBits { color: true, depth: false, stencil: false } }
    );
    let fbo = binder.release(binding).unwrap();
    ctx.join_framebuffer(binder);
    fbo.delete(&mut gl);
    texture.delete(&mut gl);
}
