//! Framebuffer objects: the attachment points they expose, the owned
//! handle, and the builder and binding types that assemble and prove a
//! complete framebuffer.

use vstd::prelude::*;
use crate::context::Context;
use crate::machine::{
    lemma_attach_last, lemma_lookup_last, same_but_log, same_config, spec_attach,
    spec_attachments_in, AttachmentSet, FramebufferStatus, GlCall, GlConfig, GlMachine,
};
use crate::renderbuffer::Renderbuffer;
use crate::texture::Texture2d;
use crate::types::{BufferBits, GLError, GLFramebufferError};

verus! {

/// A named slot within a framebuffer that can hold one image source.
#[derive(Clone, Copy, Debug, PartialEq, Eq, Structural)]
pub enum FramebufferAttachment {
    ColorAttachment0,
    DepthAttachment,
    StencilAttachment,
}

/// An owned handle to one driver-side framebuffer object.
#[derive(Debug)]
pub struct Framebuffer {
    gl_id: u32,
}

impl Framebuffer {
    /// The native identifier this handle wraps.
    pub closed spec fn spec_gl_id(&self) -> u32 {
        self.gl_id
    }

    /// Wrap an already-allocated native identifier.  The caller vouches
    /// that the identifier names a live framebuffer object it owns.
    pub fn from_gl(id: u32) -> (f: Framebuffer)
        ensures
            f.spec_gl_id() == id,
    {
        Framebuffer { gl_id: id }
    }

    /// Read the native identifier.
    pub fn gl_id(&self) -> (r: u32)
        ensures
            r == self.spec_gl_id(),
    {
        self.gl_id
    }

    /// Release the native framebuffer object.  Consuming the handle makes
    /// a second release of the same resource impossible.
    pub fn delete(self, gl: &mut GlMachine)
        ensures
            final(gl).log@ == old(gl).log@.push(
                GlCall::DeleteFramebuffer { id: self.spec_gl_id() },
            ),
            final(gl).next_id == old(gl).next_id,
            same_config(old(gl).config, final(gl).config),
            final(gl).bindings == old(gl).bindings,
            final(gl).fb_attachments@ == old(gl).fb_attachments@,
    {
        let id = self.gl_id;
        gl.delete_framebuffer(id);
    }
}

/// What a framebuffer completeness check maps to in the library's error
/// vocabulary: nothing when complete, a tagged error otherwise.
pub open spec fn spec_status_error(s: FramebufferStatus) -> Option<GLFramebufferError> {
    match s {
        FramebufferStatus::Complete => None,
        FramebufferStatus::IncompleteAttachment => Some(GLFramebufferError::IncompleteAttachment),
        FramebufferStatus::IncompleteMissingAttachment => Some(
            GLFramebufferError::IncompleteMissingAttachment,
        ),
        FramebufferStatus::Unsupported => Some(GLFramebufferError::Unsupported),
    }
}

/// The capability to bind framebuffers.
#[derive(Debug)]
pub struct FramebufferBinder {
    engaged: bool,
}

/// Scoped proof that a specific framebuffer is bound.  A binding made by
/// `bind` owns the framebuffer; one made by `current_binding` stands for
/// whatever was already bound (the default framebuffer at startup) and
/// owns no handle.
#[derive(Debug)]
pub struct FramebufferBinding {
    fb_id: u32,
    fbo: Option<Framebuffer>,
}

impl FramebufferBinding {
    /// The native identifier of the bound framebuffer.
    pub closed spec fn spec_fb_id(&self) -> u32 {
        self.fb_id
    }

    /// The framebuffer handle this binding holds, if it holds one.
    pub closed spec fn spec_fbo(&self) -> Option<Framebuffer> {
        self.fbo
    }

    /// Check the completeness of the bound framebuffer: nothing when it
    /// is complete, the tagged incompleteness otherwise.
    pub fn check_framebuffer_status(&self, gl: &mut GlMachine) -> (r: Option<GLFramebufferError>)
        requires
            old(gl).bindings.framebuffer == self.spec_fb_id(),
        ensures
            same_but_log(*old(gl), *final(gl)),
            final(gl).log@ == old(gl).log@.push(
                GlCall::CheckFramebufferStatus { result: old(gl).spec_status() },
            ),
            r == spec_status_error(old(gl).spec_status()),
    {
        let s = gl.check_framebuffer_status();
        match s {
            FramebufferStatus::Complete => None,
            FramebufferStatus::IncompleteAttachment => Some(
                GLFramebufferError::IncompleteAttachment,
            ),
            FramebufferStatus::IncompleteMissingAttachment => Some(
                GLFramebufferError::IncompleteMissingAttachment,
            ),
            FramebufferStatus::Unsupported => Some(GLFramebufferError::Unsupported),
        }
    }

    /// Attach a renderbuffer image to an attachment point of the bound
    /// framebuffer.  The binding proves the attach lands on this
    /// framebuffer and no other.
    pub fn renderbuffer(
        &mut self,
        gl: &mut GlMachine,
        attachment: FramebufferAttachment,
        renderbuffer: &Renderbuffer,
    )
        requires
            old(gl).bindings.framebuffer == old(self).spec_fb_id(),
        ensures
            *final(self) == *old(self),
            final(gl).next_id == old(gl).next_id,
            same_config(old(gl).config, final(gl).config),
            final(gl).bindings == old(gl).bindings,
            final(gl).fb_attachments@ == spec_attach(
                old(gl).fb_attachments@,
                old(self).spec_fb_id(),
                attachment,
            ),
            final(gl).log@ == old(gl).log@.push(
                GlCall::FramebufferRenderbuffer {
                    attachment: attachment,
                    renderbuffer: renderbuffer.spec_gl_id(),
                },
            ),
    {
        gl.framebuffer_renderbuffer(attachment, renderbuffer.gl_id());
    }

    /// Attach one level of a two-dimensional texture to an attachment
    /// point of the bound framebuffer.  Only the base level can be
    /// attached.  The binding proves the attach lands on this
    /// framebuffer and no other.
    pub fn texture_2d(
        &mut self,
        gl: &mut GlMachine,
        attachment: FramebufferAttachment,
        texture: &Texture2d,
        level: i32,
    )
        requires
            old(gl).bindings.framebuffer == old(self).spec_fb_id(),
            level == 0,
        ensures
            *final(self) == *old(self),
            final(gl).next_id == old(gl).next_id,
            same_config(old(gl).config, final(gl).config),
            final(gl).bindings == old(gl).bindings,
            final(gl).fb_attachments@ == spec_attach(
                old(gl).fb_attachments@,
                old(self).spec_fb_id(),
                attachment,
            ),
            final(gl).log@ == old(gl).log@.push(
                GlCall::FramebufferTexture2d {
                    attachment: attachment,
                    texture: texture.spec_gl_id(),
                    level: level,
                },
            ),
    {
        gl.framebuffer_texture_2d(attachment, texture.gl_id(), level);
    }

    /// Attach by raw texture identifier; the builder applies its
    /// collected attachments through this.
    fn attach_texture_id(
        &mut self,
        gl: &mut GlMachine,
        attachment: FramebufferAttachment,
        texture: u32,
        level: i32,
    )
        requires
            old(gl).bindings.framebuffer == old(self).spec_fb_id(),
        ensures
            *final(self) == *old(self),
            final(gl).next_id == old(gl).next_id,
            same_config(old(gl).config, final(gl).config),
            final(gl).bindings == old(gl).bindings,
            final(gl).fb_attachments@ == spec_attach(
                old(gl).fb_attachments@,
                old(self).spec_fb_id(),
                attachment,
            ),
            final(gl).log@ == old(gl).log@.push(
                GlCall::FramebufferTexture2d {
                    attachment: attachment,
                    texture: texture,
                    level: level,
                },
            ),
    {
        gl.framebuffer_texture_2d(attachment, texture, level);
    }

    /// Attach by raw renderbuffer identifier; the builder applies its
    /// collected attachments through this.
    fn attach_renderbuffer_id(
        &mut self,
        gl: &mut GlMachine,
        attachment: FramebufferAttachment,
        renderbuffer: u32,
    )
        requires
            old(gl).bindings.framebuffer == old(self).spec_fb_id(),
        ensures
            *final(self) == *old(self),
            final(gl).next_id == old(gl).next_id,
            same_config(old(gl).config, final(gl).config),
            final(gl).bindings == old(gl).bindings,
            final(gl).fb_attachments@ == spec_attach(
                old(gl).fb_attachments@,
                old(self).spec_fb_id(),
                attachment,
            ),
            final(gl).log@ == old(gl).log@.push(
                GlCall::FramebufferRenderbuffer {
                    attachment: attachment,
                    renderbuffer: renderbuffer,
                },
            ),
    {
        gl.framebuffer_renderbuffer(attachment, renderbuffer);
    }

    /// Clear the selected buffers of the bound framebuffer.
    pub fn clear(&mut self, gl: &mut GlMachine, buffers: BufferBits)
        requires
            old(gl).bindings.framebuffer == old(self).spec_fb_id(),
        ensures
            *final(self) == *old(self),
            same_but_log(*old(gl), *final(gl)),
            final(gl).log@ == old(gl).log@.push(GlCall::Clear { buffers: buffers }),
    {
        gl.clear(buffers);
    }
}

impl FramebufferBinder {
    /// Whether the binder can accept a bind: it has no binding out.
    pub closed spec fn is_free(&self) -> bool {
        !self.engaged
    }

    /// A fresh, free binder.  Only the context constructs one, so only
    /// one exists for the framebuffer slot.
    pub(crate) fn fresh() -> (b: FramebufferBinder)
        ensures
            b.is_free(),
    {
        FramebufferBinder { engaged: false }
    }

    /// A binding for whatever framebuffer is already bound, without
    /// binding anew.  This is the startup boundary for the default
    /// framebuffer: the machine state itself witnesses what is bound, so
    /// no foreign call is made and no handle is owned.
    pub fn current_binding(&mut self, gl: &GlMachine) -> (b: FramebufferBinding)
        requires
            old(self).is_free(),
        ensures
            !final(self).is_free(),
            b.spec_fb_id() == gl.bindings.framebuffer,
            b.spec_fbo() is None,
    {
        self.engaged = true;
        FramebufferBinding { fb_id: gl.bindings.framebuffer, fbo: None }
    }

    /// Bind a framebuffer.  The binding owns the framebuffer and engages
    /// the binder, so a second bind is impossible until the binding is
    /// released.
    pub fn bind(&mut self, gl: &mut GlMachine, fbo: Framebuffer) -> (b: FramebufferBinding)
        requires
            old(self).is_free(),
        ensures
            !final(self).is_free(),
            b.spec_fb_id() == fbo.spec_gl_id(),
            b.spec_fbo() == Some(fbo),
            final(gl).next_id == old(gl).next_id,
            same_config(old(gl).config, final(gl).config),
            final(gl).fb_attachments@ == old(gl).fb_attachments@,
            final(gl).bindings.framebuffer == fbo.spec_gl_id(),
            final(gl).bindings.program == old(gl).bindings.program,
            final(gl).bindings.array_buffer == old(gl).bindings.array_buffer,
            final(gl).bindings.element_array_buffer == old(gl).bindings.element_array_buffer,
            final(gl).log@ == old(gl).log@.push(GlCall::BindFramebuffer { id: fbo.spec_gl_id() }),
    {
        self.engaged = true;
        gl.bind_framebuffer(fbo.gl_id());
        FramebufferBinding { fb_id: fbo.gl_id(), fbo: Some(fbo) }
    }

    /// Take a binding back, freeing the slot for the next bind and
    /// returning the framebuffer, if the binding held one.  No foreign
    /// call is needed: only rebinding changes the slot.
    pub fn release(&mut self, binding: FramebufferBinding) -> (f: Option<Framebuffer>)
        requires
            !old(self).is_free(),
        ensures
            final(self).is_free(),
            f == binding.spec_fbo(),
    {
        self.engaged = false;
        let FramebufferBinding { fb_id: _, fbo } = binding;
        fbo
    }
}

/// One collected attachment of a framebuffer under construction.
#[derive(Clone, Copy, Debug, PartialEq, Eq, Structural)]
pub enum BuilderAttachment {
    Texture2d { id: u32, level: i32 },
    Renderbuffer { id: u32 },
}

/// Assembles a framebuffer: collects at most one image source per
/// attachment point (the last write to a point wins), then builds the
/// framebuffer, applies the attachments, and checks completeness.
#[derive(Clone, Copy, Debug, PartialEq, Eq, Structural)]
pub struct FramebufferBuilder {
    pub color0: Option<BuilderAttachment>,
    pub depth: Option<BuilderAttachment>,
    pub stencil: Option<BuilderAttachment>,
}

/// The calls one collected attachment turns into when applied.
pub open spec fn spec_slot_calls(
    slot: Option<BuilderAttachment>,
    attachment: FramebufferAttachment,
) -> Seq<GlCall> {
    match slot {
        None => Seq::<GlCall>::empty(),
        Some(BuilderAttachment::Texture2d { id, level }) => seq![
            GlCall::FramebufferTexture2d { attachment: attachment, texture: id, level: level },
        ],
        Some(BuilderAttachment::Renderbuffer { id }) => seq![
            GlCall::FramebufferRenderbuffer { attachment: attachment, renderbuffer: id },
        ],
    }
}

/// What checking a framebuffer assembled from the given attachment set
/// reports, under the given driver configuration.
pub open spec fn spec_builder_status(cfg: GlConfig, s: AttachmentSet) -> FramebufferStatus {
    if s.is_empty_spec() {
        FramebufferStatus::IncompleteMissingAttachment
    } else if cfg.fb_flawed_attachment {
        FramebufferStatus::IncompleteAttachment
    } else if cfg.fb_unsupported {
        FramebufferStatus::Unsupported
    } else {
        FramebufferStatus::Complete
    }
}

impl FramebufferBuilder {
    /// Which attachment points the builder has filled.
    pub open spec fn spec_attachment_set(self) -> AttachmentSet {
        AttachmentSet {
            color0: self.color0 is Some,
            depth: self.depth is Some,
            stencil: self.stencil is Some,
        }
    }

    /// The calls applying the collected attachments turns into, in the
    /// fixed application order: color, then depth, then stencil.
    pub open spec fn spec_attach_calls(self) -> Seq<GlCall> {
        spec_slot_calls(self.color0, FramebufferAttachment::ColorAttachment0) + spec_slot_calls(
            self.depth,
            FramebufferAttachment::DepthAttachment,
        ) + spec_slot_calls(self.stencil, FramebufferAttachment::StencilAttachment)
    }

    /// A builder with no attachments collected.
    pub fn new() -> (b: FramebufferBuilder)
        ensures
            b == (FramebufferBuilder { color0: None, depth: None, stencil: None }),
    {
        FramebufferBuilder { color0: None, depth: None, stencil: None }
    }

    /// Collect one level of a two-dimensional texture for an attachment
    /// point, replacing whatever the point held.  Only the base level
    /// can be attached.
    pub fn texture_2d(
        self,
        attachment: FramebufferAttachment,
        texture: &Texture2d,
        level: i32,
    ) -> (r: FramebufferBuilder)
        requires
            level == 0,
        ensures
            r == self.spec_set_slot(
                attachment,
                BuilderAttachment::Texture2d { id: texture.spec_gl_id(), level: level },
            ),
    {
        let a = BuilderAttachment::Texture2d { id: texture.gl_id(), level: level };
        self.set_slot(attachment, a)
    }

    /// Collect a renderbuffer for an attachment point, replacing
    /// whatever the point held.
    pub fn renderbuffer(
        self,
        attachment: FramebufferAttachment,
        renderbuffer: &Renderbuffer,
    ) -> (r: FramebufferBuilder)
        ensures
            r == self.spec_set_slot(
                attachment,
                BuilderAttachment::Renderbuffer { id: renderbuffer.spec_gl_id() },
            ),
    {
        let a = BuilderAttachment::Renderbuffer { id: renderbuffer.gl_id() };
        self.set_slot(attachment, a)
    }

    /// The builder with one attachment point replaced.
    pub open spec fn spec_set_slot(
        self,
        attachment: FramebufferAttachment,
        a: BuilderAttachment,
    ) -> FramebufferBuilder {
        match attachment {
            FramebufferAttachment::ColorAttachment0 => FramebufferBuilder {
                color0: Some(a),
                ..self
            },
            FramebufferAttachment::DepthAttachment => FramebufferBuilder { depth: Some(a), ..self },
            FramebufferAttachment::StencilAttachment => FramebufferBuilder {
                stencil: Some(a),
                ..self
            },
        }
    }

    /// Replace one attachment point.
    fn set_slot(self, attachment: FramebufferAttachment, a: BuilderAttachment) -> (r:
        FramebufferBuilder)
        ensures
            r == self.spec_set_slot(attachment, a),
    {
        match attachment {
            FramebufferAttachment::ColorAttachment0 => FramebufferBuilder {
                color0: Some(a),
                ..self
            },
            FramebufferAttachment::DepthAttachment => FramebufferBuilder { depth: Some(a), ..self },
            FramebufferAttachment::StencilAttachment => FramebufferBuilder {
                stencil: Some(a),
                ..self
            },
        }
    }

    /// Build the framebuffer: allocate it, bind it, apply the collected
    /// attachments in the fixed order, and check completeness.  The
    /// framebuffer is returned when it is complete; an incomplete one is
    /// released and its tagged incompleteness returned.  A framebuffer
    /// with no attachments is always incomplete for want of one.
    #[verifier::rlimit(100)]
    #[verifier::spinoff_prover]
    pub fn try_unwrap(self, ctx: &mut Context, gl: &mut GlMachine) -> (r: Result<
        Framebuffer,
        GLError,
    >)
        requires
            old(ctx).has_framebuffer_binder(),
            old(gl).ids_fresh(),
            0 < old(gl).next_id < 0xffff_ffffu32,
        ensures
            final(ctx).has_framebuffer_binder(),
            final(ctx).has_program_binder() == old(ctx).has_program_binder(),
            final(ctx).has_array_buffer_binder() == old(ctx).has_array_buffer_binder(),
            final(ctx).has_element_array_buffer_binder()
                == old(ctx).has_element_array_buffer_binder(),
            final(gl).next_id == old(gl).next_id + 1,
            same_config(old(gl).config, final(gl).config),
            final(gl).bindings.framebuffer == old(gl).next_id,
            final(gl).bindings.program == old(gl).bindings.program,
            final(gl).bindings.array_buffer == old(gl).bindings.array_buffer,
            final(gl).bindings.element_array_buffer == old(gl).bindings.element_array_buffer,
            r is Ok <==> spec_builder_status(old(gl).config, self.spec_attachment_set())
                == FramebufferStatus::Complete,
            r matches Ok(f) ==> {
                &&& f.spec_gl_id() == old(gl).next_id
                &&& spec_attachments_in(final(gl).fb_attachments@, f.spec_gl_id())
                    == self.spec_attachment_set()
            },
            r matches Err(e) ==> {
                &&& e matches GLError::Framebuffer(fe)
                &&& Some(fe) == spec_status_error(
                    spec_builder_status(old(gl).config, self.spec_attachment_set()),
                )
            },
            final(gl).log@ == old(gl).log@ + seq![
                GlCall::GenFramebuffer { result: old(gl).next_id },
                GlCall::BindFramebuffer { id: old(gl).next_id },
            ] + self.spec_attach_calls() + seq![
                GlCall::CheckFramebufferStatus {
                    result: spec_builder_status(old(gl).config, self.spec_attachment_set()),
                },
            ] + if spec_builder_status(old(gl).config, self.spec_attachment_set())
                == FramebufferStatus::Complete {
                Seq::<GlCall>::empty()
            } else {
                seq![GlCall::DeleteFramebuffer { id: old(gl).next_id }]
            },
    {
        let ghost table0 = gl.fb_attachments@;
        let ghost log0 = gl.log@;
        let fbo = ctx.gen_framebuffer(gl);
        let id = fbo.gl_id();
        let mut binder = ctx.split_framebuffer();
        let mut binding = binder.bind(gl, fbo);
        let ghost log2 = gl.log@;
        proof {
            assert(gl.fb_attachments@ =~= table0.push((id, AttachmentSet::empty_spec())));
            assert(log2 =~= log0 + seq![
                GlCall::GenFramebuffer { result: id },
                GlCall::BindFramebuffer { id: id },
            ]);
        }
        self.apply_attachments(&mut binding, gl, Ghost(table0));
        proof {
            lemma_lookup_last(table0, id, self.spec_attachment_set());
        }
        let ghost log5 = gl.log@;
        let status = binding.check_framebuffer_status(gl);
        let ghost log6 = gl.log@;
        let fbo_back = binder.release(binding);
        ctx.join_framebuffer(binder);
        let fbo = match fbo_back {
            Some(f) => f,
            None => {
                proof {
                    assert(false);
                }
                Framebuffer::from_gl(0)
            },
        };
        proof {
            assert(log6 =~= log0 + seq![
                GlCall::GenFramebuffer { result: id },
                GlCall::BindFramebuffer { id: id },
            ] + self.spec_attach_calls() + seq![
                GlCall::CheckFramebufferStatus {
                    result: spec_builder_status(old(gl).config, self.spec_attachment_set()),
                },
            ]);
        }
        match status {
            None => {
                proof {
                    assert(gl.log@ =~= log6 + Seq::<GlCall>::empty());
                }
                Ok(fbo)
            },
            Some(err) => {
                fbo.delete(gl);
                proof {
                    assert(gl.log@ =~= log6 + seq![
                        GlCall::DeleteFramebuffer { id: old(gl).next_id },
                    ]);
                }
                Err(GLError::Framebuffer(err))
            },
        }
    }

    /// Apply the collected attachments to the bound, freshly recorded
    /// framebuffer, in the fixed order: color, then depth, then stencil.
    fn apply_attachments(
        self,
        binding: &mut FramebufferBinding,
        gl: &mut GlMachine,
        Ghost(table0): Ghost<Seq<(u32, AttachmentSet)>>,
    )
        requires
            old(gl).bindings.framebuffer == old(binding).spec_fb_id(),
            old(gl).fb_attachments@ == table0.push(
                (old(binding).spec_fb_id(), AttachmentSet::empty_spec()),
            ),
            forall|j: int|
                0 <= j < table0.len() ==> (#[trigger] table0[j]).0 != old(binding).spec_fb_id(),
        ensures
            *final(binding) == *old(binding),
            final(gl).next_id == old(gl).next_id,
            same_config(old(gl).config, final(gl).config),
            final(gl).bindings == old(gl).bindings,
            final(gl).fb_attachments@ == table0.push(
                (old(binding).spec_fb_id(), self.spec_attachment_set()),
            ),
            final(gl).log@ == old(gl).log@ + self.spec_attach_calls(),
    {
        let ghost id = old(binding).spec_fb_id();
        let ghost log2 = gl.log@;
        let ghost s0 = AttachmentSet::empty_spec();
        if let Some(a) = self.color0 {
            proof {
                lemma_attach_last(table0, id, s0, FramebufferAttachment::ColorAttachment0);
            }
            match a {
                BuilderAttachment::Texture2d { id: tid, level } => {
                    binding.attach_texture_id(
                        gl,
                        FramebufferAttachment::ColorAttachment0,
                        tid,
                        level,
                    );
                },
                BuilderAttachment::Renderbuffer { id: rid } => {
                    binding.attach_renderbuffer_id(
                        gl,
                        FramebufferAttachment::ColorAttachment0,
                        rid,
                    );
                },
            }
        }
        let ghost s1 = if self.color0 is Some {
            s0.spec_with(FramebufferAttachment::ColorAttachment0)
        } else {
            s0
        };
        assert(gl.fb_attachments@ =~= table0.push((id, s1)));
        assert(gl.log@ =~= log2 + spec_slot_calls(
            self.color0,
            FramebufferAttachment::ColorAttachment0,
        ));
        let ghost log3 = gl.log@;
        if let Some(a) = self.depth {
            proof {
                lemma_attach_last(table0, id, s1, FramebufferAttachment::DepthAttachment);
            }
            match a {
                BuilderAttachment::Texture2d { id: tid, level } => {
                    binding.attach_texture_id(
                        gl,
                        FramebufferAttachment::DepthAttachment,
                        tid,
                        level,
                    );
                },
                BuilderAttachment::Renderbuffer { id: rid } => {
                    binding.attach_renderbuffer_id(gl, FramebufferAttachment::DepthAttachment, rid);
                },
            }
        }
        let ghost s2 = if self.depth is Some {
            s1.spec_with(FramebufferAttachment::DepthAttachment)
        } else {
            s1
        };
        assert(gl.fb_attachments@ =~= table0.push((id, s2)));
        assert(gl.log@ =~= log3 + spec_slot_calls(
            self.depth,
            FramebufferAttachment::DepthAttachment,
        ));
        let ghost log4 = gl.log@;
        if let Some(a) = self.stencil {
            proof {
                lemma_attach_last(table0, id, s2, FramebufferAttachment::StencilAttachment);
            }
            match a {
                BuilderAttachment::Texture2d { id: tid, level } => {
                    binding.attach_texture_id(
                        gl,
                        FramebufferAttachment::StencilAttachment,
                        tid,
                        level,
                    );
                },
                BuilderAttachment::Renderbuffer { id: rid } => {
                    binding.attach_renderbuffer_id(
                        gl,
                        FramebufferAttachment::StencilAttachment,
                        rid,
                    );
                },
            }
        }
        let ghost s3 = if self.stencil is Some {
            s2.spec_with(FramebufferAttachment::StencilAttachment)
        } else {
            s2
        };
        assert(gl.fb_attachments@ =~= table0.push((id, s3)));
        assert(gl.log@ =~= log4 + spec_slot_calls(
            self.stencil,
            FramebufferAttachment::StencilAttachment,
        ));
        proof {
            assert(s3 == self.spec_attachment_set());
            assert(gl.log@ =~= log2 + self.spec_attach_calls());
        }
    }

    /// Build the framebuffer, which must come out complete.
    pub fn unwrap(self, ctx: &mut Context, gl: &mut GlMachine) -> (f: Framebuffer)
        requires
            old(ctx).has_framebuffer_binder(),
            old(gl).ids_fresh(),
            0 < old(gl).next_id < 0xffff_ffffu32,
            spec_builder_status(old(gl).config, self.spec_attachment_set())
                == FramebufferStatus::Complete,
        ensures
            f.spec_gl_id() == old(gl).next_id,
            final(ctx).has_framebuffer_binder(),
    {
        let r = self.try_unwrap(ctx, gl);
        match r {
            Ok(f) => f,
            Err(_) => {
                proof {
                    assert(false);
                }
                Framebuffer::from_gl(0)
            },
        }
    }
}

impl Context {
    /// Allocate a framebuffer object, recorded with no attachments, and
    /// take ownership of it.
    pub fn gen_framebuffer(&self, gl: &mut GlMachine) -> (f: Framebuffer)
        ensures
            f.spec_gl_id() == old(gl).spec_gen_result(),
            final(gl).next_id == old(gl).spec_next_after(f.spec_gl_id()),
            same_config(old(gl).config, final(gl).config),
            final(gl).bindings == old(gl).bindings,
            final(gl).fb_attachments@ == if f.spec_gl_id() != 0 {
                old(gl).fb_attachments@.push((f.spec_gl_id(), AttachmentSet::empty_spec()))
            } else {
                old(gl).fb_attachments@
            },
            final(gl).log@ == old(gl).log@.push(
                GlCall::GenFramebuffer { result: f.spec_gl_id() },
            ),
    {
        let id = gl.gen_framebuffer();
        Framebuffer::from_gl(id)
    }
}

} // verus!
