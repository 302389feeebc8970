//! The context: the process-wide capability set standing for the single
//! native binding machine.
//!
//! The context holds one binder per mutable global slot.  Splitting takes
//! a binder out, so a second split of the same slot is impossible until
//! the binder is joined back in; binding a program therefore never blocks
//! binding a buffer, yet no slot can have two binders.

pub mod program_context;

use vstd::prelude::*;
use crate::buffer::{ArrayBufferBinder, Buffer, ElementArrayBufferBinder};
use crate::framebuffer::FramebufferBinder;
use crate::machine::{same_config, GlCall, GlMachine};
use crate::renderbuffer::Renderbuffer;
use crate::texture::{Texture, TextureType};
use crate::context::program_context::ProgramBinder;

verus! {

/// The capability set for the one native binding machine: one binder per
/// mutable global slot, each either present or split out.
pub struct Context {
    program: Option<ProgramBinder>,
    framebuffer: Option<FramebufferBinder>,
    array_buffer: Option<ArrayBufferBinder>,
    element_array_buffer: Option<ElementArrayBufferBinder>,
}

impl Context {
    /// Whether the program binder is present and free.
    pub closed spec fn has_program_binder(&self) -> bool {
        match self.program {
            Option::Some(b) => b.is_free(),
            Option::None => false,
        }
    }

    /// Whether the framebuffer binder is present and free.
    pub closed spec fn has_framebuffer_binder(&self) -> bool {
        match self.framebuffer {
            Option::Some(b) => b.is_free(),
            Option::None => false,
        }
    }

    /// Whether the array-buffer binder is present and free.
    pub closed spec fn has_array_buffer_binder(&self) -> bool {
        match self.array_buffer {
            Option::Some(b) => b.is_free(),
            Option::None => false,
        }
    }

    /// Whether the element-array-buffer binder is present and free.
    pub closed spec fn has_element_array_buffer_binder(&self) -> bool {
        match self.element_array_buffer {
            Option::Some(b) => b.is_free(),
            Option::None => false,
        }
    }

    /// Set up the capability set and the machine it stands over.  This is
    /// the startup boundary: exactly one context should be created per
    /// native machine, and every binder starts present and free.
    pub fn new() -> (r: (Context, GlMachine))
        ensures
            r.0.has_program_binder(),
            r.0.has_framebuffer_binder(),
            r.0.has_array_buffer_binder(),
            r.0.has_element_array_buffer_binder(),
            r.1.next_id == 1,
            r.1.config.alloc_ok,
            r.1.config.link_ok,
            r.1.config.info_log@ == Seq::<u8>::empty(),
            r.1.config.attribs@ == Seq::<(String, u32)>::empty(),
            r.1.config.uniforms@ == Seq::<(String, u32)>::empty(),
            !r.1.config.fb_flawed_attachment,
            !r.1.config.fb_unsupported,
            r.1.bindings.program == 0,
            r.1.bindings.array_buffer == 0,
            r.1.bindings.element_array_buffer == 0,
            r.1.bindings.framebuffer == 0,
            r.1.fb_attachments@.len() == 0,
            r.1.log@.len() == 0,
    {
        let ctx = Context {
            program: Some(ProgramBinder::fresh()),
            framebuffer: Some(FramebufferBinder::fresh()),
            array_buffer: Some(ArrayBufferBinder::fresh()),
            element_array_buffer: Some(ElementArrayBufferBinder::fresh()),
        };
        (ctx, GlMachine::new())
    }

    /// Take the program binder out.  A second take is impossible until
    /// the binder is joined back in.
    pub fn split_program(&mut self) -> (b: ProgramBinder)
        requires
            old(self).has_program_binder(),
        ensures
            b.is_free(),
            !final(self).has_program_binder(),
            final(self).has_framebuffer_binder() == old(self).has_framebuffer_binder(),
            final(self).has_array_buffer_binder() == old(self).has_array_buffer_binder(),
            final(self).has_element_array_buffer_binder()
                == old(self).has_element_array_buffer_binder(),
    {
        self.program.take().unwrap()
    }

    /// Put the program binder back.
    pub fn join_program(&mut self, b: ProgramBinder)
        requires
            b.is_free(),
        ensures
            final(self).has_program_binder(),
            final(self).has_framebuffer_binder() == old(self).has_framebuffer_binder(),
            final(self).has_array_buffer_binder() == old(self).has_array_buffer_binder(),
            final(self).has_element_array_buffer_binder()
                == old(self).has_element_array_buffer_binder(),
    {
        self.program = Some(b);
    }

    /// Take the framebuffer binder out.
    pub fn split_framebuffer(&mut self) -> (b: FramebufferBinder)
        requires
            old(self).has_framebuffer_binder(),
        ensures
            b.is_free(),
            !final(self).has_framebuffer_binder(),
            final(self).has_program_binder() == old(self).has_program_binder(),
            final(self).has_array_buffer_binder() == old(self).has_array_buffer_binder(),
            final(self).has_element_array_buffer_binder()
                == old(self).has_element_array_buffer_binder(),
    {
        self.framebuffer.take().unwrap()
    }

    /// Put the framebuffer binder back.
    pub fn join_framebuffer(&mut self, b: FramebufferBinder)
        requires
            b.is_free(),
        ensures
            final(self).has_framebuffer_binder(),
            final(self).has_program_binder() == old(self).has_program_binder(),
            final(self).has_array_buffer_binder() == old(self).has_array_buffer_binder(),
            final(self).has_element_array_buffer_binder()
                == old(self).has_element_array_buffer_binder(),
    {
        self.framebuffer = Some(b);
    }

    /// Take the array-buffer binder out.
    pub fn split_array_buffer(&mut self) -> (b: ArrayBufferBinder)
        requires
            old(self).has_array_buffer_binder(),
        ensures
            b.is_free(),
            !final(self).has_array_buffer_binder(),
            final(self).has_program_binder() == old(self).has_program_binder(),
            final(self).has_framebuffer_binder() == old(self).has_framebuffer_binder(),
            final(self).has_element_array_buffer_binder()
                == old(self).has_element_array_buffer_binder(),
    {
        self.array_buffer.take().unwrap()
    }

    /// Put the array-buffer binder back.
    pub fn join_array_buffer(&mut self, b: ArrayBufferBinder)
        requires
            b.is_free(),
        ensures
            final(self).has_array_buffer_binder(),
            final(self).has_program_binder() == old(self).has_program_binder(),
            final(self).has_framebuffer_binder() == old(self).has_framebuffer_binder(),
            final(self).has_element_array_buffer_binder()
                == old(self).has_element_array_buffer_binder(),
    {
        self.array_buffer = Some(b);
    }

    /// Take the element-array-buffer binder out.
    pub fn split_element_array_buffer(&mut self) -> (b: ElementArrayBufferBinder)
        requires
            old(self).has_element_array_buffer_binder(),
        ensures
            b.is_free(),
            !final(self).has_element_array_buffer_binder(),
            final(self).has_program_binder() == old(self).has_program_binder(),
            final(self).has_framebuffer_binder() == old(self).has_framebuffer_binder(),
            final(self).has_array_buffer_binder() == old(self).has_array_buffer_binder(),
    {
        self.element_array_buffer.take().unwrap()
    }

    /// Put the element-array-buffer binder back.
    pub fn join_element_array_buffer(&mut self, b: ElementArrayBufferBinder)
        requires
            b.is_free(),
        ensures
            final(self).has_element_array_buffer_binder(),
            final(self).has_program_binder() == old(self).has_program_binder(),
            final(self).has_framebuffer_binder() == old(self).has_framebuffer_binder(),
            final(self).has_array_buffer_binder() == old(self).has_array_buffer_binder(),
    {
        self.element_array_buffer = Some(b);
    }

    /// Allocate a buffer object and take ownership of it.
    pub fn gen_buffer(&self, gl: &mut GlMachine) -> (b: Buffer)
        ensures
            b.spec_gl_id() == old(gl).spec_gen_result(),
            final(gl).next_id == old(gl).spec_next_after(b.spec_gl_id()),
            same_config(old(gl).config, final(gl).config),
            final(gl).bindings == old(gl).bindings,
            final(gl).fb_attachments@ == old(gl).fb_attachments@,
            final(gl).log@ == old(gl).log@.push(
                GlCall::GenBuffer { result: b.spec_gl_id() },
            ),
    {
        let id = gl.gen_buffer();
        Buffer::from_gl(id)
    }

    /// Allocate a texture object and take ownership of it.
    pub fn gen_texture<T: TextureType>(&self, gl: &mut GlMachine) -> (t: Texture<T>)
        ensures
            t.spec_gl_id() == old(gl).spec_gen_result(),
            final(gl).next_id == old(gl).spec_next_after(t.spec_gl_id()),
            same_config(old(gl).config, final(gl).config),
            final(gl).bindings == old(gl).bindings,
            final(gl).fb_attachments@ == old(gl).fb_attachments@,
            final(gl).log@ == old(gl).log@.push(
                GlCall::GenTexture { result: t.spec_gl_id() },
            ),
    {
        let id = gl.gen_texture();
        Texture::from_gl(id)
    }

    /// Allocate a renderbuffer object and take ownership of it.
    pub fn gen_renderbuffer(&self, gl: &mut GlMachine) -> (r: Renderbuffer)
        ensures
            r.spec_gl_id() == old(gl).spec_gen_result(),
            final(gl).next_id == old(gl).spec_next_after(r.spec_gl_id()),
            same_config(old(gl).config, final(gl).config),
            final(gl).bindings == old(gl).bindings,
            final(gl).fb_attachments@ == old(gl).fb_attachments@,
            final(gl).log@ == old(gl).log@.push(
                GlCall::GenRenderbuffer { result: r.spec_gl_id() },
            ),
    {
        let id = gl.gen_renderbuffer();
        Renderbuffer::from_gl(id)
    }
}

} // verus!
