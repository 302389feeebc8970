//! Renderbuffer objects: opaque owned handles to driver-side render
//! storage.  Pixel-format enumeration is outside this library; a
//! renderbuffer here is an identifier that can be attached to a
//! framebuffer.

use vstd::prelude::*;
use crate::machine::{GlCall, GlMachine, same_config};

verus! {

/// An owned handle to one driver-side renderbuffer object.
#[derive(Debug)]
pub struct Renderbuffer {
    gl_id: u32,
}

impl Renderbuffer {
    /// The native identifier this handle wraps.
    pub closed spec fn spec_gl_id(&self) -> u32 {
        self.gl_id
    }

    /// Wrap an already-allocated native identifier.  The caller vouches
    /// that the identifier names a live renderbuffer object it owns.
    pub fn from_gl(id: u32) -> (r: Renderbuffer)
        ensures
            r.spec_gl_id() == id,
    {
        Renderbuffer { gl_id: id }
    }

    /// Read the native identifier.
    pub fn gl_id(&self) -> (r: u32)
        ensures
            r == self.spec_gl_id(),
    {
        self.gl_id
    }

    /// Release the native renderbuffer object.  Consuming the handle
    /// makes a second release of the same resource impossible.
    pub fn delete(self, gl: &mut GlMachine)
        ensures
            final(gl).log@ == old(gl).log@.push(
                GlCall::DeleteRenderbuffer { id: self.spec_gl_id() },
            ),
            final(gl).next_id == old(gl).next_id,
            same_config(old(gl).config, final(gl).config),
            final(gl).bindings == old(gl).bindings,
            final(gl).fb_attachments@ == old(gl).fb_attachments@,
    {
        let id = self.gl_id;
        gl.delete_renderbuffer(id);
    }
}

} // verus!
