//! Program objects: the owned handle to a driver-side program, and the
//! opaque per-program locations of its attributes and uniforms.

use vstd::prelude::*;
use crate::machine::{GlCall, GlMachine, same_config};

verus! {

/// The location of one vertex attribute within a linked program.
#[derive(Clone, Copy, Debug, PartialEq, Eq, Structural)]
pub struct ProgramAttrib {
    pub gl_index: u32,
}

/// The location of one uniform variable within a linked program.  It
/// remembers, at the specification level, which program it was looked up
/// against: setting a uniform demands that the same program is bound.
#[derive(Clone, Copy)]
pub struct ProgramUniform {
    pub gl_index: u32,
    pub program: Ghost<u32>,
}

impl ProgramUniform {
    /// The program this location was obtained from.
    pub open spec fn spec_program(&self) -> u32 {
        self.program@
    }

    /// Package a location together with the program it belongs to.
    pub(crate) fn new(gl_index: u32, program: Ghost<u32>) -> (u: ProgramUniform)
        ensures
            u.gl_index == gl_index,
            u.spec_program() == program@,
    {
        ProgramUniform { gl_index: gl_index, program: program }
    }
}

/// An owned handle to one driver-side program object.  Exactly one owner
/// exists; releasing the driver resource consumes the handle.  The handle
/// remembers which shaders have been attached — each shader may be
/// attached only once — and whether the program has been linked.
#[derive(Debug)]
pub struct Program {
    gl_id: u32,
    attached: Vec<u32>,
    linked: bool,
}

impl Program {
    /// The native identifier this handle wraps.
    pub closed spec fn spec_gl_id(&self) -> u32 {
        self.gl_id
    }

    /// The identifiers of the shaders attached so far, in order.
    pub closed spec fn spec_attached(&self) -> Seq<u32> {
        self.attached@
    }

    /// Whether the program has been successfully linked.
    pub closed spec fn spec_linked(&self) -> bool {
        self.linked
    }

    /// Wrap an already-allocated native identifier.  The caller vouches
    /// that the identifier names a live, fresh program object it owns.
    pub fn from_gl(id: u32) -> (p: Program)
        ensures
            p.spec_gl_id() == id,
            p.spec_attached() == Seq::<u32>::empty(),
            !p.spec_linked(),
    {
        Program { gl_id: id, attached: Vec::new(), linked: false }
    }

    /// Read the native identifier.
    pub fn gl_id(&self) -> (r: u32)
        ensures
            r == self.spec_gl_id(),
    {
        self.gl_id
    }

    /// Whether the program has been successfully linked.
    pub fn is_linked(&self) -> (r: bool)
        ensures
            r == self.spec_linked(),
    {
        self.linked
    }

    /// Record that a shader has been attached.
    pub(crate) fn note_attached(&mut self, shader: u32)
        ensures
            final(self).spec_gl_id() == old(self).spec_gl_id(),
            final(self).spec_attached() == old(self).spec_attached().push(shader),
            final(self).spec_linked() == old(self).spec_linked(),
    {
        self.attached.push(shader);
    }

    /// Record the outcome of linking.
    pub(crate) fn note_linked(&mut self, ok: bool)
        ensures
            final(self).spec_gl_id() == old(self).spec_gl_id(),
            final(self).spec_attached() == old(self).spec_attached(),
            final(self).spec_linked() == ok,
    {
        self.linked = ok;
    }

    /// Release the native program object.  Consuming the handle makes a
    /// second release of the same resource impossible.
    pub fn delete(self, gl: &mut GlMachine)
        ensures
            final(gl).log@ == old(gl).log@.push(GlCall::DeleteProgram { id: self.spec_gl_id() }),
            final(gl).next_id == old(gl).next_id,
            same_config(old(gl).config, final(gl).config),
            final(gl).bindings == old(gl).bindings,
            final(gl).fb_attachments@ == old(gl).fb_attachments@,
    {
        let id = self.gl_id;
        gl.delete_program(id);
    }
}

} // verus!
