//! Shader objects: opaque owned handles to driver-side shader stages.
//! Shader source handling and compilation diagnostics are outside this
//! library; a shader here is an identifier with a stage tag.

use vstd::prelude::*;
use crate::context::Context;
use crate::machine::{GlCall, GlMachine, same_config};

verus! {

/// The pipeline stage a shader object belongs to.
#[derive(Clone, Copy, Debug, PartialEq, Eq, Structural)]
pub enum ShaderType {
    Vertex,
    Fragment,
}

/// An owned handle to one driver-side shader object.  Exactly one owner
/// exists; releasing the driver resource consumes the handle, so a double
/// release is impossible.
#[derive(Debug)]
pub struct Shader {
    gl_id: u32,
}

impl Shader {
    /// The native identifier this handle wraps.
    pub closed spec fn spec_gl_id(&self) -> u32 {
        self.gl_id
    }

    /// Wrap an already-allocated native identifier.  The caller vouches
    /// that the identifier names a live shader object it owns.
    pub fn from_gl(id: u32) -> (s: Shader)
        ensures
            s.spec_gl_id() == id,
    {
        Shader { gl_id: id }
    }

    /// Read the native identifier.
    pub fn gl_id(&self) -> (r: u32)
        ensures
            r == self.spec_gl_id(),
    {
        self.gl_id
    }

    /// Release the native shader object.  Consuming the handle makes a
    /// second release of the same resource impossible.
    pub fn delete(self, gl: &mut GlMachine)
        ensures
            final(gl).log@ == old(gl).log@.push(GlCall::DeleteShader { id: self.spec_gl_id() }),
            final(gl).next_id == old(gl).next_id,
            same_config(old(gl).config, final(gl).config),
            final(gl).bindings == old(gl).bindings,
            final(gl).fb_attachments@ == old(gl).fb_attachments@,
    {
        let id = self.gl_id;
        gl.delete_shader(id);
    }
}

impl Context {
    /// Create a new shader object for the given stage, or report that
    /// the allocator returned the null identifier.  Source handling and
    /// compilation are outside this library.
    pub fn create_shader(&self, gl: &mut GlMachine, ty: ShaderType) -> (r: Result<Shader, ()>)
        ensures
            final(gl).next_id == old(gl).spec_next_after(old(gl).spec_create_result()),
            same_config(old(gl).config, final(gl).config),
            final(gl).bindings == old(gl).bindings,
            final(gl).fb_attachments@ == old(gl).fb_attachments@,
            final(gl).log@ == old(gl).log@.push(
                GlCall::CreateShader { ty: ty, result: old(gl).spec_create_result() },
            ),
            r is Ok <==> old(gl).spec_create_result() != 0,
            r matches Ok(s) ==> s.spec_gl_id() == old(gl).spec_create_result(),
    {
        let id = gl.create_shader(ty);
        if id > 0 {
            Ok(Shader::from_gl(id))
        } else {
            Err(())
        }
    }
}

} // verus!
