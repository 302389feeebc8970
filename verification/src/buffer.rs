//! Buffer objects: the owned handle, and the binder/binding pairs for the
//! two mutable buffer-binding slots (the array-buffer slot and the
//! element-array-buffer slot).
//!
//! A binder is the capability to bind resources into one slot; a binding
//! is the scoped proof that a specific buffer currently occupies it.  The
//! binder stays engaged while its binding is out, so rebinding an
//! occupied slot is ruled out at verification time; the caller keeps the
//! buffer handle, and every operation on a binding demands that the slot
//! still holds its buffer.

use vstd::prelude::*;
use crate::machine::{same_but_log, same_config, BufferTarget, GlCall, GlMachine};
use crate::program::ProgramAttrib;
use crate::types::BufferDataUsage;
use crate::vertex_data::AttribDatumType;

verus! {

/// An owned handle to one driver-side buffer object.
#[derive(Debug)]
pub struct Buffer {
    gl_id: u32,
}

impl Buffer {
    /// The native identifier this handle wraps.
    pub closed spec fn spec_gl_id(&self) -> u32 {
        self.gl_id
    }

    /// Wrap an already-allocated native identifier.  The caller vouches
    /// that the identifier names a live buffer object it owns.
    pub fn from_gl(id: u32) -> (b: Buffer)
        ensures
            b.spec_gl_id() == id,
    {
        Buffer { gl_id: id }
    }

    /// Read the native identifier.
    pub fn gl_id(&self) -> (r: u32)
        ensures
            r == self.spec_gl_id(),
    {
        self.gl_id
    }

    /// Release the native buffer object.  Consuming the handle makes a
    /// second release of the same resource impossible.
    pub fn delete(self, gl: &mut GlMachine)
        ensures
            final(gl).log@ == old(gl).log@.push(GlCall::DeleteBuffer { id: self.spec_gl_id() }),
            final(gl).next_id == old(gl).next_id,
            same_config(old(gl).config, final(gl).config),
            final(gl).bindings == old(gl).bindings,
            final(gl).fb_attachments@ == old(gl).fb_attachments@,
    {
        let id = self.gl_id;
        gl.delete_buffer(id);
    }
}

/// The capability to bind buffers into the array-buffer slot.
#[derive(Debug)]
pub struct ArrayBufferBinder {
    engaged: bool,
}

impl ArrayBufferBinder {
    /// Whether the binder can accept a bind: it has no binding out.
    pub closed spec fn is_free(&self) -> bool {
        !self.engaged
    }

    /// A fresh, free binder.  Only the context constructs one, so only
    /// one exists per slot.
    pub(crate) fn fresh() -> (b: ArrayBufferBinder)
        ensures
            b.is_free(),
    {
        ArrayBufferBinder { engaged: false }
    }

    /// Bind a buffer into the array-buffer slot.  The binding records
    /// the bound identifier while the caller keeps the handle; the
    /// binder stays engaged, so a second bind is impossible until the
    /// binding is released.
    pub fn bind(&mut self, gl: &mut GlMachine, buffer: &Buffer) -> (b: ArrayBufferBinding)
        requires
            old(self).is_free(),
        ensures
            !final(self).is_free(),
            b.spec_gl_id() == buffer.spec_gl_id(),
            final(gl).next_id == old(gl).next_id,
            same_config(old(gl).config, final(gl).config),
            final(gl).fb_attachments@ == old(gl).fb_attachments@,
            final(gl).bindings.array_buffer == buffer.spec_gl_id(),
            final(gl).bindings.program == old(gl).bindings.program,
            final(gl).bindings.element_array_buffer == old(gl).bindings.element_array_buffer,
            final(gl).bindings.framebuffer == old(gl).bindings.framebuffer,
            final(gl).log@ == old(gl).log@.push(
                GlCall::BindBuffer { target: BufferTarget::ArrayBuffer, id: buffer.spec_gl_id() },
            ),
    {
        self.engaged = true;
        gl.bind_buffer(BufferTarget::ArrayBuffer, buffer.gl_id());
        ArrayBufferBinding { bound: buffer.gl_id() }
    }

    /// Take a binding back, freeing the slot for the next bind.  No
    /// foreign call is needed: only rebinding changes the slot.
    pub fn release(&mut self, binding: ArrayBufferBinding)
        requires
            !old(self).is_free(),
        ensures
            final(self).is_free(),
    {
        self.engaged = false;
        let ArrayBufferBinding { bound: _ } = binding;
    }
}

/// Scoped proof that a specific buffer occupies the array-buffer slot.
#[derive(Debug)]
pub struct ArrayBufferBinding {
    bound: u32,
}

impl ArrayBufferBinding {
    /// The native identifier of the bound buffer.
    pub closed spec fn spec_gl_id(&self) -> u32 {
        self.bound
    }

    /// Upload raw bytes into the bound buffer.
    pub fn buffer_bytes(&self, gl: &mut GlMachine, bytes: &[u8], usage: BufferDataUsage)
        requires
            old(gl).bindings.array_buffer == self.spec_gl_id(),
        ensures
            same_but_log(*old(gl), *final(gl)),
            final(gl).log@ == old(gl).log@.push(
                GlCall::BufferData {
                    target: BufferTarget::ArrayBuffer,
                    len: bytes@.len() as usize,
                    usage: usage,
                },
            ),
    {
        gl.buffer_data(BufferTarget::ArrayBuffer, bytes.len(), usage);
    }

    /// Describe the layout of one vertex attribute within the bound
    /// buffer.
    pub fn vertex_attrib_pointer(
        &self,
        gl: &mut GlMachine,
        attrib: ProgramAttrib,
        components: u32,
        data: AttribDatumType,
        normalize: bool,
        stride: usize,
        offset: usize,
    )
        requires
            old(gl).bindings.array_buffer == self.spec_gl_id(),
            1 <= components <= 4,
        ensures
            same_but_log(*old(gl), *final(gl)),
            final(gl).log@ == old(gl).log@.push(
                GlCall::VertexAttribPointer {
                    index: attrib.gl_index,
                    components: components,
                    data: data,
                    normalize: normalize,
                    stride: stride,
                    offset: offset,
                },
            ),
    {
        gl.vertex_attrib_pointer(attrib.gl_index, components, data, normalize, stride, offset);
    }
}

/// The capability to bind buffers into the element-array-buffer slot.
#[derive(Debug)]
pub struct ElementArrayBufferBinder {
    engaged: bool,
}

impl ElementArrayBufferBinder {
    /// Whether the binder can accept a bind: it has no binding out.
    pub closed spec fn is_free(&self) -> bool {
        !self.engaged
    }

    /// A fresh, free binder.  Only the context constructs one, so only
    /// one exists per slot.
    pub(crate) fn fresh() -> (b: ElementArrayBufferBinder)
        ensures
            b.is_free(),
    {
        ElementArrayBufferBinder { engaged: false }
    }

    /// Bind a buffer into the element-array-buffer slot.  The binding
    /// records the bound identifier while the caller keeps the handle;
    /// the binder stays engaged, so a second bind is impossible until
    /// the binding is released.
    pub fn bind(&mut self, gl: &mut GlMachine, buffer: &Buffer) -> (b: ElementArrayBufferBinding)
        requires
            old(self).is_free(),
        ensures
            !final(self).is_free(),
            b.spec_gl_id() == buffer.spec_gl_id(),
            final(gl).next_id == old(gl).next_id,
            same_config(old(gl).config, final(gl).config),
            final(gl).fb_attachments@ == old(gl).fb_attachments@,
            final(gl).bindings.element_array_buffer == buffer.spec_gl_id(),
            final(gl).bindings.program == old(gl).bindings.program,
            final(gl).bindings.array_buffer == old(gl).bindings.array_buffer,
            final(gl).bindings.framebuffer == old(gl).bindings.framebuffer,
            final(gl).log@ == old(gl).log@.push(
                GlCall::BindBuffer {
                    target: BufferTarget::ElementArrayBuffer,
                    id: buffer.spec_gl_id(),
                },
            ),
    {
        self.engaged = true;
        gl.bind_buffer(BufferTarget::ElementArrayBuffer, buffer.gl_id());
        ElementArrayBufferBinding { bound: buffer.gl_id() }
    }

    /// Take a binding back, freeing the slot for the next bind.  No
    /// foreign call is needed: only rebinding changes the slot.
    pub fn release(&mut self, binding: ElementArrayBufferBinding)
        requires
            !old(self).is_free(),
        ensures
            final(self).is_free(),
    {
        self.engaged = false;
        let ElementArrayBufferBinding { bound: _ } = binding;
    }
}

/// Scoped proof that a specific buffer occupies the element-array-buffer
/// slot.
#[derive(Debug)]
pub struct ElementArrayBufferBinding {
    bound: u32,
}

impl ElementArrayBufferBinding {
    /// The native identifier of the bound buffer.
    pub closed spec fn spec_gl_id(&self) -> u32 {
        self.bound
    }

    /// Upload raw bytes into the bound buffer.
    pub fn buffer_bytes(&self, gl: &mut GlMachine, bytes: &[u8], usage: BufferDataUsage)
        requires
            old(gl).bindings.element_array_buffer == self.spec_gl_id(),
        ensures
            same_but_log(*old(gl), *final(gl)),
            final(gl).log@ == old(gl).log@.push(
                GlCall::BufferData {
                    target: BufferTarget::ElementArrayBuffer,
                    len: bytes@.len() as usize,
                    usage: usage,
                },
            ),
    {
        gl.buffer_data(BufferTarget::ElementArrayBuffer, bytes.len(), usage);
    }
}

} // verus!
