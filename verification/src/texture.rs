//! Texture objects: the owned handle, typed by its binding target, and
//! the image-target tags a framebuffer attachment call names.

use vstd::prelude::*;
use core::marker::PhantomData;
use crate::machine::{GlCall, GlMachine, same_config};

verus! {

/// The two texture binding targets.
#[derive(Clone, Copy, Debug, PartialEq, Eq, Structural)]
pub enum TextureBindingTarget {
    Texture2d,
    TextureCubeMap,
}

/// A tag naming one image target within a texture, as the driver's
/// attachment call wants it.
pub trait ImageTargetType {
    /// The driver-level code of this image target.
    spec fn spec_gl_enum(&self) -> u32;

    /// Report the driver-level code of this image target.
    fn gl_enum(&self) -> (r: u32)
        ensures
            r == self.spec_gl_enum(),
    ;
}

/// A texture kind: which binding target its textures bind to, at the
/// type level.
pub trait TextureType {
    /// The binding target of this texture kind.
    spec fn spec_target() -> TextureBindingTarget;

    /// Report the binding target of this texture kind.
    fn target() -> (t: TextureBindingTarget)
        ensures
            t == Self::spec_target(),
    ;
}

/// The kind of two-dimensional textures.
#[derive(Clone, Copy, Debug)]
pub struct Tx2d;

/// The single image target of a two-dimensional texture.
#[derive(Clone, Copy, Debug, PartialEq, Eq, Structural)]
pub enum Tx2dImageTarget {
    Texture2d,
}

impl ImageTargetType for Tx2dImageTarget {
    open spec fn spec_gl_enum(&self) -> u32 {
        0x0de1u32
    }

    fn gl_enum(&self) -> (r: u32)
        ensures
            r == self.spec_gl_enum(),
    {
        0x0de1
    }
}

impl TextureType for Tx2d {
    open spec fn spec_target() -> TextureBindingTarget {
        TextureBindingTarget::Texture2d
    }

    fn target() -> (t: TextureBindingTarget)
        ensures
            t == Self::spec_target(),
    {
        TextureBindingTarget::Texture2d
    }
}

/// An owned handle to one driver-side texture object of kind `T`.
#[derive(Debug)]
pub struct Texture<T: TextureType> {
    gl_id: u32,
    phantom: PhantomData<T>,
}

/// A two-dimensional texture.
pub type Texture2d = Texture<Tx2d>;

impl<T: TextureType> Texture<T> {
    /// The native identifier this handle wraps.
    pub closed spec fn spec_gl_id(&self) -> u32 {
        self.gl_id
    }

    /// Wrap an already-allocated native identifier.  The caller vouches
    /// that the identifier names a live texture object it owns.
    pub fn from_gl(id: u32) -> (t: Texture<T>)
        ensures
            t.spec_gl_id() == id,
    {
        Texture { gl_id: id, phantom: PhantomData }
    }

    /// Read the native identifier.
    pub fn gl_id(&self) -> (r: u32)
        ensures
            r == self.spec_gl_id(),
    {
        self.gl_id
    }

    /// Release the native texture object.  Consuming the handle makes a
    /// second release of the same resource impossible.
    pub fn delete(self, gl: &mut GlMachine)
        ensures
            final(gl).log@ == old(gl).log@.push(GlCall::DeleteTexture { id: self.spec_gl_id() }),
            final(gl).next_id == old(gl).next_id,
            same_config(old(gl).config, final(gl).config),
            final(gl).bindings == old(gl).bindings,
            final(gl).fb_attachments@ == old(gl).fb_attachments@,
    {
        let id = self.gl_id;
        gl.delete_texture(id);
    }
}

} // verus!
