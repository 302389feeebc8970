//! Plain data types shared across the library: error values, drawing modes
//! and the tags that select buffer-clear and buffer-usage behaviour.

use vstd::prelude::*;

verus! {

/// The ways in which a framebuffer can fail its completeness check.
#[derive(Clone, Copy, Debug, PartialEq, Eq, Structural)]
pub enum GLFramebufferError {
    /// An attachment point holds an image the driver cannot use.
    IncompleteAttachment,
    /// No attachment point holds any image at all.
    IncompleteMissingAttachment,
    /// The combination of attached images is not supported.
    Unsupported,
}

/// An error surfaced by the driver layer, or a typed failure of one of the
/// library's own operations that carries a human-readable message.
#[derive(Clone, Debug, PartialEq, Eq)]
pub enum GLError {
    InvalidEnum,
    InvalidValue,
    InvalidOperation,
    OutOfMemory,
    /// A failure with a human-readable description (creation and link
    /// failures use this variant).
    Message(String),
    /// A framebuffer that was checked and found incomplete.
    Framebuffer(GLFramebufferError),
}

/// The primitive assembly mode of a draw call.
#[derive(Clone, Copy, Debug, PartialEq, Eq, Structural)]
pub enum DrawingMode {
    Points,
    Lines,
    LineStrip,
    LineLoop,
    Triangles,
    TriangleStrip,
    TriangleFan,
}

/// The usage hint handed to the driver when uploading buffer data.
#[derive(Clone, Copy, Debug, PartialEq, Eq, Structural)]
pub enum BufferDataUsage {
    StreamDraw,
    StaticDraw,
    DynamicDraw,
}

/// Which of the per-pixel buffers a clear call applies to.
#[derive(Clone, Copy, Debug, PartialEq, Eq, Structural)]
pub struct BufferBits {
    pub color: bool,
    pub depth: bool,
    pub stencil: bool,
}

impl BufferBits {
    /// A mask that selects only the color buffer.
    pub fn color_buffer() -> (r: BufferBits)
        ensures
            r == (BufferBits { color: true, depth: false, stencil: false }),
    {
        BufferBits { color: true, depth: false, stencil: false }
    }

    /// A mask that selects every buffer.
    pub fn all_buffers() -> (r: BufferBits)
        ensures
            r == (BufferBits { color: true, depth: true, stencil: true }),
    {
        BufferBits { color: true, depth: true, stencil: true }
    }
}

} // verus!
