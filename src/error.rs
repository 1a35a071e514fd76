use vstd::prelude::*;

verus! {

/// The failures of this layer. Each is returned to the immediate caller and
/// none is retried.
#[derive(Clone, Copy, Debug, PartialEq, Eq, Structural)]
pub enum Error {
    /// The device refused to allocate a buffer, texture, framebuffer or fence.
    ResourceCreation,
    /// Caller data does not have the length that the resource expects.
    SizeMismatch,
    /// A uniform buffer slot index is out of range.
    InvalidSlot,
    /// An image channel count, or a texture format, that the operation does not take.
    UnsupportedFormat,
    /// The attachments bound to a framebuffer do not form a complete framebuffer.
    IncompleteFramebuffer,
}

} // verus!
