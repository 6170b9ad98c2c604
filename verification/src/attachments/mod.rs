//! Framebuffer attachments: the per-pixel payloads for color, depth and stencil.

use vstd::prelude::*;

pub mod blend;
pub mod color;
pub mod depth;
pub mod predefined;

pub use self::blend::{Blend, Coverage, Overwrite, ScaleAlpha, SourceOver, FULL_COVERAGE};
pub use self::color::{AlphaMultiply, Color, ColorAlpha, Luma, LumaA, Rgb, Rgba};
pub use self::depth::Depth;
pub use self::predefined::{ColorDepthStencilAttachments, EmptyAttachments};
pub use crate::stencil::{GenericStencilConfig, Stencil, StencilConfig, StencilOp, StencilTest};

verus! {

/// A value that can live in a slot of a framebuffer: it can be handed to
/// any thread and shared between threads.
///
/// The framebuffers ask for `Copy` on the attachments that they store.
pub trait Attachment: Sized + Send + Sync {

}

impl<T> Attachment for T where T: Sized + Send + Sync {

}

/// Marks the unit type, the attachment that holds nothing.
pub trait EmptyAttachment {

}

impl EmptyAttachment for () {

}

/// The attachment types of a framebuffer.
pub trait Attachments: Attachment {
    /// The color attachment.
    type Color: Attachment + Color;

    /// The depth attachment.
    type Depth: Attachment + Depth;

    /// The stencil attachment.
    type Stencil: Attachment + Stencil;
}

} // verus!
