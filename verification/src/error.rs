//! Errors of the rendering library.

use vstd::prelude::*;

verus! {

/// What can go wrong in a checked operation.
#[derive(Debug, Clone, Copy, PartialEq, Eq, Structural, Hash)]
pub enum RenderError {
    /// A pixel index or coordinate lies outside the dimensions of the buffer.
    OutOfBounds,
    /// A number cannot be represented in the type it is converted to.
    BadCast,
}

/// The result of a checked operation.
pub type RenderResult<T> = Result<T, RenderError>;

} // verus!
