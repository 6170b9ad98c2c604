//! The numbers of screen space.
//!
//! Screen-space positions are fixed-point numbers: a horizontal or vertical
//! position counts units of `1 / SUBPIXEL` of a pixel from the top left corner
//! of the surface, so the center of the pixel in column `x` is at
//! `x * SUBPIXEL + HALF_PIXEL`.

use vstd::prelude::*;

pub mod interpolate;

pub use self::interpolate::{Barycentric, Fraction, Interpolate};

verus! {

/// A scalar of the screen-space vertex data.
pub type Scalar = i32;

/// The number of positions that a pixel is divided into along each axis.
pub const SUBPIXEL: i32 = 256;

/// The offset of the center of a pixel from its top left corner.
pub const HALF_PIXEL: i32 = 128;

} // verus!
