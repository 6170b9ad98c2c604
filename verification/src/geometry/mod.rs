//! Raster-surface geometry: dimensions, pixel coordinates and linear indices.

use vstd::prelude::*;

pub mod coordinate;
pub mod screen;

pub use self::coordinate::Coordinate;
pub use self::screen::{FaceWinding, Position, ScreenVertex};

verus! {

/// Width and height of a raster surface, in pixels.
#[derive(Debug, Clone, Copy, PartialEq, Eq, Structural, Hash)]
pub struct Dimensions {
    /// Number of pixel columns.
    pub width: u32,
    /// Number of pixel rows.
    pub height: u32,
}

impl Dimensions {
    /// The number of pixels of the surface, as a mathematical integer.
    pub open spec fn spec_area(self) -> nat {
        (self.width * self.height) as nat
    }

    /// Creates the dimensions `width` by `height`.
    pub fn new(width: u32, height: u32) -> (d: Dimensions)
        ensures
            d.width == width,
            d.height == height,
    {
        Dimensions { width, height }
    }

    /// The number of pixels of the surface.
    pub fn area(&self) -> (a: usize)
        requires
            self.spec_area() <= usize::MAX,
        ensures
            a == self.spec_area(),
    {
        proof {
            lemma_area_bounds(self.width as int, self.height as int);
        }
        self.width as usize * self.height as usize
    }
}

/// A product of two non-negative integers is non-negative.
proof fn lemma_area_bounds(w: int, h: int)
    requires
        0 <= w,
        0 <= h,
    ensures
        0 <= w * h,
{
    assert(0 <= w * h) by (nonlinear_arith)
        requires
            0 <= w,
            0 <= h,
    ;
}

} // verus!
