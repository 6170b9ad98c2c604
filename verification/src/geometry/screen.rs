//! Vertices in screen space.

use vstd::prelude::*;

use crate::numeric::Scalar;

verus! {

/// A homogeneous position in screen space.
///
/// `x` and `y` are fixed-point positions on the surface, with `x` growing
/// to the right and `y` growing downwards; `z` is the depth, in the units of
/// the depth buffer; `w` is carried along for the fragment function.
#[derive(Debug, Clone, Copy, PartialEq, Eq, Structural, Hash)]
pub struct Position {
    /// Horizontal position, in subpixel units.
    pub x: Scalar,
    /// Vertical position, in subpixel units.
    pub y: Scalar,
    /// Depth.
    pub z: Scalar,
    /// Homogeneous coordinate.
    pub w: Scalar,
}

/// A vertex in screen space with the data that is interpolated over a primitive.
#[derive(Debug, Clone, Copy, PartialEq, Eq, Hash)]
pub struct ScreenVertex<K> {
    /// Where the vertex lies on the screen.
    pub position: Position,
    /// The data that the fragment function receives, interpolated.
    pub uniforms: K,
}

/// The direction in which the vertices of a triangle run around it on the screen.
///
/// With `y` growing downwards, a triangle `(a, b, c)` is clockwise when
/// `(b - a) x (c - a)` is positive.
#[derive(Debug, Clone, Copy, PartialEq, Eq, Structural, Hash)]
pub enum FaceWinding {
    /// The vertices run clockwise.
    Clockwise,
    /// The vertices run counter-clockwise.
    CounterClockwise,
}

} // verus!
