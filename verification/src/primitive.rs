//! The kinds of primitives that the indices of a mesh can spell out.

use vstd::prelude::*;

verus! {

/// The kind of primitive that consecutive indices of a mesh form.
pub trait Primitive {
    /// Whether three consecutive indices form a triangle.
    spec fn spec_is_triangle() -> bool;

    /// Whether two consecutive indices form a line.
    spec fn spec_is_line() -> bool;

    /// Whether every index forms a point.
    spec fn spec_is_point() -> bool;

    /// Whether three consecutive indices form a triangle.
    fn is_triangle() -> (r: bool)
        ensures
            r == Self::spec_is_triangle(),
    ;

    /// Whether two consecutive indices form a line.
    fn is_line() -> (r: bool)
        ensures
            r == Self::spec_is_line(),
    ;

    /// Whether every index forms a point.
    fn is_point() -> (r: bool)
        ensures
            r == Self::spec_is_point(),
    ;
}

/// Every index is a point.
#[derive(Debug, Clone, Copy, PartialEq, Eq, Structural, Hash)]
pub struct Point;

/// Every two indices are a line.
#[derive(Debug, Clone, Copy, PartialEq, Eq, Structural, Hash)]
pub struct Line;

/// Every three indices are a triangle.
#[derive(Debug, Clone, Copy, PartialEq, Eq, Structural, Hash)]
pub struct Triangle;

impl Primitive for Point {
    open spec fn spec_is_triangle() -> bool {
        false
    }

    open spec fn spec_is_line() -> bool {
        false
    }

    open spec fn spec_is_point() -> bool {
        true
    }

    #[inline(always)]
    fn is_triangle() -> bool {
        false
    }

    #[inline(always)]
    fn is_line() -> bool {
        false
    }

    #[inline(always)]
    fn is_point() -> bool {
        true
    }
}

impl Primitive for Line {
    open spec fn spec_is_triangle() -> bool {
        false
    }

    open spec fn spec_is_line() -> bool {
        true
    }

    open spec fn spec_is_point() -> bool {
        false
    }

    #[inline(always)]
    fn is_triangle() -> bool {
        false
    }

    #[inline(always)]
    fn is_line() -> bool {
        true
    }

    #[inline(always)]
    fn is_point() -> bool {
        false
    }
}

impl Primitive for Triangle {
    open spec fn spec_is_triangle() -> bool {
        true
    }

    open spec fn spec_is_line() -> bool {
        false
    }

    open spec fn spec_is_point() -> bool {
        false
    }

    #[inline(always)]
    fn is_triangle() -> bool {
        true
    }

    #[inline(always)]
    fn is_line() -> bool {
        false
    }

    #[inline(always)]
    fn is_point() -> bool {
        false
    }
}

} // verus!
