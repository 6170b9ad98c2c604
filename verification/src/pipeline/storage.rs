//! Storage for the primitives that earlier stages of the pipeline emit.

use vstd::prelude::*;

use crate::geometry::ScreenVertex;

verus! {

/// Screen-space primitives, one list of vertices per kind of primitive.
pub struct SeparableScreenPrimitiveStorage<K> {
    /// The corners of the triangles, three per triangle.
    pub tris: Vec<ScreenVertex<K>>,
    /// The ends of the lines, two per line.
    pub lines: Vec<ScreenVertex<K>>,
    /// The points.
    pub points: Vec<ScreenVertex<K>>,
}

} // verus!
