//! Meshes: vertices and the indices that join them into primitives.

use vstd::prelude::*;

verus! {

/// A mesh of vertices of type `V`.
pub struct Mesh<V> {
    /// The indices of the vertices of the primitives, primitive by primitive.
    pub indices: Vec<u32>,
    /// The vertices.
    pub vertices: Vec<V>,
}

} // verus!
