//! Collision meshes (PCB): their polygons.
use vstd::prelude::*;

verus! {

/// A triangle of a collision mesh.
#[derive(Debug, Clone, Copy, PartialEq, Eq)]
pub struct Polygon {
    /// The indices of its vertices.
    pub vertex_indices: [u8; 3],
    /// Its material.
    pub material: u64,
}

} // verus!
