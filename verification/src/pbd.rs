//! Pre-bone deformers (PBD): how the deformers link.
use vstd::prelude::*;

verus! {

/// A link in the tree of deformers.
#[derive(Debug, Clone, Copy, PartialEq, Eq, Structural)]
pub struct PreBoneDeformerLink {
    /// The parent, or -1.
    pub parent_index: i16,
    /// The first child, or -1.
    pub first_child_index: i16,
    /// The next sibling, or -1.
    pub next_sibling_index: i16,
    /// The deformer.
    pub deformer_index: u16,
}

} // verus!
