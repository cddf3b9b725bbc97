//! Gathering points placed in a layer.
use vstd::prelude::*;
use crate::layer::GameObjectInstanceObject;

verus! {

/// A gathering point.
#[derive(Debug, PartialEq, Eq, Structural, Clone, Copy)]
pub struct GatheringInstanceObject {
    /// The game data this object refers to.
    pub parent_data: GameObjectInstanceObject,
}

} // verus!
