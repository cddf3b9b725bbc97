//! Treasure placed in a layer.
use vstd::prelude::*;
use crate::layer::GameObjectInstanceObject;

verus! {

/// A treasure coffer.
#[derive(Debug, PartialEq, Eq, Structural, Clone, Copy)]
pub struct TreasureInstanceObject {
    /// The game data this object refers to.
    pub parent_data: GameObjectInstanceObject,
}

} // verus!
