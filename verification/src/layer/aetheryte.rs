//! Aetherytes placed in a layer.
use vstd::prelude::*;
use crate::layer::GameObjectInstanceObject;

verus! {

/// An aetheryte.
#[derive(Debug, PartialEq, Eq, Structural, Clone, Copy)]
pub struct AetheryteInstanceObject {
    /// The game data this object refers to.
    pub parent_data: GameObjectInstanceObject,
    /// The object this aetheryte is bound to.
    pub bound_instance_id: u32,
    unk1: u32,
}

} // verus!
