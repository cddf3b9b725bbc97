//! Event objects placed in a layer.
use vstd::prelude::*;
use crate::layer::GameObjectInstanceObject;

verus! {

/// An event object.
#[derive(Debug, PartialEq, Eq, Structural, Clone, Copy)]
pub struct EventObjectInstanceObject {
    /// The game data this object refers to.
    pub parent_data: GameObjectInstanceObject,
    /// The object this one is bound to.
    pub bound_instance_id: u32,
    /// Unknown, most likely a flag.
    pub unk1: u8,
}

} // verus!
