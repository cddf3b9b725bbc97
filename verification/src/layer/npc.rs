//! Characters placed in a layer.
use vstd::prelude::*;
use crate::layer::GameObjectInstanceObject;

verus! {

/// A character.
#[derive(Debug, PartialEq, Eq, Structural, Clone, Copy)]
pub struct CharacterInstanceObject {
    /// The game data this object refers to.
    pub parent_data: GameObjectInstanceObject,
    /// Unknown.
    pub unk1: u32,
    /// Unknown.
    pub unk2: u32,
    /// Unknown.
    pub unk3: u32,
    /// Unknown.
    pub unk4: u32,
    /// Unknown.
    pub unk5: u32,
    /// Unknown.
    pub unk6: u32,
}

/// An event NPC.
#[derive(Debug, PartialEq, Eq, Structural, Clone, Copy)]
pub struct EventNpcInstanceObject {
    /// The character.
    pub parent_data: CharacterInstanceObject,
    /// Unknown.
    pub unk1: u32,
    /// Unknown.
    pub unk2: u32,
    /// Unknown.
    pub unk3: u32,
}

} // verus!
