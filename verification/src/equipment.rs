//! Equipment slots of a character.
use vstd::prelude::*;

verus! {

/// A slot of a character's equipment.
#[derive(Debug, PartialEq, Eq, Structural, Clone, Copy)]
pub enum Slot {
    /// The head.
    Head,
    /// The body.
    Body,
    /// The hands.
    Hands,
    /// The legs.
    Legs,
    /// The feet.
    Feet,
    /// The wrists.
    Wrists,
    /// The neck.
    Neck,
    /// The ears.
    Earring,
    /// The left ring finger.
    RingLeft,
    /// The right ring finger.
    RingRight,
}

} // verus!
