//! Animation files (PAP): the skeletons they are for and their animations.
use vstd::prelude::*;

verus! {

/// The kind of skeleton an animation is for.
#[derive(Debug, Clone, Copy, PartialEq, Eq, Structural)]
pub enum SkeletonType {
    /// A human.
    Human,
    /// A monster.
    Monster,
    /// A demihuman.
    DemiHuman,
    /// A weapon.
    Weapon,
}

/// An animation of a file.
#[derive(Debug, Clone, PartialEq)]
pub struct PapAnimation {
    /// The name of the animation.
    pub name: String,
    animation_type: u16,
    havok_index: i16,
    face: bool,
}

} // verus!
