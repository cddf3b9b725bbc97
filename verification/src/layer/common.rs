//! Small structures that several kinds of objects share.
use vstd::prelude::*;

verus! {

/// Where a list of positions is, and how many it holds.
#[derive(Debug, PartialEq, Eq, Structural, Clone, Copy)]
pub struct RelativePositions {
    pos: i32,
    pos_count: i32,
}

/// A color with an alpha channel.
#[derive(Debug, PartialEq, Eq, Structural, Clone, Copy)]
pub struct Color {
    /// Red.
    pub red: u8,
    /// Green.
    pub green: u8,
    /// Blue.
    pub blue: u8,
    /// Alpha.
    pub alpha: u8,
}

/// An object that refers to game data.
#[derive(Debug, PartialEq, Eq, Structural, Clone, Copy)]
pub struct GameInstanceObject {
    /// The ID of the game data.
    pub base_id: u32,
}

} // verus!
