//! Sounds placed in a layer.
use vstd::prelude::*;
use crate::layer::HeapString;

verus! {

/// The kind of a sound effect.
#[derive(Debug, PartialEq, Eq, Structural, Clone, Copy)]
pub enum SoundEffectType {
    /// From a point.
    Point,
    /// From a point, in a direction.
    PointDir,
    /// Along a line.
    Line,
    /// Along a broken line.
    PolyLine,
    /// Over a surface.
    Surface,
    /// Blocked by a board.
    BoardObstruction,
    /// Blocked by a box.
    BoxObstruction,
    /// Blocked by a broken line.
    PolyLineObstruction,
    /// Blocked by a polygon.
    PolygonObstruction,
    /// Controls a line.
    LineExtController,
    /// Over a polygon.
    Polygon,
}

/// The parameters of a sound.
#[derive(Debug, PartialEq, Clone)]
pub struct SoundParameters {
    /// The kind of effect.
    pub sound_effect_type: SoundEffectType,
    /// Whether it plays by itself.
    pub auto_play: bool,
    /// Whether it is heard from afar.
    pub is_no_far_clip: bool,
    /// Padding.
    pub unk1: u16,
    /// Where its binary data is.
    pub binary_offset: i32,
    /// How much binary data it has.
    pub binary_count: i32,
    /// Which point is selected.
    pub point_selection: u32,
    /// Its binary data.
    pub binaries: Vec<u8>,
}

/// A sound.
#[derive(Debug, PartialEq, Clone)]
pub struct SoundInstanceObject {
    parameters_offset: i32,
    /// Path to the sound file.
    pub asset_path: HeapString,
    /// The parameters of the sound.
    pub parameters: SoundParameters,
}

} // verus!
