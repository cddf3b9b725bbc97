//! Markers placed in a layer.
use vstd::prelude::*;

verus! {

/// What a position marker is for.
#[derive(Debug, PartialEq, Eq, Structural, Clone, Copy)]
pub enum PositionMarkerType {
    /// Where debug characters appear.
    DebugZonePop,
    /// Where debug jumps land.
    DebugJump,
    /// A navigation mesh point.
    NaviMesh,
    /// An event.
    LQEvent,
}

/// A position marker, stripped out of retail data.
#[derive(Debug, PartialEq, Eq, Structural, Clone, Copy)]
pub struct PositionMarkerInstanceObject {
    /// What the marker is for.
    pub position_marker_type: PositionMarkerType,
    /// Where the Japanese comment is.
    pub comment_jp_offset: u32,
    /// Where the English comment is.
    pub comment_en_offset: u32,
}

/// What a character can sit or lie on.
#[derive(Debug, PartialEq, Eq, Structural, Clone, Copy)]
pub enum ChairType {
    /// A chair.
    Chair,
    /// A bed.
    Bed,
}

/// Where a character can sit down or lie.
#[derive(Debug, PartialEq, Eq, Structural, Clone, Copy)]
pub struct ChairMarkerInstanceObject {
    /// Whether the left side can be used.
    pub left_enable: bool,
    /// Whether the right side can be used.
    pub right_enable: bool,
    /// Whether the back can be used.
    pub back_enable: bool,
    /// What kind of seat this is.
    pub chair_type: ChairType,
}

/// A quest marker.
#[derive(Debug, PartialEq, Eq, Structural, Clone, Copy)]
pub struct QuestMarkerInstanceObject {
    unk1: u32,
    unk2: u32,
}

/// What a target marker marks.
#[derive(Debug, PartialEq, Eq, Structural, Clone, Copy)]
pub enum TargetMarkerType {
    /// The target shown in the interface.
    UiTarget,
    /// The name plate.
    UiNameplate,
    /// Where characters look.
    LookAt,
    /// A body part.
    BodyDyn,
    /// The root.
    Root,
    /// Unknown.
    Unk1,
    /// Unknown.
    Unk2,
}

} // verus!
