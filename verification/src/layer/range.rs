//! Ranges placed in a layer: areas that the game reacts to.
use vstd::prelude::*;
use crate::layer::TriggerBoxInstanceObject;

verus! {

/// What an exit range leads to.
#[derive(Debug, PartialEq, Eq, Structural, Clone, Copy)]
pub enum ExitType {
    /// A zone line.
    ZoneLine,
    /// An invisible exit.
    Invisible,
}

/// Marks an area of a map, such as its place name or the music played there.
#[derive(Debug, PartialEq, Eq, Structural, Clone, Copy)]
pub struct MapRangeInstanceObject {
    /// The trigger box of the range.
    pub parent_data: TriggerBoxInstanceObject,
    /// The map shown.
    pub map: u32,
    /// The place name of the block.
    pub place_name_block: u32,
    /// The place name of the spot.
    pub place_name_spot: u32,
    /// The weather.
    pub weather: u32,
    /// The music.
    pub bgm: u32,
    /// Unknown.
    pub unk1: u8,
    /// Unknown.
    pub unk2: u8,
    /// The housing block.
    pub housing_block_id: u8,
    /// Whether rest bonus accrues here.
    pub rest_bonus_effective: bool,
    /// The discovery.
    pub discovery_id: u8,
    /// Whether the map is shown.
    pub map_enabled: bool,
    /// Whether the place name is shown.
    pub place_name_enabled: bool,
    /// Whether discovery is enabled.
    pub discovery_enabled: bool,
    /// Whether the music plays.
    pub bgm_enabled: bool,
    /// Whether the weather applies.
    pub weather_enabled: bool,
    /// Whether rest bonus is enabled.
    pub rest_bonus_enabled: bool,
    /// Whether the music plays on entering only.
    pub bgm_play_zone_in_only: bool,
    /// Whether lifts work.
    pub lift_enabled: bool,
    /// Whether housing is enabled.
    pub housing_enabled: bool,
    /// Whether flying height errors are logged.
    pub log_flying_height_max_err: bool,
    /// Unknown.
    pub unk4: bool,
    /// Whether mounts and ornaments are disabled.
    pub mounts_and_ornaments_disabled: bool,
    /// Whether only Lalafells may enter.
    pub lalafells_only: bool,
}

/// Who appears in a pop range.
#[derive(Debug, PartialEq, Eq, Structural, Clone, Copy)]
pub enum PopType {
    /// Player characters.
    PC,
    /// Non-player characters.
    Npc,
    /// Content.
    Content,
}

/// A generic area for events, like FATEs or cutscene triggers.
#[derive(Debug, PartialEq, Eq, Structural, Clone, Copy)]
pub struct EventRangeInstanceObject {
    /// The trigger box of the range.
    pub parent_data: TriggerBoxInstanceObject,
}

/// The area of a FATE.
#[derive(Debug, PartialEq, Eq, Structural, Clone, Copy)]
pub struct FateRangeInstanceObject {
    /// The shape of the range.
    pub parent_data: RangeInstanceObject,
    /// The layout label of the FATE.
    pub fate_layout_label_id: u32,
}

/// A gimmick range.
#[derive(Debug, PartialEq, Eq, Structural, Clone, Copy)]
pub struct GimmickRangeInstanceObject {
    /// The shape of the range.
    pub parent_data: RangeInstanceObject,
    unk1: u16,
    unk2: u8,
    unk3: u32,
    unk4: u32,
    unk5: u16,
    unk6: u16,
    unk7: u16,
}

/// A range that can be clicked.
#[derive(Debug, PartialEq, Eq, Structural, Clone, Copy)]
pub struct ClickableRangeInstanceObject {
    /// The shape of the range.
    pub parent_data: RangeInstanceObject,
}

/// A hint for the client to preload an area.
#[derive(Debug, PartialEq, Eq, Structural, Clone, Copy)]
pub struct PrefetchRangeInstanceObject {
    /// The trigger box of the range.
    pub parent_data: TriggerBoxInstanceObject,
    /// The object it is bound to.
    pub bound_instance_id: u32,
}

/// A hint used to animate the opening of doors.
#[derive(Debug, PartialEq, Eq, Structural, Clone, Copy)]
pub struct DoorRangeInstanceObject {
    /// The shape of the range.
    pub parent_data: RangeInstanceObject,
}

/// The shape of a range.
#[derive(Debug, PartialEq, Eq, Structural, Clone, Copy)]
pub enum RangeShape {
    /// No shape.
    NoShape,
    /// A box.
    Box,
    /// A sphere.
    Sphere,
    /// A cylinder.
    Cylinder,
    /// A plane.
    Plane,
}

/// A range of some shape.
#[derive(Debug, PartialEq, Eq, Structural, Clone, Copy)]
pub struct RangeInstanceObject {
    /// The shape.
    pub shape: RangeShape,
}

/// Provides underwater effects like bubbles and swimming.
#[derive(Debug, PartialEq, Eq, Structural, Clone, Copy)]
pub struct WaterRangeInstanceObject {
    /// The trigger box of the range.
    pub parent_data: TriggerBoxInstanceObject,
    /// Whether the effects apply.
    pub enabled: bool,
    /// Unknown.
    pub unk2: bool,
}

/// A range that shows or hides things.
#[derive(Debug, PartialEq, Eq, Structural, Clone, Copy)]
pub struct ShowHideRangeInstanceObject {
    /// The trigger box of the range.
    pub parent_data: TriggerBoxInstanceObject,
    /// Unknown.
    pub unk_offset: i32,
    /// Unknown.
    pub unk_count: u32,
}

/// A range of game contents.
#[derive(Debug, PartialEq, Eq, Structural, Clone, Copy)]
pub struct GameContentsRangeInstanceObject {
    /// The trigger box of the range.
    pub parent_data: TriggerBoxInstanceObject,
}

/// A range of event effects.
#[derive(Debug, PartialEq, Eq, Structural, Clone, Copy)]
pub struct EventEffectRangeInstanceObject {
    /// The trigger box of the range.
    pub parent_data: TriggerBoxInstanceObject,
}

} // verus!
