//! Scenes: the parts of their sections that hold no coordinates.
use vstd::prelude::*;
use crate::layer::HeapString;

verus! {

/// An instance of a timeline of a scene.
#[derive(Debug, Clone, Copy, PartialEq, Eq, Structural)]
pub struct ScnTimelineInstance {
    /// The time in the timeline.
    pub tmac_time: i32,
    /// The instance.
    pub instance_id: i32,
}

/// The state mode of a shared group.
#[derive(Debug, Clone, Copy, PartialEq, Eq, Structural)]
pub enum SGStateMode {
    /// Not known.
    Unk0,
    /// Not known.
    Unk1,
    /// Not known, and not used by the client.
    Unk2,
    /// On or off.
    OnOff,
    /// Not known.
    Unk4,
}

/// An axis of rotation.
#[derive(Debug, Clone, Copy, PartialEq, Eq, Structural)]
pub enum RotationAxis {
    /// The X axis.
    X,
    /// The Y axis.
    Y,
    /// The Z axis.
    Z,
}

/// A layer set of a scene.
#[derive(Debug, Clone, PartialEq)]
pub struct ScnLayerSet {
    /// The navigation mesh.
    pub nvm_path: HeapString,
    /// The ID of the layer set.
    pub id: i32,
    unk2: i32,
    unk3: i32,
    /// The territory type.
    pub territory_type_id: u16,
    /// The content finder condition.
    pub content_finder_condition_id: u16,
    unk5: i32,
    /// The navigation data.
    pub nvx_path: HeapString,
}

/// The layer sets section of a scene.
#[derive(Debug, Clone, PartialEq)]
pub struct ScnLayerSetsSection {
    offset: i32,
    count: i32,
    /// The layer sets.
    pub layer_sets: Vec<ScnLayerSet>,
}

/// How a scene is stained.
#[derive(Debug, Clone, Copy, PartialEq, Eq)]
pub struct ScnStainInformation {
    /// The stain used by default.
    pub default_stain_index: u16,
    unk1: u8,
    unk2: u8,
    unk3: u32,
    unk4: [u32; 6],
    unk5: u32,
    unk6: u32,
    unk7: u32,
    unk8: u32,
    unk9: u32,
    unk10: u8,
    unk11: [u8; 3],
    unk12: u32,
    unk13: u32,
    unk14: u32,
}

/// An unknown section of a scene.
#[derive(Debug, Clone, Copy, PartialEq, Eq)]
pub struct ScnUnknown1Section {
    unk: [u8; 5],
}

/// An unknown section of a scene.
#[derive(Debug, Clone, Copy, PartialEq, Eq)]
pub struct ScnUnknown2Section {
    unk: [u8; 39],
}

/// An unknown section of a scene.
#[derive(Debug, Clone, Copy, PartialEq, Eq)]
pub struct ScnUnknown3Section {
    unk: [u8; 64],
}

/// A filter of a scene.
#[derive(Debug, Clone, PartialEq)]
pub struct ScnFilter {
    /// The navigation mesh.
    pub nvm_path: HeapString,
    unk1: i32,
    unk2: i32,
    unk3: i32,
    /// The territory type.
    pub territory_type_id: i32,
    unk5: i32,
    /// The navigation data.
    pub nvx_path: HeapString,
}

/// The filters section of a scene.
#[derive(Debug, Clone, PartialEq)]
pub struct ScnFiltersSection {
    filter_offset: i32,
    filter_count: i32,
    /// The filters.
    pub filters: Vec<ScnFilter>,
}

} // verus!
