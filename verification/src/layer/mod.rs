//! Layers of game objects, as LGB and SGB files store them.
use vstd::prelude::*;

pub mod aetheryte;
pub mod bg;
pub mod collision;
pub mod common;
pub mod env_set;
pub mod event;
pub mod gathering;
pub mod light;
pub mod marker;
pub mod npc;
pub mod objects;
pub mod range;
pub mod shared_group;
pub mod sound;
pub mod string_heap;
pub mod treasure;
pub mod vfx;

pub use aetheryte::AetheryteInstanceObject;
pub use bg::{AnalyticColliderType, ModelCollisionType, ShadowMode};
pub use collision::{
    CollisionAttributes, CollisionBoxInstanceObject, CullingBoxInstanceObject,
    TriggerBoxInstanceObject, TriggerBoxShape,
};
pub use common::{Color, GameInstanceObject, RelativePositions};
pub use env_set::EnvSetShape;
pub use event::EventObjectInstanceObject;
pub use gathering::GatheringInstanceObject;
pub use light::{LightShape, PointLightType};
pub use marker::{
    ChairMarkerInstanceObject, ChairType, PositionMarkerInstanceObject, PositionMarkerType,
    QuestMarkerInstanceObject, TargetMarkerType,
};
pub use npc::{CharacterInstanceObject, EventNpcInstanceObject};
pub use objects::{
    entry_type_of, AnalyticCollider, BattleNpcInstanceObject, BgPartInstanceObject, Bounds,
    ClientPathInstanceObject, ColorHDRI, ExitRangeInstanceObject, InstanceObject,
    LayerEntryData, LightInstanceObject, MovePathSettings, PathControlPoint, PathInstanceObject,
    PopRangeInstanceObject, ServerPathInstanceObject, SharedGroupInstance,
    TargetMarkerInstanceObject, Transformation, VfxInstanceObject, VolumetricCloudInstanceObject,
};
pub use range::{
    ClickableRangeInstanceObject, DoorRangeInstanceObject, EventEffectRangeInstanceObject,
    EventRangeInstanceObject, ExitType, FateRangeInstanceObject, GameContentsRangeInstanceObject,
    GimmickRangeInstanceObject, MapRangeInstanceObject, PopType, PrefetchRangeInstanceObject,
    RangeInstanceObject, RangeShape, ShowHideRangeInstanceObject, WaterRangeInstanceObject,
};
pub use shared_group::{
    ColourState, DoorState, MovePathMode, RotationState, RotationType, TransformState,
};
pub use sound::{SoundEffectType, SoundInstanceObject, SoundParameters};
pub use string_heap::{HeapString, StringHeap};
pub use treasure::TreasureInstanceObject;
pub use vfx::{DecalInstanceObject, LineStyle, LineVFXInstanceObject};

verus! {

/// Base struct for objects that refer to game data.
#[derive(Debug, PartialEq, Eq, Structural, Clone, Copy)]
pub struct GameObjectInstanceObject {
    /// What sheet this ID refers to depends on the kind of object this is.
    pub base_id: u32,
}

/// The kinds of objects a layer holds. Only the kinds read by the client from an LGB file are
/// listed.
#[derive(Debug, PartialEq, Eq, Structural, Copy, Clone)]
pub enum LayerEntryType {
    /// This represents nothing. It's also used as a fallback for any unknown objects.
    Unknown,
    /// Background model object that can have collision.
    BgPart,
    /// Light object.
    Light,
    /// Visual effect object.
    Vfx,
    /// Debug information, stripped out of retail data.
    PositionMarker,
    /// Instance of a shared group object.
    SharedGroup,
    /// Sound object.
    Sound,
    /// Event NPC object.
    EventNPC,
    /// Battle NPC object, stripped out of retail data.
    BattleNPC,
    /// Aetheryte object.
    Aetheryte,
    /// Unknown object.
    EnvSpace,
    /// Gathering point, stripped out of retail data.
    Gathering,
    /// Treasure object.
    Treasure,
    /// Displays a weapon model.
    Weapon,
    /// Generic range for characters to spawn in.
    PopRange,
    /// Zone transitions.
    ExitRange,
    /// Used to demarcate various aspects of the map, such as location or the BGM used.
    MapRange,
    /// Unknown object.
    NaviMeshRange,
    /// Event object.
    EventObject,
    /// Unknown object.
    EnvLocation,
    /// Generic areas for events to use like FATEs or cutscene triggers.
    EventRange,
    /// Unknown object.
    QuestMarker,
    /// Unknown object.
    CollisionBox,
    /// A hint used to animate the opening of doors.
    DoorRange,
    /// The dotted lines used for zone transitions and boundaries.
    LineVFX,
    /// Path object that objects and characters can follow.
    ClientPath,
    /// Path object that objects and characters can follow, stripped out of retail data.
    ServerPath,
    /// Unknown object.
    GimmickRange,
    /// Unknown object.
    TargetMarker,
    /// Marker used to determine where a character sits or lies down.
    ChairMarker,
    /// Unknown object.
    ClickableRange,
    /// A hint for the client to preload an area.
    PrefetchRange,
    /// Unknown object.
    FateRange,
    /// Unknown object.
    SphereCastRange,
    /// 2D decal drawn on top of a 3D object.
    Decal,
    /// Provides underwater effects like bubbles and swimming.
    WaterRange,
    /// Unknown object.
    ShowHideRange,
    /// Unknown object.
    GameContentsRange,
    /// Unknown object.
    EventEffectRange,
    /// Anything occluded by this object is not drawn.
    CullingBox,
    /// Unknown object.
    Unk91,
    /// Unknown object.
    Unk92,
    /// (Presumably) a volumetric cloud.
    VolumetricCloud,
}

/// The number that stands for a kind of object in a file.
pub open spec fn layer_entry_number(t: LayerEntryType) -> i32 {
    match t {
        LayerEntryType::Unknown => 0,
        LayerEntryType::BgPart => 1,
        LayerEntryType::Light => 3,
        LayerEntryType::Vfx => 4,
        LayerEntryType::PositionMarker => 5,
        LayerEntryType::SharedGroup => 6,
        LayerEntryType::Sound => 7,
        LayerEntryType::EventNPC => 8,
        LayerEntryType::BattleNPC => 9,
        LayerEntryType::Aetheryte => 12,
        LayerEntryType::EnvSpace => 13,
        LayerEntryType::Gathering => 14,
        LayerEntryType::Treasure => 16,
        LayerEntryType::Weapon => 39,
        LayerEntryType::PopRange => 40,
        LayerEntryType::ExitRange => 41,
        LayerEntryType::MapRange => 43,
        LayerEntryType::NaviMeshRange => 44,
        LayerEntryType::EventObject => 45,
        LayerEntryType::EnvLocation => 47,
        LayerEntryType::EventRange => 49,
        LayerEntryType::QuestMarker => 51,
        LayerEntryType::CollisionBox => 57,
        LayerEntryType::DoorRange => 58,
        LayerEntryType::LineVFX => 59,
        LayerEntryType::ClientPath => 65,
        LayerEntryType::ServerPath => 66,
        LayerEntryType::GimmickRange => 67,
        LayerEntryType::TargetMarker => 68,
        LayerEntryType::ChairMarker => 69,
        LayerEntryType::ClickableRange => 70,
        LayerEntryType::PrefetchRange => 71,
        LayerEntryType::FateRange => 72,
        LayerEntryType::SphereCastRange => 75,
        LayerEntryType::Decal => 83,
        LayerEntryType::WaterRange => 86,
        LayerEntryType::ShowHideRange => 87,
        LayerEntryType::GameContentsRange => 88,
        LayerEntryType::EventEffectRange => 89,
        LayerEntryType::CullingBox => 90,
        LayerEntryType::Unk91 => 91,
        LayerEntryType::Unk92 => 92,
        LayerEntryType::VolumetricCloud => 93,
    }
}

impl LayerEntryType {
    /// The number that stands for this kind of object in a file.
    pub fn number(&self) -> (r: i32)
        ensures
            r == layer_entry_number(*self),
    {
        match self {
            LayerEntryType::Unknown => 0,
            LayerEntryType::BgPart => 1,
            LayerEntryType::Light => 3,
            LayerEntryType::Vfx => 4,
            LayerEntryType::PositionMarker => 5,
            LayerEntryType::SharedGroup => 6,
            LayerEntryType::Sound => 7,
            LayerEntryType::EventNPC => 8,
            LayerEntryType::BattleNPC => 9,
            LayerEntryType::Aetheryte => 12,
            LayerEntryType::EnvSpace => 13,
            LayerEntryType::Gathering => 14,
            LayerEntryType::Treasure => 16,
            LayerEntryType::Weapon => 39,
            LayerEntryType::PopRange => 40,
            LayerEntryType::ExitRange => 41,
            LayerEntryType::MapRange => 43,
            LayerEntryType::NaviMeshRange => 44,
            LayerEntryType::EventObject => 45,
            LayerEntryType::EnvLocation => 47,
            LayerEntryType::EventRange => 49,
            LayerEntryType::QuestMarker => 51,
            LayerEntryType::CollisionBox => 57,
            LayerEntryType::DoorRange => 58,
            LayerEntryType::LineVFX => 59,
            LayerEntryType::ClientPath => 65,
            LayerEntryType::ServerPath => 66,
            LayerEntryType::GimmickRange => 67,
            LayerEntryType::TargetMarker => 68,
            LayerEntryType::ChairMarker => 69,
            LayerEntryType::ClickableRange => 70,
            LayerEntryType::PrefetchRange => 71,
            LayerEntryType::FateRange => 72,
            LayerEntryType::SphereCastRange => 75,
            LayerEntryType::Decal => 83,
            LayerEntryType::WaterRange => 86,
            LayerEntryType::ShowHideRange => 87,
            LayerEntryType::GameContentsRange => 88,
            LayerEntryType::EventEffectRange => 89,
            LayerEntryType::CullingBox => 90,
            LayerEntryType::Unk91 => 91,
            LayerEntryType::Unk92 => 92,
            LayerEntryType::VolumetricCloud => 93,
        }
    }

    /// The kind of object that `n` stands for in a file, if any.
    pub fn from_number(n: i32) -> (r: Option<LayerEntryType>)
        ensures
            r matches Some(t) ==> layer_entry_number(t) == n,
            r is None ==> forall|t: LayerEntryType| layer_entry_number(t) != n,
    {
        let r = match n {
            0 => Some(LayerEntryType::Unknown),
            1 => Some(LayerEntryType::BgPart),
            3 => Some(LayerEntryType::Light),
            4 => Some(LayerEntryType::Vfx),
            5 => Some(LayerEntryType::PositionMarker),
            6 => Some(LayerEntryType::SharedGroup),
            7 => Some(LayerEntryType::Sound),
            8 => Some(LayerEntryType::EventNPC),
            9 => Some(LayerEntryType::BattleNPC),
            12 => Some(LayerEntryType::Aetheryte),
            13 => Some(LayerEntryType::EnvSpace),
            14 => Some(LayerEntryType::Gathering),
            16 => Some(LayerEntryType::Treasure),
            39 => Some(LayerEntryType::Weapon),
            40 => Some(LayerEntryType::PopRange),
            41 => Some(LayerEntryType::ExitRange),
            43 => Some(LayerEntryType::MapRange),
            44 => Some(LayerEntryType::NaviMeshRange),
            45 => Some(LayerEntryType::EventObject),
            47 => Some(LayerEntryType::EnvLocation),
            49 => Some(LayerEntryType::EventRange),
            51 => Some(LayerEntryType::QuestMarker),
            57 => Some(LayerEntryType::CollisionBox),
            58 => Some(LayerEntryType::DoorRange),
            59 => Some(LayerEntryType::LineVFX),
            65 => Some(LayerEntryType::ClientPath),
            66 => Some(LayerEntryType::ServerPath),
            67 => Some(LayerEntryType::GimmickRange),
            68 => Some(LayerEntryType::TargetMarker),
            69 => Some(LayerEntryType::ChairMarker),
            70 => Some(LayerEntryType::ClickableRange),
            71 => Some(LayerEntryType::PrefetchRange),
            72 => Some(LayerEntryType::FateRange),
            75 => Some(LayerEntryType::SphereCastRange),
            83 => Some(LayerEntryType::Decal),
            86 => Some(LayerEntryType::WaterRange),
            87 => Some(LayerEntryType::ShowHideRange),
            88 => Some(LayerEntryType::GameContentsRange),
            89 => Some(LayerEntryType::EventEffectRange),
            90 => Some(LayerEntryType::CullingBox),
            91 => Some(LayerEntryType::Unk91),
            92 => Some(LayerEntryType::Unk92),
            93 => Some(LayerEntryType::VolumetricCloud),
            _ => None,
        };
        r
    }
}

/// Each kind of object has a number of its own, so that the number tells the kind back.
pub proof fn law_layer_entry_number_distinct(a: LayerEntryType, b: LayerEntryType)
    ensures
        layer_entry_number(a) == layer_entry_number(b) ==> a == b,
{
}

/// How a layer refers to layer sets.
#[derive(Debug, PartialEq, Eq, Structural, Copy, Clone)]
pub enum LayerSetReferencedType {
    /// Every layer set.
    All,
    /// The listed layer sets.
    Include,
    /// Every layer set but the listed ones.
    Exclude,
    /// Not known.
    Undetermined,
}

/// The layer sets a layer belongs to.
#[derive(Debug, PartialEq, Clone)]
pub struct LayerSetReferencedList {
    /// The type of reference.
    pub referenced_type: LayerSetReferencedType,
    /// Corresponds to IDs of a layer set of a scene.
    pub layer_set_ids: Vec<u32>,
}

/// An object set that a layer refers to.
#[derive(Debug, PartialEq, Clone)]
pub struct ObjectSetReferenced {
    /// The type of object of `instance_id`.
    pub asset_type: LayerEntryType,
    /// Instance ID referring to an object within this LGB.
    pub instance_id: u32,
    /// Path to an `.obsb` file.
    pub obsb_path: HeapString,
}

/// Whether an object set that a layer refers to is enabled.
#[derive(Debug, PartialEq, Clone)]
pub struct ObjectSetEnableReferenced {
    /// The type of object of `instance_id`.
    pub asset_type: LayerEntryType,
    /// Instance ID referring to an object within this LGB.
    pub instance_id: u32,
    /// Whether the object set is enabled.
    pub ob_set_enable: bool,
    /// Whether the object set's emission is enabled.
    pub ob_set_emissive_enable: bool,
    padding: [u8; 2],
}

/// Metadata of a layer.
#[derive(Debug, PartialEq, Clone)]
pub struct LayerHeader {
    /// ID of this layer.
    pub layer_id: u32,
    /// The name of this layer.
    pub name: HeapString,
    /// This field should be left at its default.
    pub instance_object_offset: i32,
    /// This field should be left at its default.
    pub instance_object_count: i32,
    /// Whether this layer is visible by default. If false, it does not show up in-game.
    pub active: bool,
    /// Sets 2 in the client's layer manager flags. Doesn't seem to be set in retail layers.
    pub unk1: bool,
    /// Always seems to be false in retail layers.
    pub unk2: bool,
    /// Unsure of its purpose, but can be true or false in retail layers.
    pub unk3: bool,
    /// The layer set referenced list.
    pub layer_set_referenced_list: LayerSetReferencedList,
    /// Only show this layer if this festival ID is active.
    pub festival_id: u16,
    /// Only show this layer if this festival phase ID is active.
    pub festival_phase_id: u16,
    /// False in all retail layers.
    pub unk4: bool,
    /// Sets 4 in the client's layer manager flags.
    pub unk5: bool,
    /// Has various values in retail layers.
    pub unk6: u16,
    /// Seen as 1 or 2 in retail layers, mostly housing.
    pub unk7: u16,
    /// The object set referenced.
    pub object_set_referenced: Vec<ObjectSetReferenced>,
    /// The object set enable referenced.
    pub object_set_enable_referenced: Vec<ObjectSetEnableReferenced>,
}

/// A layer of objects.
#[derive(Debug, PartialEq, Clone)]
pub struct Layer {
    /// The header for this layer.
    pub header: LayerHeader,
    /// The objects of this layer.
    pub objects: Vec<InstanceObject>,
}

/// Whether a layer with these referenced layer sets is shown in layer set `id`: always for
/// every layer set, in the listed ones for an inclusion, outside them for an exclusion, and
/// never where the reference is not known.
pub open spec fn in_layer_set(kind: LayerSetReferencedType, ids: Seq<u32>, id: u32) -> bool {
    match kind {
        LayerSetReferencedType::Include => ids.contains(id),
        LayerSetReferencedType::Exclude => !ids.contains(id),
        LayerSetReferencedType::All => true,
        LayerSetReferencedType::Undetermined => false,
    }
}

/// Whether `id` is one of `ids`.
fn contains_id(ids: &Vec<u32>, id: u32) -> (r: bool)
    ensures
        r == ids@.contains(id),
{
    let mut i: usize = 0;
    while i < ids.len()
        invariant
            i <= ids@.len(),
            forall|j: int| 0 <= j < i ==> ids@[j] != id,
        decreases ids@.len() - i,
    {
        if ids[i] == id {
            return true;
        }
        i = i + 1;
    }
    false
}

impl LayerHeader {
    /// The size of a layer header in a file.
    pub const SIZE: usize = 0x34;

    /// Whether this layer set ID is included or excluded.
    pub fn has_layer_set(&self, id: u32) -> (r: bool)
        ensures
            r == in_layer_set(
                self.layer_set_referenced_list.referenced_type,
                self.layer_set_referenced_list.layer_set_ids@,
                id,
            ),
    {
        match self.layer_set_referenced_list.referenced_type {
            LayerSetReferencedType::Include => contains_id(
                &self.layer_set_referenced_list.layer_set_ids,
                id,
            ),
            LayerSetReferencedType::Exclude => !contains_id(
                &self.layer_set_referenced_list.layer_set_ids,
                id,
            ),
            LayerSetReferencedType::All => true,
            LayerSetReferencedType::Undetermined => false,
        }
    }
}

impl Default for LayerHeader {
    /// An active layer with nothing in it, in every layer set.
    fn default() -> (r: Self)
        ensures
            r.layer_id == 0,
            r.name.value@.len() == 0,
            r.instance_object_offset == 0,
            r.instance_object_count == 0,
            r.active,
            !r.unk1 && !r.unk2 && !r.unk3 && !r.unk4 && !r.unk5,
            r.layer_set_referenced_list.referenced_type == LayerSetReferencedType::All,
            r.layer_set_referenced_list.layer_set_ids@.len() == 0,
            r.festival_id == 0 && r.festival_phase_id == 0,
            r.unk6 == 0 && r.unk7 == 0,
            r.object_set_referenced@.len() == 0,
            r.object_set_enable_referenced@.len() == 0,
    {
        LayerHeader {
            layer_id: 0,
            name: HeapString { value: String::new() },
            instance_object_offset: 0,
            instance_object_count: 0,
            active: true,
            unk1: false,
            unk2: false,
            unk3: false,
            layer_set_referenced_list: LayerSetReferencedList {
                referenced_type: LayerSetReferencedType::All,
                layer_set_ids: Vec::new(),
            },
            festival_id: 0,
            festival_phase_id: 0,
            unk4: false,
            unk5: false,
            unk6: 0,
            unk7: 0,
            object_set_referenced: Vec::new(),
            object_set_enable_referenced: Vec::new(),
        }
    }
}

} // verus!
