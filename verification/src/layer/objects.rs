//! The objects a layer holds that carry float values, kept as the bits the file stores, and
//! the data of each kind of object.
use vstd::prelude::*;

use super::bg::{AnalyticColliderType, ModelCollisionType, ShadowMode};
use super::collision::{
    CollisionAttributes, CollisionBoxInstanceObject, CullingBoxInstanceObject,
    TriggerBoxInstanceObject,
};
use super::common::{Color, RelativePositions};
use super::event::EventObjectInstanceObject;
use super::gathering::GatheringInstanceObject;
use super::light::{LightShape, PointLightType};
use super::marker::{
    ChairMarkerInstanceObject, PositionMarkerInstanceObject, QuestMarkerInstanceObject,
    TargetMarkerType,
};
use super::npc::{CharacterInstanceObject, EventNpcInstanceObject};
use super::range::{
    ClickableRangeInstanceObject, DoorRangeInstanceObject, EventEffectRangeInstanceObject,
    EventRangeInstanceObject, ExitType, FateRangeInstanceObject, GameContentsRangeInstanceObject,
    GimmickRangeInstanceObject, MapRangeInstanceObject, PopType, PrefetchRangeInstanceObject,
    ShowHideRangeInstanceObject, WaterRangeInstanceObject,
};
use super::shared_group::{
    ColourState, DoorState, MovePathMode, RotationState, RotationType, TransformState,
};
use super::sound::SoundInstanceObject;
use super::string_heap::HeapString;
use super::vfx::{DecalInstanceObject, LineVFXInstanceObject};
use super::aetheryte::AetheryteInstanceObject;
use super::treasure::TreasureInstanceObject;
use super::LayerEntryType;

verus! {

/// Where an object is, how it is turned and how it is scaled, as the bits of the floats.
#[derive(Debug, PartialEq, Clone, Copy)]
pub struct Transformation {
    /// The translation.
    pub translation: [u32; 3],
    /// The rotation.
    pub rotation: [u32; 3],
    /// The scale.
    pub scale: [u32; 3],
}

/// A box aligned with the axes, as the bits of its corners' floats.
#[derive(Debug, PartialEq, Clone, Copy)]
pub struct Bounds {
    /// The smallest corner.
    pub min: [u32; 3],
    /// The largest corner.
    pub max: [u32; 3],
}

/// A color with an alpha channel and an intensity (the bits of a float).
#[derive(Debug, PartialEq, Eq, Structural, Clone, Copy)]
pub struct ColorHDRI {
    /// Red.
    pub red: u8,
    /// Green.
    pub green: u8,
    /// Blue.
    pub blue: u8,
    /// Alpha.
    pub alpha: u8,
    /// The intensity.
    pub intensity: u32,
}

/// A simple shape that stands for the collision of a background part.
#[derive(Debug, PartialEq, Clone, Copy)]
pub struct AnalyticCollider {
    /// The material mask.
    pub material_mask: u32,
    /// The material.
    pub material_id: u32,
    /// Not known.
    pub unk1: u32,
    /// Not known.
    pub unk2: u32,
    /// The shape.
    pub collider_type: AnalyticColliderType,
    /// Where it is.
    pub transform: Transformation,
    /// Its bounds.
    pub bounds: Bounds,
}

/// A background model that can have collision.
#[derive(Debug, PartialEq, Clone)]
pub struct BgPartInstanceObject {
    /// Path to the model.
    pub asset_path: HeapString,
    /// Path to the collision.
    pub collision_asset_path: HeapString,
    /// How it collides.
    pub collision_type: ModelCollisionType,
    /// What its collision is like.
    pub collision_attributes: CollisionAttributes,
    /// A simple shape for its collision, if it has one.
    pub analytic_collider: Option<AnalyticCollider>,
    /// Whether it is visible.
    pub visible: bool,
    /// How the world light casts its shadow.
    pub world_light_shadow_mode: ShadowMode,
    /// How object lights cast its shadow.
    pub object_light_shadow_mode: ShadowMode,
    /// Where it fades out (bits of a float).
    pub fade_out_distance: u32,
    /// The size of its bounding sphere (bits of a float).
    pub bounding_sphere_size: u32,
}

/// A light. The float values are kept as their bits.
#[derive(Debug, PartialEq, Clone)]
pub struct LightInstanceObject {
    /// Its shape.
    pub shape: LightShape,
    /// How it fades.
    pub attenuation: u32,
    /// How far it reaches.
    pub range: u32,
    /// The kind of point light.
    pub point_light_type: PointLightType,
    /// How a cone fades.
    pub attenuation_cone_coefficient: u32,
    /// The angle of a spot.
    pub spot_angle: u32,
    /// Path to a texture.
    pub texture_path: HeapString,
    /// Its color.
    pub color: ColorHDRI,
    /// Whether it makes specular highlights.
    pub enable_specular_highlights: bool,
    /// Whether background parts cast shadows from it.
    pub enable_bg_part_shadows: bool,
    /// Whether characters cast shadows from it.
    pub enable_character_shadows: bool,
    /// Not known.
    pub unk_bool: bool,
    /// The near plane of its shadows.
    pub shadow_plane_near: u32,
    /// The skew of a flat light.
    pub flat_light_skew_angle: [u32; 2],
    /// Not known.
    pub unk1: u32,
    /// Not known.
    pub unk2: u32,
    /// Not known.
    pub unk3: u32,
    /// Not known.
    pub unk4: u32,
    /// Not known.
    pub unk5: u32,
    /// Not known.
    pub unk6: u32,
    /// Not known.
    pub unk7: i32,
    /// Not known.
    pub unk8: u32,
    /// Not known.
    pub unk9: bool,
    /// Not known.
    pub unk10: i32,
}

/// A visual effect. The float values are kept as their bits.
#[derive(Debug, PartialEq, Clone)]
pub struct VfxInstanceObject {
    /// Path to the effect.
    pub asset_path: HeapString,
    /// Over how far soft particles fade.
    pub soft_particle_fade_range: u32,
    /// Its color.
    pub color: Color,
    /// Whether it plays.
    pub active: bool,
    /// Not known.
    pub unk1: bool,
    /// Not known.
    pub unk2: bool,
    /// Where fading in starts.
    pub fade_near_start: u32,
    /// Where fading in ends.
    pub fade_near_end: u32,
    /// Where fading out starts.
    pub fade_far_start: u32,
    /// Where fading out ends.
    pub fade_far_end: u32,
    /// The depth correction.
    pub z_correct: u32,
    /// Not known.
    pub unk3: u32,
}

/// How a shared group moves along a path. The float ranges are kept as their bits.
#[derive(Debug, PartialEq, Clone, Copy)]
pub struct MovePathSettings {
    /// How it moves.
    pub mode: MovePathMode,
    /// Whether it starts by itself.
    pub auto_play: bool,
    /// How long it takes.
    pub time: u16,
    /// Whether it loops.
    pub loop_animation: bool,
    /// Whether it goes backwards.
    pub reverse: bool,
    /// How it turns.
    pub rotation: RotationType,
    /// How long it speeds up.
    pub accelerate_time: u16,
    /// How long it slows down.
    pub decelerate_time: u16,
    /// How far it swings up and down.
    pub vertical_swing_range: [u32; 2],
    /// How far it swings sideways.
    pub horizontal_swing_range: [u32; 2],
    /// How fast it swings.
    pub swing_move_speed_range: [u32; 2],
    /// How it turns while swinging.
    pub swing_rotation: [u32; 2],
    /// How fast it turns while swinging.
    pub swing_rotation_speed_range: [u32; 2],
}

/// An instance of a shared group.
#[derive(Debug, PartialEq, Clone)]
pub struct SharedGroupInstance {
    /// Path to the shared group.
    pub asset_path: HeapString,
    /// How its doors start.
    pub initial_door_state: DoorState,
    /// How its rotation starts.
    pub initial_rotation_state: RotationState,
    /// Whether its random timeline starts by itself.
    pub random_timeline_auto_play: bool,
    /// Whether its random timeline loops.
    pub random_timeline_loop_playback: bool,
    /// Whether its collision can be controlled without an event object.
    pub collision_controllable_without_eobj: bool,
    /// Not known.
    pub unk_bool: bool,
    /// The client path it is bound to.
    pub bound_client_path_instance_id: u32,
    /// How its transformation starts.
    pub initial_transform_state: TransformState,
    /// How its color starts.
    pub initial_color_state: ColourState,
    /// How it moves along a path.
    pub move_path_settings: MovePathSettings,
}

/// A point of a path, its position as the bits of its floats.
#[derive(Debug, PartialEq, Clone, Copy)]
pub struct PathControlPoint {
    /// Where it is.
    pub position: [u32; 3],
    /// Its ID.
    pub point_id: u16,
    /// Whether it is selected.
    pub select: bool,
}

/// A path that objects and characters can follow.
#[derive(Debug, PartialEq, Clone)]
pub struct PathInstanceObject {
    /// Its points.
    pub control_points: Vec<PathControlPoint>,
}

/// A path the client uses.
#[derive(Debug, PartialEq, Clone)]
pub struct ClientPathInstanceObject {
    /// The path.
    pub parent_data: PathInstanceObject,
    /// Not known.
    pub unk1: bool,
    /// Not known.
    pub unk2: bool,
    /// Not known.
    pub unk3: bool,
    /// Not known.
    pub unk_offset1: u32,
    /// Not known.
    pub unk_offset2: u32,
}

/// A path the server uses.
#[derive(Debug, PartialEq, Clone)]
pub struct ServerPathInstanceObject {
    /// The path.
    pub parent_data: PathInstanceObject,
}

/// A battle NPC. The float values are kept as their bits.
#[derive(Debug, PartialEq, Clone)]
pub struct BattleNpcInstanceObject {
    /// The character.
    pub parent_data: CharacterInstanceObject,
    /// Its name.
    pub name_id: u32,
    /// What it drops.
    pub drop_item: u32,
    /// How far it senses.
    pub sense_range_rate: u32,
    /// Its level.
    pub level: u16,
    /// Not known.
    pub active_type: u8,
    /// How often it appears.
    pub pop_interval: u8,
    /// How likely it appears.
    pub pop_rate: u8,
    /// What makes it appear.
    pub pop_event: u8,
    /// Its link group.
    pub link_group: u8,
    /// Its link family.
    pub link_family: u8,
    /// Its link range.
    pub link_range: u8,
    /// How many it links with at most.
    pub link_count_limit: u8,
    /// Not known.
    pub nonpop_init_zone: u8,
    /// Not known.
    pub invalid_repop: u8,
    /// Not known.
    pub link_parent: u8,
    /// Not known.
    pub link_override: u8,
    /// Not known.
    pub link_reply: u8,
    /// Not known.
    pub nonpop: u8,
    /// How far sideways it appears.
    pub horizontal_pop_range: u32,
    /// How far up and down it appears.
    pub vertical_pop_range: u32,
    /// Its base data.
    pub bnpc_base_data: i32,
    /// Not known.
    pub repop_id: u8,
    /// Its rank.
    pub bnpc_rank_id: u8,
    /// Its territory range.
    pub territory_range: u16,
    /// What it is bound to.
    pub bound_instance_id: u32,
    /// Its FATE layout label.
    pub fate_layout_label_id: u32,
    /// Its AI.
    pub normal_ai: u32,
    /// The server path it follows.
    pub server_path_id: u32,
    /// Its equipment.
    pub equipment_id: u32,
    /// Its looks.
    pub customize_id: u32,
    /// Where it appears.
    pub positions: Vec<[u32; 3]>,
}

/// A zone transition.
#[derive(Debug, PartialEq, Clone)]
pub struct ExitRangeInstanceObject {
    /// The trigger box.
    pub parent_data: TriggerBoxInstanceObject,
    /// The kind of exit.
    pub exit_type: ExitType,
    /// The zone.
    pub zone_id: u16,
    /// The territory type.
    pub territory_type: u16,
    /// Its index.
    pub index: i32,
    /// Where it leads.
    pub destination_instance_id: u32,
    /// Where one comes back.
    pub return_instance_id: u32,
    /// Which way the player runs (bits of a float).
    pub player_running_direction: u32,
}

/// A range for characters to appear in.
#[derive(Debug, PartialEq, Eq, Structural, Clone, Copy)]
pub struct PopRangeInstanceObject {
    /// The kind of range.
    pub pop_type: PopType,
    /// Its positions.
    pub relative_positions: RelativePositions,
    /// The ratio of its inner radius (bits of a float).
    pub inner_radius_ratio: u32,
    /// Its index.
    pub index: u8,
}

/// A target marker.
#[derive(Debug, PartialEq, Eq, Structural, Clone, Copy)]
pub struct TargetMarkerInstanceObject {
    /// How far up the nameplate is (bits of a float).
    pub nameplate_offset_y: u32,
    /// The kind of marker.
    pub target_marker_type: TargetMarkerType,
}

/// A volumetric cloud. Its color is not held: the type the format gives it is not known here.
#[derive(Debug, PartialEq, Clone)]
pub struct VolumetricCloudInstanceObject {
    /// Path to a `.cldb` file.
    pub asset_path: HeapString,
    /// Whether it is shown.
    pub active: bool,
    /// Not known.
    pub unk1: [u8; 3],
    /// Not known.
    pub unk2: u32,
}

/// The data of an object, one variant for each kind. The kinds whose layout is not known here
/// (weapons, environment spaces and locations, navigation mesh and sphere cast ranges and two
/// unnamed kinds) carry no data.
#[derive(Debug, PartialEq, Clone)]
pub enum LayerEntryData {
    Unknown,
    BgPart(BgPartInstanceObject),
    Light(LightInstanceObject),
    Vfx(VfxInstanceObject),
    PositionMarker(PositionMarkerInstanceObject),
    SharedGroup(SharedGroupInstance),
    Sound(SoundInstanceObject),
    EventNPC(EventNpcInstanceObject),
    BattleNPC(BattleNpcInstanceObject),
    Aetheryte(AetheryteInstanceObject),
    EnvSpace(),
    Gathering(GatheringInstanceObject),
    Treasure(TreasureInstanceObject),
    Weapon(),
    PopRange(PopRangeInstanceObject),
    ExitRange(ExitRangeInstanceObject),
    MapRange(MapRangeInstanceObject),
    NaviMeshRange(),
    EventObject(EventObjectInstanceObject),
    EnvLocation(),
    EventRange(EventRangeInstanceObject),
    QuestMarker(QuestMarkerInstanceObject),
    CollisionBox(CollisionBoxInstanceObject),
    DoorRange(DoorRangeInstanceObject),
    LineVFX(LineVFXInstanceObject),
    ClientPath(ClientPathInstanceObject),
    ServerPath(ServerPathInstanceObject),
    GimmickRange(GimmickRangeInstanceObject),
    TargetMarker(TargetMarkerInstanceObject),
    ChairMarker(ChairMarkerInstanceObject),
    ClickableRange(ClickableRangeInstanceObject),
    PrefetchRange(PrefetchRangeInstanceObject),
    FateRange(FateRangeInstanceObject),
    SphereCastRange(),
    Decal(DecalInstanceObject),
    WaterRange(WaterRangeInstanceObject),
    ShowHideRange(ShowHideRangeInstanceObject),
    GameContentsRange(GameContentsRangeInstanceObject),
    EventEffectRange(EventEffectRangeInstanceObject),
    CullingBox(CullingBoxInstanceObject),
    Unk91(),
    Unk92(),
    VolumetricCloud(VolumetricCloudInstanceObject),
}

/// The kind of object that data of a variant belongs to: the kind of the same name.
pub open spec fn entry_type_of(d: LayerEntryData) -> LayerEntryType {
    match d {
        LayerEntryData::Unknown => LayerEntryType::Unknown,
        LayerEntryData::BgPart(_) => LayerEntryType::BgPart,
        LayerEntryData::Light(_) => LayerEntryType::Light,
        LayerEntryData::Vfx(_) => LayerEntryType::Vfx,
        LayerEntryData::PositionMarker(_) => LayerEntryType::PositionMarker,
        LayerEntryData::SharedGroup(_) => LayerEntryType::SharedGroup,
        LayerEntryData::Sound(_) => LayerEntryType::Sound,
        LayerEntryData::EventNPC(_) => LayerEntryType::EventNPC,
        LayerEntryData::BattleNPC(_) => LayerEntryType::BattleNPC,
        LayerEntryData::Aetheryte(_) => LayerEntryType::Aetheryte,
        LayerEntryData::EnvSpace() => LayerEntryType::EnvSpace,
        LayerEntryData::Gathering(_) => LayerEntryType::Gathering,
        LayerEntryData::Treasure(_) => LayerEntryType::Treasure,
        LayerEntryData::Weapon() => LayerEntryType::Weapon,
        LayerEntryData::PopRange(_) => LayerEntryType::PopRange,
        LayerEntryData::ExitRange(_) => LayerEntryType::ExitRange,
        LayerEntryData::MapRange(_) => LayerEntryType::MapRange,
        LayerEntryData::NaviMeshRange() => LayerEntryType::NaviMeshRange,
        LayerEntryData::EventObject(_) => LayerEntryType::EventObject,
        LayerEntryData::EnvLocation() => LayerEntryType::EnvLocation,
        LayerEntryData::EventRange(_) => LayerEntryType::EventRange,
        LayerEntryData::QuestMarker(_) => LayerEntryType::QuestMarker,
        LayerEntryData::CollisionBox(_) => LayerEntryType::CollisionBox,
        LayerEntryData::DoorRange(_) => LayerEntryType::DoorRange,
        LayerEntryData::LineVFX(_) => LayerEntryType::LineVFX,
        LayerEntryData::ClientPath(_) => LayerEntryType::ClientPath,
        LayerEntryData::ServerPath(_) => LayerEntryType::ServerPath,
        LayerEntryData::GimmickRange(_) => LayerEntryType::GimmickRange,
        LayerEntryData::TargetMarker(_) => LayerEntryType::TargetMarker,
        LayerEntryData::ChairMarker(_) => LayerEntryType::ChairMarker,
        LayerEntryData::ClickableRange(_) => LayerEntryType::ClickableRange,
        LayerEntryData::PrefetchRange(_) => LayerEntryType::PrefetchRange,
        LayerEntryData::FateRange(_) => LayerEntryType::FateRange,
        LayerEntryData::SphereCastRange() => LayerEntryType::SphereCastRange,
        LayerEntryData::Decal(_) => LayerEntryType::Decal,
        LayerEntryData::WaterRange(_) => LayerEntryType::WaterRange,
        LayerEntryData::ShowHideRange(_) => LayerEntryType::ShowHideRange,
        LayerEntryData::GameContentsRange(_) => LayerEntryType::GameContentsRange,
        LayerEntryData::EventEffectRange(_) => LayerEntryType::EventEffectRange,
        LayerEntryData::CullingBox(_) => LayerEntryType::CullingBox,
        LayerEntryData::Unk91() => LayerEntryType::Unk91,
        LayerEntryData::Unk92() => LayerEntryType::Unk92,
        LayerEntryData::VolumetricCloud(_) => LayerEntryType::VolumetricCloud,
    }
}

impl LayerEntryType {
    /// The kind of object that `value` is the data of.
    pub fn from(value: &LayerEntryData) -> (r: LayerEntryType)
        ensures
            r == entry_type_of(*value),
    {
        match value {
            LayerEntryData::Unknown => LayerEntryType::Unknown,
            LayerEntryData::BgPart(_) => LayerEntryType::BgPart,
            LayerEntryData::Light(_) => LayerEntryType::Light,
            LayerEntryData::Vfx(_) => LayerEntryType::Vfx,
            LayerEntryData::PositionMarker(_) => LayerEntryType::PositionMarker,
            LayerEntryData::SharedGroup(_) => LayerEntryType::SharedGroup,
            LayerEntryData::Sound(_) => LayerEntryType::Sound,
            LayerEntryData::EventNPC(_) => LayerEntryType::EventNPC,
            LayerEntryData::BattleNPC(_) => LayerEntryType::BattleNPC,
            LayerEntryData::Aetheryte(_) => LayerEntryType::Aetheryte,
            LayerEntryData::EnvSpace() => LayerEntryType::EnvSpace,
            LayerEntryData::Gathering(_) => LayerEntryType::Gathering,
            LayerEntryData::Treasure(_) => LayerEntryType::Treasure,
            LayerEntryData::Weapon() => LayerEntryType::Weapon,
            LayerEntryData::PopRange(_) => LayerEntryType::PopRange,
            LayerEntryData::ExitRange(_) => LayerEntryType::ExitRange,
            LayerEntryData::MapRange(_) => LayerEntryType::MapRange,
            LayerEntryData::NaviMeshRange() => LayerEntryType::NaviMeshRange,
            LayerEntryData::EventObject(_) => LayerEntryType::EventObject,
            LayerEntryData::EnvLocation() => LayerEntryType::EnvLocation,
            LayerEntryData::EventRange(_) => LayerEntryType::EventRange,
            LayerEntryData::QuestMarker(_) => LayerEntryType::QuestMarker,
            LayerEntryData::CollisionBox(_) => LayerEntryType::CollisionBox,
            LayerEntryData::DoorRange(_) => LayerEntryType::DoorRange,
            LayerEntryData::LineVFX(_) => LayerEntryType::LineVFX,
            LayerEntryData::ClientPath(_) => LayerEntryType::ClientPath,
            LayerEntryData::ServerPath(_) => LayerEntryType::ServerPath,
            LayerEntryData::GimmickRange(_) => LayerEntryType::GimmickRange,
            LayerEntryData::TargetMarker(_) => LayerEntryType::TargetMarker,
            LayerEntryData::ChairMarker(_) => LayerEntryType::ChairMarker,
            LayerEntryData::ClickableRange(_) => LayerEntryType::ClickableRange,
            LayerEntryData::PrefetchRange(_) => LayerEntryType::PrefetchRange,
            LayerEntryData::FateRange(_) => LayerEntryType::FateRange,
            LayerEntryData::SphereCastRange() => LayerEntryType::SphereCastRange,
            LayerEntryData::Decal(_) => LayerEntryType::Decal,
            LayerEntryData::WaterRange(_) => LayerEntryType::WaterRange,
            LayerEntryData::ShowHideRange(_) => LayerEntryType::ShowHideRange,
            LayerEntryData::GameContentsRange(_) => LayerEntryType::GameContentsRange,
            LayerEntryData::EventEffectRange(_) => LayerEntryType::EventEffectRange,
            LayerEntryData::CullingBox(_) => LayerEntryType::CullingBox,
            LayerEntryData::Unk91() => LayerEntryType::Unk91,
            LayerEntryData::Unk92() => LayerEntryType::Unk92,
            LayerEntryData::VolumetricCloud(_) => LayerEntryType::VolumetricCloud,
        }
    }
}

/// One object of a layer.
#[derive(Debug, PartialEq, Clone)]
pub struct InstanceObject {
    /// The unique ID of this object.
    pub instance_id: u32,
    /// The name of this object.
    pub name: HeapString,
    /// The object's transformation in the world space.
    pub transform: Transformation,
    /// The data associated with this object.
    pub data: LayerEntryData,
}

} // verus!
