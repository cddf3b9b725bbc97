//! Sound files (SCD): the kinds of sounds and audio, and their flags.
use vstd::prelude::*;

verus! {

/// The kind of a sound.
#[derive(Debug, Clone, Copy, PartialEq, Eq, Structural)]
pub enum SoundType {
    /// A normal sound.
    Normal,
    /// One of several, at random.
    Random,
    /// In stereo.
    Stereo,
    /// Played in a cycle.
    Cycle,
    /// Played in order.
    Order,
    /// In four-channel surround.
    FourChannelSurround,
    /// An engine sound.
    Engine,
    /// Dialog.
    Dialog,
    /// At a fixed position.
    FixedPosition,
    /// A dynamic stream.
    DynamixStream,
    /// A group, at random.
    GroupRandom,
    /// A group, in order.
    GroupOrder,
    /// Atmospheric.
    Atomosgear,
    /// A conditional jump.
    ConditionalJump,
    /// Empty.
    Empty,
    /// MIDI music.
    MidiMusic,
}

/// The flags of a sound.
#[derive(Clone, Copy, PartialEq, Eq, Structural, Debug)]
pub struct SoundAttribute(pub i32);

/// Whether every flag of `other` is set in `flags`.
pub open spec fn has_flags(flags: i32, other: i32) -> bool {
    flags & other == other
}

impl SoundAttribute {
    /// The sound loops.
    pub const LOOP: i32 = 0x0001;
    /// The sound has reverb.
    pub const REVERB: i32 = 0x0002;
    /// The volume is fixed.
    pub const FIXED_VOLUME: i32 = 0x0004;
    /// The position is fixed.
    pub const FIXED_POSITION: i32 = 0x0008;
    /// The sound is music.
    pub const MUSIC: i32 = 0x0020;
    /// Bypasses Pro Logic IIz.
    pub const BYPASS_PLIIZ: i32 = 0x0040;
    /// Uses external attributes.
    pub const USE_EXTERNAL_ATTR: i32 = 0x0080;
    /// The sound has routing information.
    pub const EXIST_ROUTING_SETTING: i32 = 0x0100;
    /// The music is in surround.
    pub const MUSIC_SURROUND: i32 = 0x0200;
    /// Bus ducking.
    pub const BUS_DUCKING: i32 = 0x0400;
    /// Acceleration.
    pub const ACCELERATION: i32 = 0x0800;
    /// Dynamix end.
    pub const DYNAMIX_END: i32 = 0x1000;
    /// The sound has an extra description.
    pub const EXTRA_DESC: i32 = 0x2000;
    /// Dynamix plus.
    pub const DYNAMIX_PLUS: i32 = 0x4000;
    /// Atmospheric.
    pub const ATOMOSGEAR: i32 = 0x8000;

    /// Whether every flag of `flags` is set.
    pub fn contains(&self, flags: i32) -> (r: bool)
        ensures
            r == has_flags(self.0, flags),
    {
        self.0 & flags == flags
    }
}

/// Where a sound is routed.
#[derive(Debug, Clone, Copy, PartialEq, Eq, Structural)]
pub struct RoutingInfo {
    data_size: u32,
    send_count: u8,
}

/// An extra description of a sound.
#[derive(Debug, Clone, Copy, PartialEq, Eq, Structural)]
pub struct SoundExtraDesc {
    version: u8,
    size: u16,
    play_time_length: u32,
}

/// Which track and audio a sound plays.
#[derive(Debug, Clone, Copy, PartialEq, Eq, Structural)]
pub struct TrackInfo {
    /// The track.
    pub track_data_index: u16,
    /// The audio.
    pub audio_data_index: u16,
}

/// The flags of an audio entry.
#[derive(Clone, Copy, PartialEq, Eq, Structural, Debug)]
pub struct AudioFlag(pub i32);

impl AudioFlag {
    /// The audio has a marker chunk.
    pub const MARKER_CHUNK: i32 = 0x01;
    /// The audio is split in mono.
    pub const MONO_SPLIT: i32 = 0x02;
    /// The version shift bit.
    pub const VERSION_SHIFT_BIT: i32 = 0x01000000;

    /// Whether every flag of `flags` is set.
    pub fn contains(&self, flags: i32) -> (r: bool)
        ensures
            r == has_flags(self.0, flags),
    {
        self.0 & flags == flags
    }
}

/// The format of audio data.
#[derive(Debug, Clone, Copy, PartialEq, Eq, Structural)]
pub enum AudioFormat {
    /// No audio.
    Empty,
    /// Ogg Vorbis, PC music.
    OggVorbis,
    /// MP3, on the PS3.
    Mp3,
    /// Microsoft ADPCM, PC sound.
    MsAdpcm,
    /// ATRAC9, on the PS4.
    Atrac9,
}

/// The kind of a sound layout object.
#[derive(Debug, Clone, Copy, PartialEq, Eq, Structural)]
pub enum SoundLayoutObjectType {
    /// Nothing.
    Null,
    /// Ambient.
    Ambient,
    /// A direction.
    Direction,
    /// A point.
    Point,
    /// A point with a direction.
    PointDir,
    /// A line.
    Line,
    /// A broken line.
    Polyline,
    /// A surface.
    Surface,
    /// Blocked by a board.
    BoardObstruction,
    /// Blocked by a box.
    BoxObstruction,
    /// Blocked by a broken line.
    PolylineObstruction,
    /// A polygon.
    Polygon,
    /// Controls a box.
    BoxExtController,
    /// Controls a line.
    LineExtController,
    /// Blocked by a polygon.
    PolygonObstruction,
}

/// An attribute of a sound.
#[derive(Debug, Clone, Copy, PartialEq, Eq, Structural)]
pub struct AttributeData {
    version: u8,
    /// The attribute.
    pub attribute_id: u16,
    /// The attribute searched for.
    pub search_attribute_id: u16,
    /// The condition.
    pub condition: u8,
    arg_count: u8,
    sound_label_low: u32,
    sound_label_high: u32,
}

} // verus!
