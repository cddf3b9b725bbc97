//! Materials (MTRL files): their shader, textures, keys, constants, samplers, and color and
//! dye tables.
use vstd::prelude::*;
use crate::bytes::{bytes_in, read_u16, read_u16_le, read_u32, read_u32_le, u16_at, u16_le, u32_at, u32_le, Endian};
use crate::text::string_from_chars;

verus! {

/// A color table whose layout is not known.
#[derive(Debug, Clone, Copy, PartialEq, Eq, Structural)]
pub struct OpaqueColorTableData {}

/// A row of a dye table of the older layout: which properties a dye changes, and its
/// template.
#[derive(Debug, Clone, Copy, PartialEq, Eq, Structural)]
pub struct LegacyColorDyeTableRow {
    /// The template of the dye.
    pub template: u16,
    /// Whether the diffuse color is dyed.
    pub diffuse: bool,
    /// Whether the specular color is dyed.
    pub specular: bool,
    /// Whether the emissive color is dyed.
    pub emissive: bool,
    /// Whether the gloss is dyed.
    pub gloss: bool,
    /// Whether the specular strength is dyed.
    pub specular_strength: bool,
}

/// A row of a dye table of the Dawntrail layout.
#[derive(Debug, Clone, Copy, PartialEq, Eq, Structural)]
pub struct DawntrailColorDyeTableRow {
    /// The template of the dye.
    pub template: u16,
    /// The dye channel.
    pub channel: u8,
    /// Whether the diffuse color is dyed.
    pub diffuse: bool,
    /// Whether the specular color is dyed.
    pub specular: bool,
    /// Whether the emissive color is dyed.
    pub emissive: bool,
    /// Whether the third scalar is dyed.
    pub scalar3: bool,
    /// Whether the metalness is dyed.
    pub metalness: bool,
    /// Whether the roughness is dyed.
    pub roughness: bool,
    /// Whether the sheen rate is dyed.
    pub sheen_rate: bool,
    /// Whether the sheen tint rate is dyed.
    pub sheen_tint_rate: bool,
    /// Whether the sheen aperture is dyed.
    pub sheen_aperture: bool,
    /// Whether the anisotropy is dyed.
    pub anisotropy: bool,
    /// Whether the sphere map index is dyed.
    pub sphere_map_index: bool,
    /// Whether the sphere map mask is dyed.
    pub sphere_map_mask: bool,
}

/// A dye table of the older layout: sixteen rows.
#[derive(Debug, Clone, PartialEq)]
pub struct LegacyColorDyeTableData {
    /// The rows.
    pub rows: Vec<LegacyColorDyeTableRow>,
}

/// A dye table of the Dawntrail layout: thirty-two rows.
#[derive(Debug, Clone, PartialEq)]
pub struct DawntrailColorDyeTableData {
    /// The rows.
    pub rows: Vec<DawntrailColorDyeTableRow>,
}

/// A dye table whose layout is not known.
#[derive(Debug, Clone, Copy, PartialEq, Eq, Structural)]
pub struct OpaqueColorDyeTableData {}

/// The dye table of a material, in one of its layouts.
#[derive(Debug, Clone, PartialEq)]
pub enum ColorDyeTable {
    /// The older layout.
    LegacyColorDyeTable(LegacyColorDyeTableData),
    /// The Dawntrail layout.
    DawntrailColorDyeTable(DawntrailColorDyeTableData),
    /// A layout that is not known.
    OpaqueColorDyeTable(OpaqueColorDyeTableData),
}

/// A shader key of a material.
#[derive(Debug, Clone, Copy, PartialEq, Eq, Structural)]
pub struct ShaderKey {
    /// The category.
    pub category: u32,
    /// The value.
    pub value: u32,
}

/// A shader constant of a material.
#[derive(Debug, Clone, Copy, PartialEq, Eq, Structural)]
pub struct ConstantStruct {
    constant_id: u32,
    value_offset: u16,
    value_size: u16,
}

/// A texture sampler of a material.
#[derive(Debug, Clone, Copy, PartialEq, Eq, Structural)]
pub struct Sampler {
    /// What the texture is used for.
    pub texture_usage: u32,
    /// The flags of the sampler.
    pub flags: u32,
    /// The index of the texture.
    pub texture_index: u8,
}

/// The row that a stored 16-bit value stands for: the template in the bits above the fifth,
/// each flag in one of the five lowest bits.
pub open spec fn legacy_row(data: u16) -> LegacyColorDyeTableRow {
    LegacyColorDyeTableRow {
        template: data >> 5u16,
        diffuse: (data & 0x01) != 0,
        specular: (data & 0x02) != 0,
        emissive: (data & 0x04) != 0,
        gloss: (data & 0x08) != 0,
        specular_strength: (data & 0x10) != 0,
    }
}

/// The row that a stored 32-bit value stands for: the template in bits 16 to 26, the channel
/// in bits 27 and 28, each flag in one of the twelve lowest bits.
pub open spec fn dawntrail_row(data: u32) -> DawntrailColorDyeTableRow {
    DawntrailColorDyeTableRow {
        template: ((data >> 16u32) & 0x7FF) as u16,
        channel: ((data >> 27u32) & 0x3) as u8,
        diffuse: (data & 0x0001) != 0,
        specular: (data & 0x0002) != 0,
        emissive: (data & 0x0004) != 0,
        scalar3: (data & 0x0008) != 0,
        metalness: (data & 0x0010) != 0,
        roughness: (data & 0x0020) != 0,
        sheen_rate: (data & 0x0040) != 0,
        sheen_tint_rate: (data & 0x0080) != 0,
        sheen_aperture: (data & 0x0100) != 0,
        anisotropy: (data & 0x0200) != 0,
        sphere_map_index: (data & 0x0400) != 0,
        sphere_map_mask: (data & 0x0800) != 0,
    }
}

/// Each flag of a dye table row of the Dawntrail layout is one bit of the stored value, in
/// the order of the fields from the lowest bit up: diffuse is bit 0, specular bit 1, emissive
/// bit 2, the third scalar bit 3, metalness bit 4, roughness bit 5, the sheen rate bit 6, the
/// sheen tint rate bit 7, the sheen aperture bit 8, anisotropy bit 9, the sphere map index bit
/// 10 and its mask bit 11; the template is the eleven bits from bit 16 up and the channel the
/// two bits from bit 27 up.
pub proof fn law_dawntrail_row_bits(data: u32)
    ensures
        dawntrail_row(data).diffuse == ((data >> 0u32) % 2 == 1),
        dawntrail_row(data).specular == ((data >> 1u32) % 2 == 1),
        dawntrail_row(data).emissive == ((data >> 2u32) % 2 == 1),
        dawntrail_row(data).scalar3 == ((data >> 3u32) % 2 == 1),
        dawntrail_row(data).metalness == ((data >> 4u32) % 2 == 1),
        dawntrail_row(data).roughness == ((data >> 5u32) % 2 == 1),
        dawntrail_row(data).sheen_rate == ((data >> 6u32) % 2 == 1),
        dawntrail_row(data).sheen_tint_rate == ((data >> 7u32) % 2 == 1),
        dawntrail_row(data).sheen_aperture == ((data >> 8u32) % 2 == 1),
        dawntrail_row(data).anisotropy == ((data >> 9u32) % 2 == 1),
        dawntrail_row(data).sphere_map_index == ((data >> 10u32) % 2 == 1),
        dawntrail_row(data).sphere_map_mask == ((data >> 11u32) % 2 == 1),
        dawntrail_row(data).template == (data >> 16u32) % 2048,
        dawntrail_row(data).channel == (data >> 27u32) % 4,
{
    assert({
        &&& ((data & 0x0001) != 0) == ((data >> 0u32) % 2 == 1)
        &&& ((data & 0x0002) != 0) == ((data >> 1u32) % 2 == 1)
        &&& ((data & 0x0004) != 0) == ((data >> 2u32) % 2 == 1)
        &&& ((data & 0x0008) != 0) == ((data >> 3u32) % 2 == 1)
        &&& ((data & 0x0010) != 0) == ((data >> 4u32) % 2 == 1)
        &&& ((data & 0x0020) != 0) == ((data >> 5u32) % 2 == 1)
        &&& ((data & 0x0040) != 0) == ((data >> 6u32) % 2 == 1)
        &&& ((data & 0x0080) != 0) == ((data >> 7u32) % 2 == 1)
        &&& ((data & 0x0100) != 0) == ((data >> 8u32) % 2 == 1)
        &&& ((data & 0x0200) != 0) == ((data >> 9u32) % 2 == 1)
        &&& ((data & 0x0400) != 0) == ((data >> 10u32) % 2 == 1)
        &&& ((data & 0x0800) != 0) == ((data >> 11u32) % 2 == 1)
        &&& ((data >> 16u32) & 0x7FF) == (data >> 16u32) % 2048
        &&& ((data >> 27u32) & 0x3) == (data >> 27u32) % 4
    }) by (bit_vector);
}

/// Each flag of a dye table row of the older layout is one bit of the stored value, from the
/// lowest bit up: diffuse, specular, emissive, gloss and the specular strength; the template
/// is the bits from bit 5 up.
pub proof fn law_legacy_row_bits(data: u16)
    ensures
        legacy_row(data).diffuse == ((data >> 0u16) % 2 == 1),
        legacy_row(data).specular == ((data >> 1u16) % 2 == 1),
        legacy_row(data).emissive == ((data >> 2u16) % 2 == 1),
        legacy_row(data).gloss == ((data >> 3u16) % 2 == 1),
        legacy_row(data).specular_strength == ((data >> 4u16) % 2 == 1),
        legacy_row(data).template == data / 32,
{
    assert({
        &&& ((data & 0x01) != 0) == ((data >> 0u16) % 2 == 1)
        &&& ((data & 0x02) != 0) == ((data >> 1u16) % 2 == 1)
        &&& ((data & 0x04) != 0) == ((data >> 2u16) % 2 == 1)
        &&& ((data & 0x08) != 0) == ((data >> 3u16) % 2 == 1)
        &&& ((data & 0x10) != 0) == ((data >> 4u16) % 2 == 1)
        &&& (data >> 5u16) == data / 32
    }) by (bit_vector);
}

impl LegacyColorDyeTableRow {
    /// The row that a stored value stands for.
    pub fn from_data(data: u16) -> (r: Self)
        ensures
            r == legacy_row(data),
    {
        LegacyColorDyeTableRow {
            template: data >> 5u16,
            diffuse: (data & 0x01) != 0,
            specular: (data & 0x02) != 0,
            emissive: (data & 0x04) != 0,
            gloss: (data & 0x08) != 0,
            specular_strength: (data & 0x10) != 0,
        }
    }
}

impl DawntrailColorDyeTableRow {
    /// The row that a stored value stands for.
    pub fn from_data(data: u32) -> (r: Self)
        ensures
            r == dawntrail_row(data),
    {
        DawntrailColorDyeTableRow {
            template: ((data >> 16u32) & 0x7FF) as u16,
            channel: ((data >> 27u32) & 0x3) as u8,
            diffuse: (data & 0x0001) != 0,
            specular: (data & 0x0002) != 0,
            emissive: (data & 0x0004) != 0,
            scalar3: (data & 0x0008) != 0,
            metalness: (data & 0x0010) != 0,
            roughness: (data & 0x0020) != 0,
            sheen_rate: (data & 0x0040) != 0,
            sheen_tint_rate: (data & 0x0080) != 0,
            sheen_aperture: (data & 0x0100) != 0,
            anisotropy: (data & 0x0200) != 0,
            sphere_map_index: (data & 0x0400) != 0,
            sphere_map_mask: (data & 0x0800) != 0,
        }
    }
}

/// The layout of a dye table that the dimension byte of a material tells: the older one for
/// zero, the Dawntrail one for 0x50 to 0x5F, one not known otherwise.
pub open spec fn dye_table_layout(table_dimension_logs: u8) -> int {
    if table_dimension_logs == 0 {
        0
    } else if 0x50 <= table_dimension_logs <= 0x5F {
        1
    } else {
        2
    }
}

/// How many bytes a dye table of the layout that `table_dimension_logs` tells takes.
pub open spec fn dye_table_size(table_dimension_logs: u8) -> int {
    if dye_table_layout(table_dimension_logs) == 0 {
        32
    } else if dye_table_layout(table_dimension_logs) == 1 {
        128
    } else {
        0
    }
}

/// Whether `table` is the dye table stored at `i` in `b`, of the layout that
/// `table_dimension_logs` tells.
pub open spec fn is_dye_table_at(
    table: ColorDyeTable,
    b: Seq<u8>,
    i: int,
    endian: Endian,
    table_dimension_logs: u8,
) -> bool {
    match table {
        ColorDyeTable::LegacyColorDyeTable(d) => {
            &&& dye_table_layout(table_dimension_logs) == 0
            &&& d.rows@.len() == 16
            &&& forall|k: int| 0 <= k < 16 ==> #[trigger] d.rows@[k] == legacy_row(u16_at(b, i + 2 * k, endian))
        },
        ColorDyeTable::DawntrailColorDyeTable(d) => {
            &&& dye_table_layout(table_dimension_logs) == 1
            &&& d.rows@.len() == 32
            &&& forall|k: int| 0 <= k < 32 ==> #[trigger] d.rows@[k] == dawntrail_row(u32_at(b, i + 4 * k, endian))
        },
        ColorDyeTable::OpaqueColorDyeTable(_) => dye_table_layout(table_dimension_logs) == 2,
    }
}

/// Reads the dye table stored at `i` in `b`, of the layout that `table_dimension_logs`
/// tells, and gives it with the position after it; `None` where `b` ends first.
pub fn parse_color_dye_table(b: &[u8], i: usize, endian: Endian, table_dimension_logs: u8) -> (r:
    Option<(ColorDyeTable, usize)>)
    ensures
        r is Some <==> i + dye_table_size(table_dimension_logs) <= b@.len(),
        r matches Some((table, next)) ==> is_dye_table_at(table, b@, i as int, endian, table_dimension_logs)
            && next == i + dye_table_size(table_dimension_logs),
{
    let len = b.len();
    if table_dimension_logs == 0 {
        if i > len || len - i < 32 {
            return None;
        }
        let mut rows: Vec<LegacyColorDyeTableRow> = Vec::new();
        let mut k: usize = 0;
        while k < 16
            invariant
                k <= 16,
                i + 32 <= b@.len(),
                b@.len() <= usize::MAX,
                rows@.len() == k,
                forall|m: int| 0 <= m < k ==> #[trigger] rows@[m] == legacy_row(u16_at(b@, i + 2 * m, endian)),
            decreases 16 - k,
        {
            rows.push(LegacyColorDyeTableRow::from_data(read_u16(b, i + 2 * k, endian)));
            k = k + 1;
        }
        Some((ColorDyeTable::LegacyColorDyeTable(LegacyColorDyeTableData { rows }), i + 32))
    } else if 0x50 <= table_dimension_logs && table_dimension_logs <= 0x5F {
        if i > len || len - i < 128 {
            return None;
        }
        let mut rows: Vec<DawntrailColorDyeTableRow> = Vec::new();
        let mut k: usize = 0;
        while k < 32
            invariant
                k <= 32,
                i + 128 <= b@.len(),
                b@.len() <= usize::MAX,
                rows@.len() == k,
                forall|m: int| 0 <= m < k ==> #[trigger] rows@[m] == dawntrail_row(u32_at(b@, i + 4 * m, endian)),
            decreases 32 - k,
        {
            rows.push(DawntrailColorDyeTableRow::from_data(read_u32(b, i + 4 * k, endian)));
            k = k + 1;
        }
        Some((ColorDyeTable::DawntrailColorDyeTable(DawntrailColorDyeTableData { rows }), i + 128))
    } else {
        if i > len {
            return None;
        }
        Some((ColorDyeTable::OpaqueColorDyeTable(OpaqueColorDyeTableData {}), i))
    }
}

} // verus!

verus! {

/// A row of a color table of the older layout. Each value is the bit pattern of a 16-bit
/// float, as the file stores it.
#[derive(Debug, Clone, Copy)]
pub struct LegacyColorTableRow {
    /// The diffuse color.
    pub diffuse_color: [u16; 3],
    /// The specular strength.
    pub specular_strength: u16,
    /// The specular color.
    pub specular_color: [u16; 3],
    /// The gloss strength.
    pub gloss_strength: u16,
    /// The emissive color.
    pub emissive_color: [u16; 3],
    /// The tile set.
    pub tile_set: u16,
    /// How the material repeats.
    pub material_repeat: [u16; 2],
    /// How the material is skewed.
    pub material_skew: [u16; 2],
}

/// A row of a color table of the Dawntrail layout. Each value but the indices and the tile
/// set is the bit pattern of a 16-bit float, as the file stores it.
#[derive(Debug, Clone, Copy)]
pub struct DawntrailColorTableRow {
    /// The diffuse color.
    pub diffuse_color: [u16; 3],
    /// Not known.
    pub unknown1: u16,
    /// The specular color.
    pub specular_color: [u16; 3],
    /// Not known.
    pub unknown2: u16,
    /// The emissive color.
    pub emissive_color: [u16; 3],
    /// Not known.
    pub unknown3: u16,
    /// The sheen rate.
    pub sheen_rate: u16,
    /// The sheen tint.
    pub sheen_tint: u16,
    /// The sheen aperture.
    pub sheen_aperture: u16,
    /// Not known.
    pub unknown4: u16,
    /// The roughness.
    pub roughness: u16,
    /// Not known.
    pub unknown5: u16,
    /// The metalness.
    pub metalness: u16,
    /// The anisotropy.
    pub anisotropy: u16,
    /// Not known.
    pub unknown6: u16,
    /// The sphere mask.
    pub sphere_mask: u16,
    /// Not known.
    pub unknown7: u16,
    /// Not known.
    pub unknown8: u16,
    /// The index of the shader.
    pub shader_index: u16,
    /// The tile set.
    pub tile_set: u16,
    /// The tile alpha.
    pub tile_alpha: u16,
    /// The index of the sphere map.
    pub sphere_index: u16,
    /// How the material repeats.
    pub material_repeat: [u16; 2],
    /// How the material is skewed.
    pub material_skew: [u16; 2],
}

/// A color table of the older layout: sixteen rows.
#[derive(Debug, Clone)]
pub struct LegacyColorTableData {
    /// The rows.
    pub rows: Vec<LegacyColorTableRow>,
}

/// A color table of the Dawntrail layout: thirty-two rows.
#[derive(Debug, Clone)]
pub struct DawntrailColorTableData {
    /// The rows.
    pub rows: Vec<DawntrailColorTableRow>,
}

/// The color table of a material, in one of its layouts.
#[derive(Debug, Clone)]
pub enum ColorTable {
    /// The older layout.
    LegacyColorTable(LegacyColorTableData),
    /// The Dawntrail layout.
    DawntrailColorTable(DawntrailColorTableData),
    /// A layout that is not known.
    OpaqueColorTable(OpaqueColorTableData),
}

/// The three little-endian 16-bit values stored from `i` in `b`.
pub open spec fn h3(b: Seq<u8>, i: int) -> Seq<u16> {
    seq![u16_le(b, i), u16_le(b, i + 2), u16_le(b, i + 4)]
}

/// The two little-endian 16-bit values stored from `i` in `b`.
pub open spec fn h2(b: Seq<u8>, i: int) -> Seq<u16> {
    seq![u16_le(b, i), u16_le(b, i + 2)]
}

/// Whether `r` is the row of the older layout stored at `i` in `b`: thirty-two bytes of
/// 16-bit values, in the order of its fields.
pub open spec fn is_legacy_table_row_at(r: LegacyColorTableRow, b: Seq<u8>, i: int) -> bool {
    &&& r.diffuse_color@ == h3(b, i)
    &&& r.specular_strength == u16_le(b, i + 6)
    &&& r.specular_color@ == h3(b, i + 8)
    &&& r.gloss_strength == u16_le(b, i + 14)
    &&& r.emissive_color@ == h3(b, i + 16)
    &&& r.tile_set == u16_le(b, i + 22)
    &&& r.material_repeat@ == h2(b, i + 24)
    &&& r.material_skew@ == h2(b, i + 28)
}

/// Whether `r` is the row of the Dawntrail layout stored at `i` in `b`: sixty-four bytes of
/// 16-bit values, in the order of its fields.
pub open spec fn is_dawntrail_table_row_at(r: DawntrailColorTableRow, b: Seq<u8>, i: int) -> bool {
    &&& r.diffuse_color@ == h3(b, i)
    &&& r.unknown1 == u16_le(b, i + 6)
    &&& r.specular_color@ == h3(b, i + 8)
    &&& r.unknown2 == u16_le(b, i + 14)
    &&& r.emissive_color@ == h3(b, i + 16)
    &&& r.unknown3 == u16_le(b, i + 22)
    &&& r.sheen_rate == u16_le(b, i + 24)
    &&& r.sheen_tint == u16_le(b, i + 26)
    &&& r.sheen_aperture == u16_le(b, i + 28)
    &&& r.unknown4 == u16_le(b, i + 30)
    &&& r.roughness == u16_le(b, i + 32)
    &&& r.unknown5 == u16_le(b, i + 34)
    &&& r.metalness == u16_le(b, i + 36)
    &&& r.anisotropy == u16_le(b, i + 38)
    &&& r.unknown6 == u16_le(b, i + 40)
    &&& r.sphere_mask == u16_le(b, i + 42)
    &&& r.unknown7 == u16_le(b, i + 44)
    &&& r.unknown8 == u16_le(b, i + 46)
    &&& r.shader_index == u16_le(b, i + 48)
    &&& r.tile_set == u16_le(b, i + 50)
    &&& r.tile_alpha == u16_le(b, i + 52)
    &&& r.sphere_index == u16_le(b, i + 54)
    &&& r.material_repeat@ == h2(b, i + 56)
    &&& r.material_skew@ == h2(b, i + 60)
}

/// The three little-endian 16-bit values stored from `i`.
fn read_h3(b: &[u8], i: usize) -> (r: [u16; 3])
    requires
        i + 6 <= b@.len(),
    ensures
        r@ == h3(b@, i as int),
{
    let _len = b.len();
    [read_u16_le(b, i), read_u16_le(b, i + 2), read_u16_le(b, i + 4)]
}

/// The two little-endian 16-bit values stored from `i`.
fn read_h2(b: &[u8], i: usize) -> (r: [u16; 2])
    requires
        i + 4 <= b@.len(),
    ensures
        r@ == h2(b@, i as int),
{
    let _len = b.len();
    [read_u16_le(b, i), read_u16_le(b, i + 2)]
}

impl LegacyColorTableRow {
    /// Reads the row stored at `i`.
    fn read(b: &[u8], i: usize) -> (r: Self)
        requires
            i + 32 <= b@.len(),
        ensures
            is_legacy_table_row_at(r, b@, i as int),
    {
        let _len = b.len();
        LegacyColorTableRow {
            diffuse_color: read_h3(b, i),
            specular_strength: read_u16_le(b, i + 6),
            specular_color: read_h3(b, i + 8),
            gloss_strength: read_u16_le(b, i + 14),
            emissive_color: read_h3(b, i + 16),
            tile_set: read_u16_le(b, i + 22),
            material_repeat: read_h2(b, i + 24),
            material_skew: read_h2(b, i + 28),
        }
    }
}

impl DawntrailColorTableRow {
    /// Reads the row stored at `i`.
    fn read(b: &[u8], i: usize) -> (r: Self)
        requires
            i + 64 <= b@.len(),
        ensures
            is_dawntrail_table_row_at(r, b@, i as int),
    {
        let _len = b.len();
        DawntrailColorTableRow {
            diffuse_color: read_h3(b, i),
            unknown1: read_u16_le(b, i + 6),
            specular_color: read_h3(b, i + 8),
            unknown2: read_u16_le(b, i + 14),
            emissive_color: read_h3(b, i + 16),
            unknown3: read_u16_le(b, i + 22),
            sheen_rate: read_u16_le(b, i + 24),
            sheen_tint: read_u16_le(b, i + 26),
            sheen_aperture: read_u16_le(b, i + 28),
            unknown4: read_u16_le(b, i + 30),
            roughness: read_u16_le(b, i + 32),
            unknown5: read_u16_le(b, i + 34),
            metalness: read_u16_le(b, i + 36),
            anisotropy: read_u16_le(b, i + 38),
            unknown6: read_u16_le(b, i + 40),
            sphere_mask: read_u16_le(b, i + 42),
            unknown7: read_u16_le(b, i + 44),
            unknown8: read_u16_le(b, i + 46),
            shader_index: read_u16_le(b, i + 48),
            tile_set: read_u16_le(b, i + 50),
            tile_alpha: read_u16_le(b, i + 52),
            sphere_index: read_u16_le(b, i + 54),
            material_repeat: read_h2(b, i + 56),
            material_skew: read_h2(b, i + 60),
        }
    }
}

/// The layout of a color table that the dimension byte of a material tells: the older one
/// for zero and 0x42, the Dawntrail one for 0x53, one not known otherwise.
pub open spec fn color_table_layout(table_dimension_logs: u8) -> int {
    if table_dimension_logs == 0 || table_dimension_logs == 0x42 {
        0
    } else if table_dimension_logs == 0x53 {
        1
    } else {
        2
    }
}

/// How many bytes a color table of the layout that `table_dimension_logs` tells takes.
pub open spec fn color_table_size(table_dimension_logs: u8) -> int {
    if color_table_layout(table_dimension_logs) == 0 {
        512
    } else if color_table_layout(table_dimension_logs) == 1 {
        2048
    } else {
        0
    }
}

/// Whether `table` is the color table stored at `i` in `b`, of the layout that
/// `table_dimension_logs` tells.
pub open spec fn is_color_table_at(table: ColorTable, b: Seq<u8>, i: int, table_dimension_logs: u8) -> bool {
    match table {
        ColorTable::LegacyColorTable(d) => {
            &&& color_table_layout(table_dimension_logs) == 0
            &&& d.rows@.len() == 16
            &&& forall|k: int| 0 <= k < 16 ==> #[trigger] is_legacy_table_row_at(d.rows@[k], b, i + 32 * k)
        },
        ColorTable::DawntrailColorTable(d) => {
            &&& color_table_layout(table_dimension_logs) == 1
            &&& d.rows@.len() == 32
            &&& forall|k: int| 0 <= k < 32 ==> #[trigger] is_dawntrail_table_row_at(d.rows@[k], b, i + 64 * k)
        },
        ColorTable::OpaqueColorTable(_) => color_table_layout(table_dimension_logs) == 2,
    }
}

/// Reads the color table stored at `i` in `b`, of the layout that `table_dimension_logs`
/// tells, and gives it with the position after it; `None` where `b` ends first.
pub fn parse_color_table(b: &[u8], i: usize, table_dimension_logs: u8) -> (r: Option<(ColorTable, usize)>)
    ensures
        r is Some <==> i + color_table_size(table_dimension_logs) <= b@.len(),
        r matches Some((table, next)) ==> is_color_table_at(table, b@, i as int, table_dimension_logs)
            && next == i + color_table_size(table_dimension_logs),
{
    let len = b.len();
    if table_dimension_logs == 0 || table_dimension_logs == 0x42 {
        if i > len || len - i < 512 {
            return None;
        }
        let mut rows: Vec<LegacyColorTableRow> = Vec::new();
        let mut k: usize = 0;
        while k < 16
            invariant
                k <= 16,
                i + 512 <= b@.len(),
                b@.len() <= usize::MAX,
                rows@.len() == k,
                forall|m: int| 0 <= m < k ==> #[trigger] is_legacy_table_row_at(rows@[m], b@, i + 32 * m),
            decreases 16 - k,
        {
            rows.push(LegacyColorTableRow::read(b, i + 32 * k));
            k = k + 1;
        }
        Some((ColorTable::LegacyColorTable(LegacyColorTableData { rows }), i + 512))
    } else if table_dimension_logs == 0x53 {
        if i > len || len - i < 2048 {
            return None;
        }
        let mut rows: Vec<DawntrailColorTableRow> = Vec::new();
        let mut k: usize = 0;
        while k < 32
            invariant
                k <= 32,
                i + 2048 <= b@.len(),
                b@.len() <= usize::MAX,
                rows@.len() == k,
                forall|m: int| 0 <= m < k ==> #[trigger] is_dawntrail_table_row_at(rows@[m], b@, i + 64 * m),
            decreases 32 - k,
        {
            rows.push(DawntrailColorTableRow::read(b, i + 64 * k));
            k = k + 1;
        }
        Some((ColorTable::DawntrailColorTable(DawntrailColorTableData { rows }), i + 2048))
    } else {
        if i > len {
            return None;
        }
        Some((ColorTable::OpaqueColorTable(OpaqueColorTableData {}), i))
    }
}

} // verus!

verus! {

/// A shader constant of a material: its id, how many values it has, and its first four
/// values, each the bit pattern of a 32-bit float (zero past the values it has).
#[derive(Debug, Clone, Copy)]
pub struct Constant {
    /// The id.
    pub id: u32,
    /// How many values the constant has.
    pub num_values: u32,
    /// The values.
    pub values: [u32; 4],
}

/// A material: the shader package it uses, its textures, shader keys, constants, samplers,
/// and color and dye tables.
#[derive(Debug)]
pub struct Material {
    /// The name of the shader package.
    pub shader_package_name: String,
    /// The paths of the textures.
    pub texture_paths: Vec<String>,
    /// The shader keys.
    pub shader_keys: Vec<ShaderKey>,
    /// The shader constants.
    pub constants: Vec<Constant>,
    /// The samplers.
    pub samplers: Vec<Sampler>,
    /// The color table, if the material has one.
    pub color_table: Option<ColorTable>,
    /// The dye table, if the material has one.
    pub color_dye_table: Option<ColorDyeTable>,
}

/// Where the string table of a material starts: after the header of sixteen bytes and the
/// four-byte texture offsets, UV color sets and color sets it counts.
pub open spec fn mtrl_strings_start(b: Seq<u8>) -> int {
    16 + 4 * (b[12] as int + b[13] as int + b[14] as int)
}

/// The string table of a material: as many bytes as its header gives.
pub open spec fn mtrl_strings(b: Seq<u8>) -> Seq<u8> {
    b.subrange(mtrl_strings_start(b), mtrl_strings_start(b) + u16_le(b, 8))
}

/// Where the additional data of a material starts: after its string table.
pub open spec fn mtrl_additional_start(b: Seq<u8>) -> int {
    mtrl_strings_start(b) + u16_le(b, 8)
}

/// The table flags of a material: the first four bytes of its additional data, where it has
/// that many, else zero.
pub open spec fn mtrl_table_flags(b: Seq<u8>) -> u32 {
    if b[15] >= 4 {
        u32_le(b, mtrl_additional_start(b))
    } else {
        0
    }
}

/// The dimension byte of the tables of a material.
pub open spec fn mtrl_dims(b: Seq<u8>) -> u8 {
    (mtrl_table_flags(b) >> 4u32) as u8
}

/// Whether a material has a color table.
pub open spec fn mtrl_has_table(b: Seq<u8>) -> bool {
    mtrl_table_flags(b) & 4u32 != 0
}

/// Whether a material has a dye table.
pub open spec fn mtrl_has_dye_table(b: Seq<u8>) -> bool {
    mtrl_table_flags(b) & 8u32 != 0
}

/// Where the color table of a material starts: after its additional data, which takes at
/// least four bytes.
pub open spec fn mtrl_color_table_start(b: Seq<u8>) -> int {
    mtrl_additional_start(b) + if b[15] >= 4 {
        b[15] as int
    } else {
        4
    }
}

/// Where the dye table of a material starts: after its color table, where it has one.
pub open spec fn mtrl_dye_table_start(b: Seq<u8>) -> int {
    mtrl_color_table_start(b) + if mtrl_has_table(b) {
        color_table_size(mtrl_dims(b))
    } else {
        0
    }
}

/// Where the material header starts: after the dye table, where there is one.
pub open spec fn mtrl_header_start(b: Seq<u8>) -> int {
    mtrl_dye_table_start(b) + if mtrl_has_dye_table(b) {
        dye_table_size(mtrl_dims(b))
    } else {
        0
    }
}

/// The size of the shader value list, in bytes.
pub open spec fn mtrl_value_list_size(b: Seq<u8>) -> u16 {
    u16_le(b, mtrl_header_start(b))
}

/// The number of shader keys.
pub open spec fn mtrl_key_count(b: Seq<u8>) -> u16 {
    u16_le(b, mtrl_header_start(b) + 2)
}

/// The number of shader constants.
pub open spec fn mtrl_constant_count(b: Seq<u8>) -> u16 {
    u16_le(b, mtrl_header_start(b) + 4)
}

/// The number of samplers.
pub open spec fn mtrl_sampler_count(b: Seq<u8>) -> u16 {
    u16_le(b, mtrl_header_start(b) + 6)
}

/// Where the shader keys start: after the twelve bytes of the material header.
pub open spec fn mtrl_keys_start(b: Seq<u8>) -> int {
    mtrl_header_start(b) + 12
}

/// Where the shader constants start: after the eight bytes of each key.
pub open spec fn mtrl_constants_start(b: Seq<u8>) -> int {
    mtrl_keys_start(b) + 8 * mtrl_key_count(b)
}

/// Where the samplers start: after the eight bytes of each constant.
pub open spec fn mtrl_samplers_start(b: Seq<u8>) -> int {
    mtrl_constants_start(b) + 8 * mtrl_constant_count(b)
}

/// Where the shader values start: after the twelve bytes of each sampler.
pub open spec fn mtrl_values_start(b: Seq<u8>) -> int {
    mtrl_samplers_start(b) + 12 * mtrl_sampler_count(b)
}

/// The number of shader values: four bytes each.
pub open spec fn mtrl_value_count(b: Seq<u8>) -> int {
    (mtrl_value_list_size(b) / 4) as int
}

/// Whether the parts of a material fit in `b`, one after the other, up to its shader values.
pub open spec fn mtrl_fits(b: Seq<u8>) -> bool {
    b.len() >= 16 && mtrl_values_start(b) + 4 * mtrl_value_count(b) <= b.len()
}

/// Where the text that starts at `off` in `s` ends: the first zero byte from `off` on.
pub open spec fn cstr_end(s: Seq<u8>, off: int) -> Option<int>
    decreases s.len() - off,
{
    if off < 0 || off >= s.len() {
        None
    } else if s[off] == 0 {
        Some(off)
    } else {
        cstr_end(s, off + 1)
    }
}

/// Each byte taken as the character of the same number.
pub open spec fn latin1(s: Seq<u8>) -> Seq<char> {
    Seq::new(s.len(), |k: int| s[k] as char)
}

/// The `n` texts that follow each other from `off` in `s`, each ended by a zero byte.
pub open spec fn texts_from(s: Seq<u8>, off: int, n: nat) -> Option<Seq<Seq<char>>>
    decreases n,
{
    if n == 0 {
        Some(Seq::empty())
    } else {
        match cstr_end(s, off) {
            None => None,
            Some(e) => match texts_from(s, e + 1, (n - 1) as nat) {
                None => None,
                Some(rest) => Some(seq![latin1(s.subrange(off, e))] + rest),
            },
        }
    }
}

/// The texture paths of a material: as many texts as it has textures, from the start of its
/// string table.
pub open spec fn mtrl_texture_paths(b: Seq<u8>) -> Option<Seq<Seq<char>>> {
    texts_from(mtrl_strings(b), 0, b[12] as nat)
}

/// The name of the shader package of a material: the text at the offset its header gives in
/// its string table.
pub open spec fn mtrl_shader_package_name(b: Seq<u8>) -> Option<Seq<char>> {
    let s = mtrl_strings(b);
    match cstr_end(s, u16_le(b, 10) as int) {
        None => None,
        Some(e) => Some(latin1(s.subrange(u16_le(b, 10) as int, e))),
    }
}

/// The id of constant `k`.
pub open spec fn constant_id(b: Seq<u8>, k: int) -> u32 {
    u32_le(b, mtrl_constants_start(b) + 8 * k)
}

/// The offset of the values of constant `k`, in bytes.
pub open spec fn constant_value_offset(b: Seq<u8>, k: int) -> u16 {
    u16_le(b, mtrl_constants_start(b) + 8 * k + 4)
}

/// The size of the values of constant `k`, in bytes.
pub open spec fn constant_value_size(b: Seq<u8>, k: int) -> u16 {
    u16_le(b, mtrl_constants_start(b) + 8 * k + 6)
}

/// How many values of constant `k` are kept: as many as it has, at most four.
pub open spec fn constant_taken(b: Seq<u8>, k: int) -> int {
    if constant_value_size(b, k) / 4 < 4 {
        (constant_value_size(b, k) / 4) as int
    } else {
        4
    }
}

/// Whether the values of constant `k` that are kept are shader values.
pub open spec fn constant_ok(b: Seq<u8>, k: int) -> bool {
    constant_taken(b, k) == 0 || constant_value_offset(b, k) / 4 + constant_taken(b, k)
        <= mtrl_value_count(b)
}

/// The four values of constant `k`: the shader values from its offset on, as many as are
/// kept, then zeros.
pub open spec fn constant_values(b: Seq<u8>, k: int) -> Seq<u32> {
    Seq::new(
        4,
        |i: int|
            if i < constant_taken(b, k) {
                u32_le(b, mtrl_values_start(b) + 4 * (constant_value_offset(b, k) / 4 + i))
            } else {
                0
            },
    )
}

/// Whether `c` is constant `k` of the material `b`.
pub open spec fn is_constant_of(c: Constant, b: Seq<u8>, k: int) -> bool {
    &&& c.id == constant_id(b, k)
    &&& c.num_values == (constant_value_size(b, k) / 4) as u32
    &&& c.values@ == constant_values(b, k)
}

/// Whether the constants of a material read: where its shader value list is a whole number
/// of values, each constant's kept values are shader values.
pub open spec fn mtrl_constants_ok(b: Seq<u8>) -> bool {
    mtrl_value_list_size(b) % 4 == 0 ==> forall|k: int|
        0 <= k < mtrl_constant_count(b) ==> #[trigger] constant_ok(b, k)
}

/// Whether `b` is a material: its parts fit, its texture paths and shader package name are
/// texts ended by zero bytes within its string table, and its constants read.
pub open spec fn material_ok(b: Seq<u8>) -> bool {
    &&& mtrl_fits(b)
    &&& mtrl_texture_paths(b) is Some
    &&& mtrl_shader_package_name(b) is Some
    &&& mtrl_constants_ok(b)
}

/// The texts of strings.
pub open spec fn string_views(v: Seq<String>) -> Seq<Seq<char>> {
    v.map_values(|t: String| t@)
}

/// Whether `m` is what reading the material `b` gives: its texture paths and shader package
/// name, its shader keys and samplers as stored, each constant (none where the shader value
/// list is not a whole number of values), and its color and dye tables, where it has them.
pub open spec fn material_read_as(b: Seq<u8>, m: Material) -> bool {
    &&& Some(string_views(m.texture_paths@)) == mtrl_texture_paths(b)
    &&& Some(m.shader_package_name@) == mtrl_shader_package_name(b)
    &&& m.shader_keys@ == Seq::new(
        mtrl_key_count(b) as nat,
        |k: int|
            ShaderKey {
                category: u32_le(b, mtrl_keys_start(b) + 8 * k),
                value: u32_le(b, mtrl_keys_start(b) + 8 * k + 4),
            },
    )
    &&& m.samplers@ == Seq::new(
        mtrl_sampler_count(b) as nat,
        |k: int|
            Sampler {
                texture_usage: u32_le(b, mtrl_samplers_start(b) + 12 * k),
                flags: u32_le(b, mtrl_samplers_start(b) + 12 * k + 4),
                texture_index: b[mtrl_samplers_start(b) + 12 * k + 8],
            },
    )
    &&& if mtrl_value_list_size(b) % 4 == 0 {
        &&& m.constants@.len() == mtrl_constant_count(b)
        &&& forall|k: int| 0 <= k < m.constants@.len() ==> #[trigger] is_constant_of(m.constants@[k], b, k)
    } else {
        m.constants@.len() == 0
    }
    &&& if mtrl_has_table(b) {
        m.color_table matches Some(t) && is_color_table_at(t, b, mtrl_color_table_start(b), mtrl_dims(b))
    } else {
        m.color_table is None
    }
    &&& if mtrl_has_dye_table(b) {
        m.color_dye_table matches Some(t) && is_dye_table_at(
            t,
            b,
            mtrl_dye_table_start(b),
            Endian::Little,
            mtrl_dims(b),
        )
    } else {
        m.color_dye_table is None
    }
}

} // verus!

verus! {

/// Reads the text that starts at `off` in `s`, up to the first zero byte from there, each byte
/// taken as the character of the same number; gives it with where it ends. `None` where no
/// zero byte follows.
pub(crate) fn read_cstr(s: &Vec<u8>, off: usize) -> (r: Option<(String, usize)>)
    ensures
        match cstr_end(s@, off as int) {
            None => r is None,
            Some(e) => r matches Some((t, e2)) && e2 == e && t@ == latin1(s@.subrange(off as int, e)),
        },
        r matches Some((_, e)) ==> e < s@.len(),
{
    let len = s.len();
    if off >= len {
        return None;
    }
    let mut chars: Vec<char> = Vec::new();
    let mut j: usize = off;
    while j < len && s[j] != 0
        invariant
            off <= j <= len,
            len == s@.len(),
            chars@ == latin1(s@.subrange(off as int, j as int)),
            cstr_end(s@, off as int) == cstr_end(s@, j as int),
        decreases len - j,
    {
        chars.push(s[j] as char);
        j = j + 1;
        assert(chars@ =~= latin1(s@.subrange(off as int, j as int)));
    }
    if j == len {
        return None;
    }
    Some((string_from_chars(&chars), j))
}

/// Reads the `n` texts that follow each other from the start of `s`; see `texts_from`.
fn read_texts(s: &Vec<u8>, n: u8) -> (r: Option<Vec<String>>)
    requires
        s@.len() < 0x10000,
    ensures
        match texts_from(s@, 0, n as nat) {
            None => r is None,
            Some(t) => r matches Some(v) && string_views(v@) == t,
        },
{
    let mut acc: Vec<String> = Vec::new();
    let mut off: usize = 0;
    let mut k: u8 = 0;
    while k < n
        invariant
            k <= n,
            off <= s@.len(),
            s@.len() < 0x10000,
            texts_from(s@, 0, n as nat) == match texts_from(s@, off as int, (n - k) as nat) {
                None => None,
                Some(rest) => Some(string_views(acc@) + rest),
            },
        decreases n - k,
    {
        let ghost before = acc@;
        match read_cstr(s, off) {
            None => {
                return None;
            },
            Some((t, e)) => {
                let ghost x = t@;
                acc.push(t);
                off = e + 1;
                proof {
                    assert(string_views(acc@) =~= string_views(before).push(x));
                    assert forall|rest: Seq<Seq<char>>|
                        string_views(before) + (seq![x] + rest) == string_views(acc@) + rest by {
                        assert(string_views(before) + (seq![x] + rest) =~= string_views(acc@) + rest);
                    }
                }
            },
        }
        k = k + 1;
    }
    assert(string_views(acc@) + Seq::<Seq<char>>::empty() =~= string_views(acc@));
    Some(acc)
}

} // verus!

verus! {

/// Reads `count` shader keys stored from `start`: eight bytes each, the category then the
/// value.
fn read_shader_keys(b: &[u8], start: usize, count: u16) -> (r: Vec<ShaderKey>)
    requires
        start + 8 * count <= b@.len(),
    ensures
        r@ == Seq::new(
            count as nat,
            |k: int| ShaderKey { category: u32_le(b@, start + 8 * k), value: u32_le(b@, start + 8 * k + 4) },
        ),
{
    let _len = b.len();
    let mut r: Vec<ShaderKey> = Vec::new();
    let mut k: usize = 0;
    while k < count as usize
        invariant
            k <= count,
            start + 8 * count <= b@.len(),
            b@.len() <= usize::MAX,
            r@ == Seq::new(
                k as nat,
                |m: int| ShaderKey { category: u32_le(b@, start + 8 * m), value: u32_le(b@, start + 8 * m + 4) },
            ),
        decreases count - k,
    {
        let p = start + 8 * k;
        r.push(ShaderKey { category: read_u32_le(b, p), value: read_u32_le(b, p + 4) });
        k = k + 1;
        assert(r@ =~= Seq::new(
            k as nat,
            |m: int| ShaderKey { category: u32_le(b@, start + 8 * m), value: u32_le(b@, start + 8 * m + 4) },
        ));
    }
    r
}

/// Reads `count` samplers stored from `start`: twelve bytes each, the texture usage, the
/// flags, the texture index, then three bytes of padding.
fn read_samplers(b: &[u8], start: usize, count: u16) -> (r: Vec<Sampler>)
    requires
        start + 12 * count <= b@.len(),
    ensures
        r@ == Seq::new(
            count as nat,
            |k: int|
                Sampler {
                    texture_usage: u32_le(b@, start + 12 * k),
                    flags: u32_le(b@, start + 12 * k + 4),
                    texture_index: b@[start + 12 * k + 8],
                },
        ),
{
    let _len = b.len();
    let mut r: Vec<Sampler> = Vec::new();
    let mut k: usize = 0;
    while k < count as usize
        invariant
            k <= count,
            start + 12 * count <= b@.len(),
            b@.len() <= usize::MAX,
            r@ == Seq::new(
                k as nat,
                |m: int|
                    Sampler {
                        texture_usage: u32_le(b@, start + 12 * m),
                        flags: u32_le(b@, start + 12 * m + 4),
                        texture_index: b@[start + 12 * m + 8],
                    },
            ),
        decreases count - k,
    {
        let p = start + 12 * k;
        r.push(Sampler { texture_usage: read_u32_le(b, p), flags: read_u32_le(b, p + 4), texture_index: b[p + 8] });
        k = k + 1;
        assert(r@ =~= Seq::new(
            k as nat,
            |m: int|
                Sampler {
                    texture_usage: u32_le(b@, start + 12 * m),
                    flags: u32_le(b@, start + 12 * m + 4),
                    texture_index: b@[start + 12 * m + 8],
                },
        ));
    }
    r
}

/// Reads the constants of the material `b`, whose parts fit; `None` where the kept values of
/// one are not shader values (see `constant_ok`).
fn read_constants(b: &[u8]) -> (r: Option<Vec<Constant>>)
    requires
        mtrl_fits(b@),
    ensures
        r is Some <==> forall|k: int| 0 <= k < mtrl_constant_count(b@) ==> #[trigger] constant_ok(b@, k),
        r matches Some(v) ==> {
            &&& v@.len() == mtrl_constant_count(b@)
            &&& forall|k: int| 0 <= k < v@.len() ==> #[trigger] is_constant_of(v@[k], b@, k)
        },
{
    let len = b.len();
    let cst = mtrl_constants_start_exec(b);
    let vs = mtrl_values_start_exec(b);
    let count = read_u16_le(b, mtrl_header_start_exec(b) + 4);
    let nv = (read_u16_le(b, mtrl_header_start_exec(b)) / 4) as usize;
    assert(count == mtrl_constant_count(b@));
    assert(nv == mtrl_value_count(b@));
    let mut r: Vec<Constant> = Vec::new();
    let mut k: usize = 0;
    while k < count as usize
        invariant
            k <= count,
            count == mtrl_constant_count(b@),
            nv == mtrl_value_count(b@),
            cst == mtrl_constants_start(b@),
            vs == mtrl_values_start(b@),
            len == b@.len(),
            mtrl_fits(b@),
            r@.len() == k,
            forall|m: int| 0 <= m < k ==> #[trigger] constant_ok(b@, m),
            forall|m: int| 0 <= m < k ==> #[trigger] is_constant_of(r@[m], b@, m),
        decreases count - k,
    {
        let p = cst + 8 * k;
        let id = read_u32_le(b, p);
        let vo = read_u16_le(b, p + 4);
        let vsz = read_u16_le(b, p + 6);
        let taken: usize = if vsz / 4 < 4 {
            (vsz / 4) as usize
        } else {
            4
        };
        let first = (vo / 4) as usize;
        assert(taken == constant_taken(b@, k as int));
        if taken > 0 && first + taken > nv {
            assert(!constant_ok(b@, k as int));
            return None;
        }
        let v0 = if 0 < taken { read_u32_le(b, vs + 4 * first) } else { 0 };
        let v1 = if 1 < taken { read_u32_le(b, vs + 4 * (first + 1)) } else { 0 };
        let v2 = if 2 < taken { read_u32_le(b, vs + 4 * (first + 2)) } else { 0 };
        let v3 = if 3 < taken { read_u32_le(b, vs + 4 * (first + 3)) } else { 0 };
        let c = Constant { id, num_values: (vsz / 4) as u32, values: [v0, v1, v2, v3] };
        assert(c.values@ =~= constant_values(b@, k as int));
        assert(is_constant_of(c, b@, k as int));
        r.push(c);
        k = k + 1;
    }
    Some(r)
}

/// Where the material header starts; see `mtrl_header_start`.
fn mtrl_header_start_exec(b: &[u8]) -> (r: usize)
    requires
        mtrl_fits(b@),
    ensures
        r == mtrl_header_start(b@),
{
    let tc = b[12] as usize;
    let uv = b[13] as usize;
    let cs = b[14] as usize;
    let ads = b[15];
    let strings_start: usize = 16 + 4 * (tc + uv + cs);
    let add_start: usize = strings_start + read_u16_le(b, 8) as usize;
    let ct_start: usize = add_start + if ads >= 4 { ads as usize } else { 4 };
    let flags: u32 = if ads >= 4 { read_u32_le(b, add_start) } else { 0 };
    let dims: u8 = (flags >> 4u32) as u8;
    let ct_size: usize = if flags & 4u32 == 0 {
        0
    } else if dims == 0 || dims == 0x42 {
        512
    } else if dims == 0x53 {
        2048
    } else {
        0
    };
    let dye_start = ct_start + ct_size;
    let dye_size: usize = if flags & 8u32 == 0 {
        0
    } else if dims == 0 {
        32
    } else if 0x50 <= dims && dims <= 0x5F {
        128
    } else {
        0
    };
    dye_start + dye_size
}

/// Where the shader constants start; see `mtrl_constants_start`.
fn mtrl_constants_start_exec(b: &[u8]) -> (r: usize)
    requires
        mtrl_fits(b@),
    ensures
        r == mtrl_constants_start(b@),
{
    let mh = mtrl_header_start_exec(b);
    mh + 12 + 8 * read_u16_le(b, mh + 2) as usize
}

/// Where the shader values start; see `mtrl_values_start`.
fn mtrl_values_start_exec(b: &[u8]) -> (r: usize)
    requires
        mtrl_fits(b@),
    ensures
        r == mtrl_values_start(b@),
{
    let mh = mtrl_header_start_exec(b);
    mtrl_constants_start_exec(b) + 8 * read_u16_le(b, mh + 4) as usize + 12 * read_u16_le(b, mh + 6) as usize
}

} // verus!

verus! {

impl Material {
    /// Reads an existing material: `None` where `b` is not one (see `material_ok`), else what
    /// it holds (see `material_read_as`).
    pub fn from_existing(buffer: &[u8]) -> (r: Option<Material>)
        ensures
            r is Some <==> material_ok(buffer@),
            r matches Some(m) ==> material_read_as(buffer@, m),
    {
        let b = buffer;
        let len = b.len();
        if len < 16 {
            return None;
        }
        let tc = b[12];
        let ads = b[15];
        let sts = read_u16_le(b, 8);
        let spno = read_u16_le(b, 10);
        let strings_start: usize = 16 + 4 * (tc as usize + b[13] as usize + b[14] as usize);
        let add_start: usize = strings_start + sts as usize;
        let add_size: usize = if ads >= 4 { ads as usize } else { 4 };
        assert(strings_start == mtrl_strings_start(b@));
        assert(add_start == mtrl_additional_start(b@));
        if add_start + add_size > len {
            return None;
        }
        let flags: u32 = if ads >= 4 { read_u32_le(b, add_start) } else { 0 };
        let dims: u8 = (flags >> 4u32) as u8;
        let ct_start = add_start + add_size;
        assert(flags == mtrl_table_flags(b@));
        assert(dims == mtrl_dims(b@));
        assert(ct_start == mtrl_color_table_start(b@));
        let (color_table, dye_start) = if flags & 4u32 != 0 {
            match parse_color_table(b, ct_start, dims) {
                Some((t, n)) => (Some(t), n),
                None => {
                    return None;
                },
            }
        } else {
            (None, ct_start)
        };
        assert(dye_start == mtrl_dye_table_start(b@));
        let (color_dye_table, mh) = if flags & 8u32 != 0 {
            match parse_color_dye_table(b, dye_start, Endian::Little, dims) {
                Some((t, n)) => (Some(t), n),
                None => {
                    return None;
                },
            }
        } else {
            (None, dye_start)
        };
        assert(mh == mtrl_header_start(b@));
        if mh > len || len - mh < 12 {
            return None;
        }
        let svls = read_u16_le(b, mh);
        let kc = read_u16_le(b, mh + 2);
        let cc = read_u16_le(b, mh + 4);
        let sc = read_u16_le(b, mh + 6);
        let needed: usize = 8 * kc as usize + 8 * cc as usize + 12 * sc as usize + 4 * (svls / 4) as usize;
        if len - (mh + 12) < needed {
            return None;
        }
        assert(mtrl_fits(b@));
        let strings = bytes_in(b, strings_start, add_start);
        assert(strings@ == mtrl_strings(b@));
        let texture_paths = match read_texts(&strings, tc) {
            Some(t) => t,
            None => {
                return None;
            },
        };
        let shader_package_name = match read_cstr(&strings, spno as usize) {
            Some((t, _)) => t,
            None => {
                return None;
            },
        };
        let shader_keys = read_shader_keys(b, mh + 12, kc);
        let samplers = read_samplers(b, mh + 12 + 8 * kc as usize + 8 * cc as usize, sc);
        let constants = if svls % 4 == 0 {
            match read_constants(b) {
                Some(c) => c,
                None => {
                    return None;
                },
            }
        } else {
            Vec::new()
        };
        Some(
            Material {
                shader_package_name,
                texture_paths,
                shader_keys,
                constants,
                samplers,
                color_table,
                color_dye_table,
            },
        )
    }
}

} // verus!
