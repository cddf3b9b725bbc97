//! Where the parts of a model's data lie, and reading them.
use vstd::prelude::*;
use crate::bytes::{read_u16, read_u32, u16_at, u32_at, Endian};
use crate::model::read::{read_records, records_at, Record};
use crate::model::vertex_declarations::{
    declaration_views, declarations_at, declarations_fit, vertex_element_parser, DECLARATION_SIZE,
};
use crate::model::{
    BoneTable, BoneTableV2, BoundingBox, ElementId, Mesh, MeshLod, ModelData, ModelHeader, ShapeMesh,
    ShapeStruct, ShapeValue, Submesh, TerrainShadowMesh, TerrainShadowSubmesh,
};

verus! {

/// Whether `n` is a value of the first flags of a model.
pub open spec fn flags1_known(n: u8) -> bool {
    n == 0 || n == 0x01 || n == 0x02 || n == 0x04 || n == 0x08 || n == 0x20 || n == 0x40 || n
        == 0x80 || n == 0x10 || n == 0x5 || n == 0xE4 || n == 0xE5 || n == 0x6 || n == 0x3 || n
        == 0x60 || n == 0x7
}

/// Whether `n` is a value of the second flags of a model.
pub open spec fn flags2_known(n: u8) -> bool {
    n == 0 || n == 0x80 || n == 0x40 || n == 0x20 || n == 0x10 || n == 0x08 || n == 0x04 || n
        == 0x02 || n == 0x01 || n == 0x41 || n == 0x50
}

/// Where the model header's fields after its vertex declarations start, given where its
/// declarations start and how many there are.
pub open spec fn header_rest_start(start: int, vdc: int) -> int {
    start + DECLARATION_SIZE * vdc
}

/// Where the numbers of the model header start: after its string table.
pub open spec fn header_numbers_start(b: Seq<u8>, start: int, vdc: int, e: Endian) -> int {
    header_rest_start(start, vdc) + 8 + u32_at(b, header_rest_start(start, vdc) + 4, e)
}

/// Whether `h` is the model header stored at `start` in `b` in the byte order `e`, with `vdc`
/// vertex declarations: the declarations, the string count, two bytes of padding, the size of
/// the string table and the table, then its numbers in the order of its fields and six bytes
/// of padding.
pub open spec fn is_model_header_at(h: ModelHeader, b: Seq<u8>, start: int, vdc: int, e: Endian) -> bool {
    let q = header_rest_start(start, vdc);
    let r = header_numbers_start(b, start, vdc, e);
    &&& declarations_at(b, start, vdc as nat) == Some(declaration_views(h.vertex_declarations@))
    &&& h.string_count == u16_at(b, q, e)
    &&& h.string_size == u32_at(b, q + 4, e)
    &&& h.strings@ == b.subrange(q + 8, r)
    &&& h.radius == u32_at(b, r, e)
    &&& h.mesh_count == u16_at(b, r + 4, e)
    &&& h.attribute_count == u16_at(b, r + 6, e)
    &&& h.submesh_count == u16_at(b, r + 8, e)
    &&& h.material_count == u16_at(b, r + 10, e)
    &&& h.bone_count == u16_at(b, r + 12, e)
    &&& h.bone_table_count == u16_at(b, r + 14, e)
    &&& h.shape_count == u16_at(b, r + 16, e)
    &&& h.shape_mesh_count == u16_at(b, r + 18, e)
    &&& h.shape_value_count == u16_at(b, r + 20, e)
    &&& h.lod_count == b[r + 22]
    &&& h.flags1 == b[r + 23]
    &&& h.element_id_count == u16_at(b, r + 24, e)
    &&& h.terrain_shadow_mesh_count == b[r + 26]
    &&& h.flags2 == b[r + 27]
    &&& h.model_clip_out_of_distance == u32_at(b, r + 28, e)
    &&& h.shadow_clip_out_of_distance == u32_at(b, r + 32, e)
    &&& h.unknown4 == u16_at(b, r + 36, e)
    &&& h.terrain_shadow_submesh_count == u16_at(b, r + 38, e)
    &&& h.unknown5 == b[r + 40]
    &&& h.bg_change_material_index == b[r + 41]
    &&& h.bg_crest_change_material_index == b[r + 42]
    &&& h.unknown6 == b[r + 43]
    &&& h.unknown7 == u16_at(b, r + 44, e)
    &&& h.unknown8 == u16_at(b, r + 46, e)
    &&& h.unknown9 == u16_at(b, r + 48, e)
}

/// Whether the model header at `start` reads: its declarations read and fit their blocks,
/// its parts fit in `b`, and its flags are known values.
pub open spec fn model_header_ok(b: Seq<u8>, start: int, vdc: int, e: Endian) -> bool {
    let r = header_numbers_start(b, start, vdc, e);
    &&& declarations_at(b, start, vdc as nat) is Some
    &&& header_rest_start(start, vdc) + 8 <= b.len()
    &&& r + 56 <= b.len()
    &&& flags1_known(b[r + 23])
    &&& flags2_known(b[r + 27])
}

/// Reads the model header stored at `start` in the byte order `e`, with `vdc` vertex
/// declarations, and gives it with the position after it; `None` where it does not read (see
/// `model_header_ok`).
pub fn read_model_header(b: &[u8], start: usize, vdc: u16, e: Endian) -> (r: Option<(ModelHeader, usize)>)
    requires
        b@.len() <= isize::MAX,
        start <= b@.len(),
        declarations_fit(b@, start as int, vdc as nat),
    ensures
        r is Some <==> model_header_ok(b@, start as int, vdc as int, e),
        r matches Some((h, next)) ==> is_model_header_at(h, b@, start as int, vdc as int, e) && next
            == header_numbers_start(b@, start as int, vdc as int, e) + 56,
{
    let len = b.len();
    let (vertex_declarations, q) = match vertex_element_parser(b, start, vdc) {
        Some(x) => x,
        None => {
            return None;
        },
    };
    assert(q == header_rest_start(start as int, vdc as int));
    if q > len || len - q < 8 {
        return None;
    }
    let string_count = read_u16(b, q, e);
    let string_size = read_u32(b, q + 4, e);
    if len - (q + 8) < string_size as usize || len - (q + 8) - (string_size as usize) < 56 {
        return None;
    }
    let r = q + 8 + string_size as usize;
    assert(r == header_numbers_start(b@, start as int, vdc as int, e));
    let strings = crate::bytes::bytes_in(b, q + 8, r);
    let flags1 = b[r + 23];
    let flags2 = b[r + 27];
    if !(flags1 == 0 || flags1 == 0x01 || flags1 == 0x02 || flags1 == 0x04 || flags1 == 0x08
        || flags1 == 0x20 || flags1 == 0x40 || flags1 == 0x80 || flags1 == 0x10 || flags1 == 0x5
        || flags1 == 0xE4 || flags1 == 0xE5 || flags1 == 0x6 || flags1 == 0x3 || flags1 == 0x60
        || flags1 == 0x7) {
        return None;
    }
    if !(flags2 == 0 || flags2 == 0x80 || flags2 == 0x40 || flags2 == 0x20 || flags2 == 0x10
        || flags2 == 0x08 || flags2 == 0x04 || flags2 == 0x02 || flags2 == 0x01 || flags2 == 0x41
        || flags2 == 0x50) {
        return None;
    }
    let h = ModelHeader {
        vertex_declarations,
        string_count,
        string_size,
        strings,
        radius: read_u32(b, r, e),
        mesh_count: read_u16(b, r + 4, e),
        attribute_count: read_u16(b, r + 6, e),
        submesh_count: read_u16(b, r + 8, e),
        material_count: read_u16(b, r + 10, e),
        bone_count: read_u16(b, r + 12, e),
        bone_table_count: read_u16(b, r + 14, e),
        shape_count: read_u16(b, r + 16, e),
        shape_mesh_count: read_u16(b, r + 18, e),
        shape_value_count: read_u16(b, r + 20, e),
        lod_count: b[r + 22],
        flags1,
        element_id_count: read_u16(b, r + 24, e),
        terrain_shadow_mesh_count: b[r + 26],
        flags2,
        model_clip_out_of_distance: read_u32(b, r + 28, e),
        shadow_clip_out_of_distance: read_u32(b, r + 32, e),
        unknown4: read_u16(b, r + 36, e),
        terrain_shadow_submesh_count: read_u16(b, r + 38, e),
        unknown5: b[r + 40],
        bg_change_material_index: b[r + 41],
        bg_crest_change_material_index: b[r + 42],
        unknown6: b[r + 43],
        unknown7: read_u16(b, r + 44, e),
        unknown8: read_u16(b, r + 46, e),
        unknown9: read_u16(b, r + 48, e),
    };
    Some((h, r + 56))
}

/// The size of the bone table of the newer layout at `p`: two bytes of padding, the count,
/// the bone indices, and two bytes more where the count is even.
pub open spec fn bone_table_v2_size(b: Seq<u8>, p: int, e: Endian) -> int {
    let n = u16_at(b, p + 2, e) as int;
    4 + 2 * n + if n % 2 == 0 {
        2int
    } else {
        0int
    }
}

/// Whether `t` is the bone table of the newer layout stored at `p`.
pub open spec fn is_bone_table_v2_at(t: BoneTableV2, b: Seq<u8>, p: int, e: Endian) -> bool {
    let n = u16_at(b, p + 2, e) as int;
    &&& t.bone_count == u16_at(b, p + 2, e)
    &&& t.bone_indices@ == Seq::new(n as nat, |i: int| u16_at(b, p + 4 + 2 * i, e))
    &&& t.padding == if n % 2 == 0 {
        u16_at(b, p + 4 + 2 * n, e)
    } else {
        0
    }
}

/// Where the `k`-th of the bone tables of the newer layout stored one after the other from
/// `p` starts; with `k` their number, where they end.
pub open spec fn bone_tables_v2_end(b: Seq<u8>, p: int, k: int, e: Endian) -> int
    decreases k,
{
    if k <= 0 {
        p
    } else {
        bone_tables_v2_end(b, p, k - 1, e) + bone_table_v2_size(b, bone_tables_v2_end(b, p, k - 1, e), e)
    }
}

proof fn lemma_v2_end_mono(b: Seq<u8>, p: int, k: int, n: int, e: Endian)
    requires
        0 <= k <= n,
    ensures
        p <= bone_tables_v2_end(b, p, k, e) <= bone_tables_v2_end(b, p, n, e),
        k < n ==> bone_tables_v2_end(b, p, k, e) + bone_table_v2_size(b, bone_tables_v2_end(b, p, k, e), e)
            <= bone_tables_v2_end(b, p, n, e),
    decreases n,
{
    if n > 0 {
        if k < n {
            lemma_v2_end_mono(b, p, k, n - 1, e);
            if k < n - 1 {
                lemma_v2_end_mono(b, p, k + 1, n - 1, e);
            }
        } else {
            lemma_v2_end_mono(b, p, n - 1, n - 1, e);
        }
    }
}

/// The model version up to which bone tables have the older layout.
pub const OLD_LAYOUT_LAST_VERSION: u32 = 0x1000005;

/// Whether a model of version `v` stores its bone tables and bone map size in the newer layout.
pub open spec fn newer_layout(v: u32) -> bool {
    v > OLD_LAYOUT_LAST_VERSION
}

/// Where the levels of detail start, after the element ids.
pub open spec fn pos_lods(hp: int, h: ModelHeader) -> int {
    hp + 32 * h.element_id_count
}

/// Where the meshes start.
pub open spec fn pos_meshes(hp: int, h: ModelHeader) -> int {
    pos_lods(hp, h) + 180
}

/// Where the attribute name offsets start.
pub open spec fn pos_attributes(hp: int, h: ModelHeader) -> int {
    pos_meshes(hp, h) + 36 * h.mesh_count
}

/// Where the terrain shadow meshes start.
pub open spec fn pos_terrain_meshes(hp: int, h: ModelHeader) -> int {
    pos_attributes(hp, h) + 4 * h.attribute_count
}

/// Where the submeshes start.
pub open spec fn pos_submeshes(hp: int, h: ModelHeader) -> int {
    pos_terrain_meshes(hp, h) + 20 * h.terrain_shadow_mesh_count
}

/// Where the terrain shadow submeshes start.
pub open spec fn pos_terrain_submeshes(hp: int, h: ModelHeader) -> int {
    pos_submeshes(hp, h) + 16 * h.submesh_count
}

/// Where the material name offsets start.
pub open spec fn pos_materials(hp: int, h: ModelHeader) -> int {
    pos_terrain_submeshes(hp, h) + 12 * h.terrain_shadow_submesh_count
}

/// Where the bone name offsets start.
pub open spec fn pos_bones(hp: int, h: ModelHeader) -> int {
    pos_materials(hp, h) + 4 * h.material_count
}

/// Where the bone tables of the older layout start.
pub open spec fn pos_bone_tables(hp: int, h: ModelHeader) -> int {
    pos_bones(hp, h) + 4 * h.bone_count
}

/// Where the bone tables of the newer layout start.
pub open spec fn pos_bone_tables_v2(hp: int, h: ModelHeader, v: u32) -> int {
    pos_bone_tables(hp, h) + if newer_layout(v) {
        0
    } else {
        132 * h.bone_table_count
    }
}

/// Where the shapes start.
pub open spec fn pos_shapes(b: Seq<u8>, hp: int, h: ModelHeader, v: u32, e: Endian) -> int {
    if newer_layout(v) {
        bone_tables_v2_end(b, pos_bone_tables_v2(hp, h, v), h.bone_table_count as int, e)
    } else {
        pos_bone_tables_v2(hp, h, v)
    }
}

/// Where the shape meshes start.
pub open spec fn pos_shape_meshes(b: Seq<u8>, hp: int, h: ModelHeader, v: u32, e: Endian) -> int {
    pos_shapes(b, hp, h, v, e) + 16 * h.shape_count
}

/// Where the shape values start.
pub open spec fn pos_shape_values(b: Seq<u8>, hp: int, h: ModelHeader, v: u32, e: Endian) -> int {
    pos_shape_meshes(b, hp, h, v, e) + 12 * h.shape_mesh_count
}

/// Where the size of the submesh bone map is.
pub open spec fn pos_map_size(b: Seq<u8>, hp: int, h: ModelHeader, v: u32, e: Endian) -> int {
    pos_shape_values(b, hp, h, v, e) + 4 * h.shape_value_count
}

/// How many entries the submesh bone map has: half its size in bytes, which takes two bytes
/// in the newer layout and four in the older.
pub open spec fn map_count(b: Seq<u8>, hp: int, h: ModelHeader, v: u32, e: Endian) -> int {
    if newer_layout(v) {
        (u16_at(b, pos_map_size(b, hp, h, v, e), e) / 2) as int
    } else {
        (u32_at(b, pos_map_size(b, hp, h, v, e), e) / 2) as int
    }
}

/// Where the submesh bone map starts.
pub open spec fn pos_map(b: Seq<u8>, hp: int, h: ModelHeader, v: u32, e: Endian) -> int {
    pos_map_size(b, hp, h, v, e) + if newer_layout(v) {
        2int
    } else {
        4int
    }
}

/// Where the padding count is.
pub open spec fn pos_padding(b: Seq<u8>, hp: int, h: ModelHeader, v: u32, e: Endian) -> int {
    pos_map(b, hp, h, v, e) + 2 * map_count(b, hp, h, v, e)
}

/// Where the bounding boxes start: after the padding count and as many bytes as it gives.
pub open spec fn pos_boxes(b: Seq<u8>, hp: int, h: ModelHeader, v: u32, e: Endian) -> int {
    pos_padding(b, hp, h, v, e) + 1 + b[pos_padding(b, hp, h, v, e)]
}

/// Where the model data ends: after the four bounding boxes and each bone's box.
pub open spec fn data_end(b: Seq<u8>, hp: int, h: ModelHeader, v: u32, e: Endian) -> int {
    pos_boxes(b, hp, h, v, e) + 128 + 32 * h.bone_count
}

/// Whether the parts of the model data after the header `h` at `hp` fit in `b`.
pub open spec fn model_data_fits(b: Seq<u8>, hp: int, h: ModelHeader, v: u32, e: Endian) -> bool {
    data_end(b, hp, h, v, e) <= b.len()
}

/// Whether `d` is the model data with the header `h` whose parts after it start at `hp`:
/// each kind of record in turn, the bone tables in the layout of version `v`, the submesh
/// bone map, the padding, and the bounding boxes.
pub open spec fn is_model_data_at(d: ModelData, b: Seq<u8>, hp: int, h: ModelHeader, v: u32, e: Endian) -> bool {
    let bt2 = pos_bone_tables_v2(hp, h, v);
    &&& d.header == h
    &&& records_at(d.element_ids@, b, hp, h.element_id_count as int, e)
    &&& records_at(d.lods@, b, pos_lods(hp, h), 3, e)
    &&& records_at(d.meshes@, b, pos_meshes(hp, h), h.mesh_count as int, e)
    &&& records_at(d.attribute_name_offsets@, b, pos_attributes(hp, h), h.attribute_count as int, e)
    &&& records_at(d.terrain_shadow_meshes@, b, pos_terrain_meshes(hp, h), h.terrain_shadow_mesh_count as int, e)
    &&& records_at(d.submeshes@, b, pos_submeshes(hp, h), h.submesh_count as int, e)
    &&& records_at(d.terrain_shadow_submeshes@, b, pos_terrain_submeshes(hp, h), h.terrain_shadow_submesh_count as int, e)
    &&& records_at(d.material_name_offsets@, b, pos_materials(hp, h), h.material_count as int, e)
    &&& records_at(d.bone_name_offsets@, b, pos_bones(hp, h), h.bone_count as int, e)
    &&& if newer_layout(v) {
        &&& d.bone_tables@.len() == 0
        &&& d.bone_tables_v2@.len() == h.bone_table_count
        &&& forall|k: int| 0 <= k < h.bone_table_count ==> #[trigger] is_bone_table_v2_at(
            d.bone_tables_v2@[k],
            b,
            bone_tables_v2_end(b, bt2, k, e),
            e,
        )
        &&& d.submesh_bone_map_size == 0
        &&& d.submesh_bone_map_size_v2 == u16_at(b, pos_map_size(b, hp, h, v, e), e)
    } else {
        &&& records_at(d.bone_tables@, b, pos_bone_tables(hp, h), h.bone_table_count as int, e)
        &&& d.bone_tables_v2@.len() == 0
        &&& d.submesh_bone_map_size == u32_at(b, pos_map_size(b, hp, h, v, e), e)
        &&& d.submesh_bone_map_size_v2 == 0
    }
    &&& records_at(d.shapes@, b, pos_shapes(b, hp, h, v, e), h.shape_count as int, e)
    &&& records_at(d.shape_meshes@, b, pos_shape_meshes(b, hp, h, v, e), h.shape_mesh_count as int, e)
    &&& records_at(d.shape_values@, b, pos_shape_values(b, hp, h, v, e), h.shape_value_count as int, e)
    &&& records_at(d.submesh_bone_map@, b, pos_map(b, hp, h, v, e), map_count(b, hp, h, v, e), e)
    &&& d.padding_amount == b[pos_padding(b, hp, h, v, e)]
    &&& d.unknown_padding@ == b.subrange(pos_padding(b, hp, h, v, e) + 1, pos_boxes(b, hp, h, v, e))
    &&& BoundingBox::is_at(d.bounding_box, b, pos_boxes(b, hp, h, v, e), e)
    &&& BoundingBox::is_at(d.model_bounding_box, b, pos_boxes(b, hp, h, v, e) + 32, e)
    &&& BoundingBox::is_at(d.water_bounding_box, b, pos_boxes(b, hp, h, v, e) + 64, e)
    &&& BoundingBox::is_at(d.vertical_fog_bounding_box, b, pos_boxes(b, hp, h, v, e) + 96, e)
    &&& records_at(d.bone_bounding_boxes@, b, pos_boxes(b, hp, h, v, e) + 128, h.bone_count as int, e)
}

/// Reads `count` records stored one after the other from `p`, and gives them with the
/// position after them; `None` where they run past the end of `b`.
fn take_records<T: Record>(b: &[u8], p: usize, count: usize, e: Endian) -> (r: Option<(Vec<T>, usize)>)
    requires
        p <= b@.len(),
    ensures
        r is Some <==> p + T::record_size() * count <= b@.len(),
        r matches Some((v, next)) ==> records_at(v@, b@, p as int, count as int, e) && next == p
            + T::record_size() * count,
{
    let len = b.len();
    let size = T::size();
    let room = len - p;
    let fit = room / size;
    if count > fit {
        assert(p + size * count > len) by (nonlinear_arith)
            requires
                count > fit,
                fit == (room as int) / (size as int),
                size > 0,
                room == len - p,
        ;
        return None;
    }
    assert(size * count <= len - p) by (nonlinear_arith)
        requires
            count <= fit,
            fit == (room as int) / (size as int),
            size > 0,
            room == len - p,
    ;
    let v = read_records::<T>(b, p, count, e);
    Some((v, p + size * count))
}

/// Reads the bone table of the newer layout stored at `p`, and gives it with the position
/// after it; `None` where it runs past the end of `b`.
fn read_bone_table_v2(b: &[u8], p: usize, e: Endian) -> (r: Option<(BoneTableV2, usize)>)
    requires
        p <= b@.len(),
    ensures
        r is Some <==> p + bone_table_v2_size(b@, p as int, e) <= b@.len(),
        r matches Some((t, next)) ==> is_bone_table_v2_at(t, b@, p as int, e) && next == p
            + bone_table_v2_size(b@, p as int, e),
{
    let len = b.len();
    if len - p < 4 {
        return None;
    }
    let n = read_u16(b, p + 2, e);
    let size: usize = 4 + 2 * n as usize + if n % 2 == 0 { 2 } else { 0 };
    if len - p < size {
        return None;
    }
    let (bone_indices, _) = match take_records::<u16>(b, p + 4, n as usize, e) {
        Some(x) => x,
        None => {
            return None;
        },
    };
    assert(bone_indices@ =~= Seq::new(n as nat, |i: int| u16_at(b@, p + 4 + 2 * i, e))) by {
        assert forall|i: int| 0 <= i < n implies bone_indices@[i] == u16_at(b@, p + 4 + 2 * i, e) by {
            assert(<u16 as Record>::is_at(bone_indices@[i], b@, p + 4 + 2 * i, e));
        }
    }
    let padding = if n % 2 == 0 {
        read_u16(b, p + 4 + 2 * n as usize, e)
    } else {
        0
    };
    Some((BoneTableV2 { bone_count: n, bone_indices, padding }, p + size))
}

/// The positions of the parts of the model data follow each other.
proof fn lemma_data_positions(b: Seq<u8>, hp: int, h: ModelHeader, v: u32, e: Endian)
    ensures
        hp <= pos_bone_tables(hp, h) <= pos_bone_tables_v2(hp, h, v) <= pos_shapes(b, hp, h, v, e),
        pos_shapes(b, hp, h, v, e) <= pos_map_size(b, hp, h, v, e),
        pos_map_size(b, hp, h, v, e) < pos_map(b, hp, h, v, e) <= pos_padding(b, hp, h, v, e),
        pos_padding(b, hp, h, v, e) < pos_boxes(b, hp, h, v, e),
        pos_boxes(b, hp, h, v, e) + 128 <= data_end(b, hp, h, v, e),
{
    lemma_v2_end_mono(b, pos_bone_tables_v2(hp, h, v), 0, h.bone_table_count as int, e);
}

/// The records of the model data from the element ids to the bone name offsets.
struct FrontRecords {
    element_ids: Vec<ElementId>,
    lods: Vec<MeshLod>,
    meshes: Vec<Mesh>,
    attribute_name_offsets: Vec<u32>,
    terrain_shadow_meshes: Vec<TerrainShadowMesh>,
    submeshes: Vec<Submesh>,
    terrain_shadow_submeshes: Vec<TerrainShadowSubmesh>,
    material_name_offsets: Vec<u32>,
    bone_name_offsets: Vec<u32>,
}

/// Reads the records of the model data from the element ids, at `hp`, to the bone name
/// offsets; `None` where they run past the end of `b`.
fn read_front(b: &[u8], hp: usize, h: &ModelHeader, e: Endian) -> (r: Option<FrontRecords>)
    requires
        hp <= b@.len(),
    ensures
        r is Some <==> pos_bone_tables(hp as int, *h) <= b@.len(),
        r matches Some(f) ==> {
            &&& records_at(f.element_ids@, b@, hp as int, h.element_id_count as int, e)
            &&& records_at(f.lods@, b@, pos_lods(hp as int, *h), 3, e)
            &&& records_at(f.meshes@, b@, pos_meshes(hp as int, *h), h.mesh_count as int, e)
            &&& records_at(f.attribute_name_offsets@, b@, pos_attributes(hp as int, *h), h.attribute_count as int, e)
            &&& records_at(f.terrain_shadow_meshes@, b@, pos_terrain_meshes(hp as int, *h), h.terrain_shadow_mesh_count as int, e)
            &&& records_at(f.submeshes@, b@, pos_submeshes(hp as int, *h), h.submesh_count as int, e)
            &&& records_at(f.terrain_shadow_submeshes@, b@, pos_terrain_submeshes(hp as int, *h), h.terrain_shadow_submesh_count as int, e)
            &&& records_at(f.material_name_offsets@, b@, pos_materials(hp as int, *h), h.material_count as int, e)
            &&& records_at(f.bone_name_offsets@, b@, pos_bones(hp as int, *h), h.bone_count as int, e)
        },
{
    let (element_ids, p) = match take_records(b, hp, h.element_id_count as usize, e) {
        Some(x) => x,
        None => {
            return None;
        },
    };
    let (lods, p) = match take_records(b, p, 3, e) {
        Some(x) => x,
        None => {
            return None;
        },
    };
    let (meshes, p) = match take_records(b, p, h.mesh_count as usize, e) {
        Some(x) => x,
        None => {
            return None;
        },
    };
    let (attribute_name_offsets, p) = match take_records(b, p, h.attribute_count as usize, e) {
        Some(x) => x,
        None => {
            return None;
        },
    };
    let (terrain_shadow_meshes, p) = match take_records(b, p, h.terrain_shadow_mesh_count as usize, e) {
        Some(x) => x,
        None => {
            return None;
        },
    };
    let (submeshes, p) = match take_records(b, p, h.submesh_count as usize, e) {
        Some(x) => x,
        None => {
            return None;
        },
    };
    let (terrain_shadow_submeshes, p) = match take_records(b, p, h.terrain_shadow_submesh_count as usize, e) {
        Some(x) => x,
        None => {
            return None;
        },
    };
    let (material_name_offsets, p) = match take_records(b, p, h.material_count as usize, e) {
        Some(x) => x,
        None => {
            return None;
        },
    };
    let (bone_name_offsets, _) = match take_records(b, p, h.bone_count as usize, e) {
        Some(x) => x,
        None => {
            return None;
        },
    };
    Some(FrontRecords {
        element_ids,
        lods,
        meshes,
        attribute_name_offsets,
        terrain_shadow_meshes,
        submeshes,
        terrain_shadow_submeshes,
        material_name_offsets,
        bone_name_offsets,
    })
}

/// Reads the bone tables stored at `p`, in the layout of version `v`; `None` where they run
/// past the end of `b`.
fn read_bone_tables(b: &[u8], p: usize, count: u16, v: u32, e: Endian) -> (r: Option<(Vec<BoneTable>, Vec<BoneTableV2>, usize)>)
    requires
        p <= b@.len(),
    ensures
        r is Some <==> (if newer_layout(v) {
            bone_tables_v2_end(b@, p as int, count as int, e)
        } else {
            p + 132 * count
        }) <= b@.len(),
        r matches Some((t1, t2, next)) ==> {
            &&& next == if newer_layout(v) {
                bone_tables_v2_end(b@, p as int, count as int, e)
            } else {
                p + 132 * count
            }
            &&& if newer_layout(v) {
                &&& t1@.len() == 0
                &&& t2@.len() == count
                &&& forall|k: int| 0 <= k < count ==> #[trigger] is_bone_table_v2_at(
                    t2@[k],
                    b@,
                    bone_tables_v2_end(b@, p as int, k, e),
                    e,
                )
            } else {
                &&& records_at(t1@, b@, p as int, count as int, e)
                &&& t2@.len() == 0
            }
        },
{
    if v <= OLD_LAYOUT_LAST_VERSION {
        match take_records::<BoneTable>(b, p, count as usize, e) {
            Some((t1, next)) => Some((t1, Vec::new(), next)),
            None => None,
        }
    } else {
        proof {
            lemma_v2_end_mono(b@, p as int, 0, count as int, e);
        }
        let mut t2: Vec<BoneTableV2> = Vec::new();
        let mut q = p;
        let mut k: usize = 0;
        while k < count as usize
            invariant
                newer_layout(v),
                p <= b@.len(),
                k <= count,
                q == bone_tables_v2_end(b@, p as int, k as int, e),
                q <= b@.len(),
                t2@.len() == k,
                forall|m: int| 0 <= m < k ==> #[trigger] is_bone_table_v2_at(
                    t2@[m],
                    b@,
                    bone_tables_v2_end(b@, p as int, m, e),
                    e,
                ),
            decreases count - k,
        {
            proof {
                lemma_v2_end_mono(b@, p as int, k as int, count as int, e);
            }
            match read_bone_table_v2(b, q, e) {
                Some((t, next)) => {
                    t2.push(t);
                    q = next;
                },
                None => {
                    assert(!(bone_tables_v2_end(b@, p as int, count as int, e) <= b@.len()));
                    return None;
                },
            }
            k = k + 1;
        }
        Some((Vec::new(), t2, q))
    }
}

/// The records of the model data from the shapes to the end.
struct TailRecords {
    shapes: Vec<ShapeStruct>,
    shape_meshes: Vec<ShapeMesh>,
    shape_values: Vec<ShapeValue>,
    submesh_bone_map_size: u32,
    submesh_bone_map_size_v2: u16,
    submesh_bone_map: Vec<u16>,
    padding_amount: u8,
    unknown_padding: Vec<u8>,
    bounding_box: BoundingBox,
    model_bounding_box: BoundingBox,
    water_bounding_box: BoundingBox,
    vertical_fog_bounding_box: BoundingBox,
    bone_bounding_boxes: Vec<BoundingBox>,
    end: usize,
}

/// Reads the records of the model data from the shapes, at `p`, to the end; `None` where they
/// run past the end of `b`.
fn read_tail(b: &[u8], p: usize, h: &ModelHeader, v: u32, e: Endian, Ghost(hi): Ghost<int>) -> (r: Option<TailRecords>)
    requires
        p == pos_shapes(b@, hi, *h, v, e),
        p <= b@.len(),
    ensures
        r is Some <==> model_data_fits(b@, hi, *h, v, e),
        r matches Some(t) ==> {
            &&& records_at(t.shapes@, b@, pos_shapes(b@, hi, *h, v, e), h.shape_count as int, e)
            &&& records_at(t.shape_meshes@, b@, pos_shape_meshes(b@, hi, *h, v, e), h.shape_mesh_count as int, e)
            &&& records_at(t.shape_values@, b@, pos_shape_values(b@, hi, *h, v, e), h.shape_value_count as int, e)
            &&& t.submesh_bone_map_size == if newer_layout(v) {
                0
            } else {
                u32_at(b@, pos_map_size(b@, hi, *h, v, e), e)
            }
            &&& t.submesh_bone_map_size_v2 == if newer_layout(v) {
                u16_at(b@, pos_map_size(b@, hi, *h, v, e), e)
            } else {
                0
            }
            &&& records_at(t.submesh_bone_map@, b@, pos_map(b@, hi, *h, v, e), map_count(b@, hi, *h, v, e), e)
            &&& t.padding_amount == b@[pos_padding(b@, hi, *h, v, e)]
            &&& t.unknown_padding@ == b@.subrange(pos_padding(b@, hi, *h, v, e) + 1, pos_boxes(b@, hi, *h, v, e))
            &&& BoundingBox::is_at(t.bounding_box, b@, pos_boxes(b@, hi, *h, v, e), e)
            &&& BoundingBox::is_at(t.model_bounding_box, b@, pos_boxes(b@, hi, *h, v, e) + 32, e)
            &&& BoundingBox::is_at(t.water_bounding_box, b@, pos_boxes(b@, hi, *h, v, e) + 64, e)
            &&& BoundingBox::is_at(t.vertical_fog_bounding_box, b@, pos_boxes(b@, hi, *h, v, e) + 96, e)
            &&& records_at(t.bone_bounding_boxes@, b@, pos_boxes(b@, hi, *h, v, e) + 128, h.bone_count as int, e)
            &&& t.end == data_end(b@, hi, *h, v, e)
        },
{
    proof {
        lemma_data_positions(b@, hi, *h, v, e);
    }
    let newer = v > OLD_LAYOUT_LAST_VERSION;
    let (shapes, p) = match take_records(b, p, h.shape_count as usize, e) {
        Some(x) => x,
        None => {
            return None;
        },
    };
    let (shape_meshes, p) = match take_records(b, p, h.shape_mesh_count as usize, e) {
        Some(x) => x,
        None => {
            return None;
        },
    };
    let (shape_values, p) = match take_records(b, p, h.shape_value_count as usize, e) {
        Some(x) => x,
        None => {
            return None;
        },
    };
    assert(p == pos_map_size(b@, hi, *h, v, e));
    let len = b.len();
    let size_bytes: usize = if newer { 2 } else { 4 };
    if len - p < size_bytes {
        return None;
    }
    let (submesh_bone_map_size, submesh_bone_map_size_v2, count): (u32, u16, usize) = if newer {
        let s2 = read_u16(b, p, e);
        (0, s2, (s2 / 2) as usize)
    } else {
        let s = read_u32(b, p, e);
        (s, 0, (s / 2) as usize)
    };
    let p = p + size_bytes;
    let (submesh_bone_map, p) = match take_records(b, p, count, e) {
        Some(x) => x,
        None => {
            return None;
        },
    };
    assert(p == pos_padding(b@, hi, *h, v, e));
    if p >= len {
        return None;
    }
    let padding_amount = b[p];
    if len - (p + 1) < padding_amount as usize {
        return None;
    }
    let unknown_padding = crate::bytes::bytes_in(b, p + 1, p + 1 + padding_amount as usize);
    let p = p + 1 + padding_amount as usize;
    assert(p == pos_boxes(b@, hi, *h, v, e));
    let (boxes, p2) = match take_records::<BoundingBox>(b, p, 4, e) {
        Some(x) => x,
        None => {
            return None;
        },
    };
    let (bone_bounding_boxes, end) = match take_records(b, p2, h.bone_count as usize, e) {
        Some(x) => x,
        None => {
            return None;
        },
    };
    let bounding_box = boxes[0];
    let model_bounding_box = boxes[1];
    let water_bounding_box = boxes[2];
    let vertical_fog_bounding_box = boxes[3];
    assert(BoundingBox::is_at(boxes@[0], b@, p + 32 * 0, e));
    assert(BoundingBox::is_at(boxes@[1], b@, p + 32 * 1, e));
    assert(BoundingBox::is_at(boxes@[2], b@, p + 32 * 2, e));
    assert(BoundingBox::is_at(boxes@[3], b@, p + 32 * 3, e));
    Some(TailRecords {
        shapes,
        shape_meshes,
        shape_values,
        submesh_bone_map_size,
        submesh_bone_map_size_v2,
        submesh_bone_map,
        padding_amount,
        unknown_padding,
        bounding_box,
        model_bounding_box,
        water_bounding_box,
        vertical_fog_bounding_box,
        bone_bounding_boxes,
        end,
    })
}

/// Reads the model data whose header `h` of a model of version `v` ends at `hp`: each kind of
/// record in turn, and gives it with where it ends; `None` where its parts run past the end of
/// `b` (see `model_data_fits`).
pub fn read_model_data(b: &[u8], hp: usize, h: ModelHeader, v: u32, e: Endian) -> (r: Option<(ModelData, usize)>)
    requires
        hp <= b@.len(),
    ensures
        r is Some <==> model_data_fits(b@, hp as int, h, v, e),
        r matches Some((d, next)) ==> is_model_data_at(d, b@, hp as int, h, v, e) && next == data_end(
            b@,
            hp as int,
            h,
            v,
            e,
        ),
{
    let ghost hi = hp as int;
    proof {
        lemma_data_positions(b@, hi, h, v, e);
    }
    let len0 = b.len();
    let front = match read_front(b, hp, &h, e) {
        Some(f) => f,
        None => {
            return None;
        },
    };
    assert(pos_bone_tables(hi, h) <= len0);
    let p = hp + 32 * h.element_id_count as usize + 180 + 36 * h.mesh_count as usize + 4
        * h.attribute_count as usize + 20 * h.terrain_shadow_mesh_count as usize + 16
        * h.submesh_count as usize + 12 * h.terrain_shadow_submesh_count as usize + 4
        * h.material_count as usize + 4 * h.bone_count as usize;
    assert(p == pos_bone_tables(hi, h));
    let (bone_tables, bone_tables_v2, p) = match read_bone_tables(b, p, h.bone_table_count, v, e) {
        Some(x) => x,
        None => {
            return None;
        },
    };
    assert(p == pos_shapes(b@, hi, h, v, e));
    let tail = match read_tail(b, p, &h, v, e, Ghost(hi)) {
        Some(t) => t,
        None => {
            return None;
        },
    };
    let d = ModelData {
        header: h,
        element_ids: front.element_ids,
        lods: front.lods,
        meshes: front.meshes,
        attribute_name_offsets: front.attribute_name_offsets,
        terrain_shadow_meshes: front.terrain_shadow_meshes,
        submeshes: front.submeshes,
        terrain_shadow_submeshes: front.terrain_shadow_submeshes,
        material_name_offsets: front.material_name_offsets,
        bone_name_offsets: front.bone_name_offsets,
        bone_tables,
        bone_tables_v2,
        shapes: tail.shapes,
        shape_meshes: tail.shape_meshes,
        shape_values: tail.shape_values,
        submesh_bone_map_size: tail.submesh_bone_map_size,
        submesh_bone_map_size_v2: tail.submesh_bone_map_size_v2,
        submesh_bone_map: tail.submesh_bone_map,
        padding_amount: tail.padding_amount,
        unknown_padding: tail.unknown_padding,
        bounding_box: tail.bounding_box,
        model_bounding_box: tail.model_bounding_box,
        water_bounding_box: tail.water_bounding_box,
        vertical_fog_bounding_box: tail.vertical_fog_bounding_box,
        bone_bounding_boxes: tail.bone_bounding_boxes,
    };
    Some((d, tail.end))
}

} // verus!
