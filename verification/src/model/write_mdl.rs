//! Writing a model file: its headers and data, then the vertex streams and the indices of each
//! mesh of each level at the places the headers give.
use vstd::prelude::*;
use crate::bytes::{push_bytes, push_zeros, Endian};
use crate::common::{platform_endian, Platform};
use crate::model::file_header::{
    file_header_bytes, is_file_header_at, law_file_header_round_trip, push_u16, push_u32, u16_bytes,
    u32_bytes, MODEL_FILE_HEADER_BYTES,
};
use crate::model::vertex_declarations::{
    declaration_views, declarations_bytes, vertex_element_writer,
};
use crate::model::write::{records_bytes, write_records, zeros, Written};
use crate::model::{ModelData, ModelFileHeader, ModelHeader, Part, MDL};

verus! {

/// The numbers of a model header in the order of its fields, then six zero bytes.
pub open spec fn header_numbers_bytes(h: ModelHeader, e: Endian) -> Seq<u8> {
    u32_bytes(h.radius, e) + u16_bytes(h.mesh_count, e) + u16_bytes(h.attribute_count, e)
        + u16_bytes(h.submesh_count, e) + u16_bytes(h.material_count, e) + u16_bytes(h.bone_count, e)
        + u16_bytes(h.bone_table_count, e) + u16_bytes(h.shape_count, e) + u16_bytes(
        h.shape_mesh_count,
        e,
    ) + u16_bytes(h.shape_value_count, e) + seq![h.lod_count, h.flags1] + u16_bytes(
        h.element_id_count,
        e,
    ) + seq![h.terrain_shadow_mesh_count, h.flags2] + u32_bytes(h.model_clip_out_of_distance, e)
        + u32_bytes(h.shadow_clip_out_of_distance, e) + u16_bytes(h.unknown4, e) + u16_bytes(
        h.terrain_shadow_submesh_count,
        e,
    ) + seq![h.unknown5, h.bg_change_material_index, h.bg_crest_change_material_index, h.unknown6]
        + u16_bytes(h.unknown7, e) + u16_bytes(h.unknown8, e) + u16_bytes(h.unknown9, e) + zeros(6)
}

/// The bytes of a model header: its vertex declarations, the string count, two zero bytes,
/// the size of the string table, the table, then its numbers.
pub open spec fn model_header_bytes(h: ModelHeader, e: Endian) -> Seq<u8> {
    declarations_bytes(declaration_views(h.vertex_declarations@)) + u16_bytes(h.string_count, e)
        + zeros(2) + u32_bytes(h.string_size, e) + h.strings@ + header_numbers_bytes(h, e)
}

/// The bytes of the data of a model: the header, then each list of records in turn (see
/// `data_front_bytes` and `data_tail_bytes`).
pub open spec fn model_data_bytes(d: ModelData, e: Endian) -> Seq<u8> {
    model_header_bytes(d.header, e) + data_front_bytes(d, e) + data_tail_bytes(d, e)
}

/// The records of the data of a model from the element ids to the shape values. Both kinds of
/// bone tables are written, whatever the version.
pub open spec fn data_front_bytes(d: ModelData, e: Endian) -> Seq<u8> {
    records_bytes(d.element_ids@, e) + records_bytes(d.lods@, e) + records_bytes(d.meshes@, e)
        + records_bytes(d.attribute_name_offsets@, e) + records_bytes(d.terrain_shadow_meshes@, e)
        + records_bytes(d.submeshes@, e) + records_bytes(d.terrain_shadow_submeshes@, e)
        + records_bytes(d.material_name_offsets@, e) + records_bytes(d.bone_name_offsets@, e)
        + records_bytes(d.bone_tables@, e) + records_bytes(d.bone_tables_v2@, e) + records_bytes(
        d.shapes@,
        e,
    ) + records_bytes(d.shape_meshes@, e) + records_bytes(d.shape_values@, e)
}

/// The rest of the data of a model: both forms of the size of the submesh bone map (four
/// bytes, then two), whatever the version, the map, the padding count and padding, the four
/// bounding boxes and the bones' boxes.
pub open spec fn data_tail_bytes(d: ModelData, e: Endian) -> Seq<u8> {
    u32_bytes(d.submesh_bone_map_size, e) + u16_bytes(d.submesh_bone_map_size_v2, e) + records_bytes(
        d.submesh_bone_map@,
        e,
    ) + seq![d.padding_amount] + d.unknown_padding@ + boxes_bytes(d, e) + records_bytes(
        d.bone_bounding_boxes@,
        e,
    )
}

/// The four bounding boxes of the data of a model.
pub open spec fn boxes_bytes(d: ModelData, e: Endian) -> Seq<u8> {
    crate::model::BoundingBox::bytes_of(d.bounding_box, e) + crate::model::BoundingBox::bytes_of(
        d.model_bounding_box,
        e,
    ) + crate::model::BoundingBox::bytes_of(d.water_bounding_box, e)
        + crate::model::BoundingBox::bytes_of(d.vertical_fog_bounding_box, e)
}

/// Whether each vertex declaration of `h` has at most sixteen elements, as its block holds.
pub open spec fn declarations_writable(h: ModelHeader) -> bool {
    forall|k: int|
        0 <= k < h.vertex_declarations@.len() ==> (#[trigger] h.vertex_declarations@[k]).elements@.len()
            <= 16
}

proof fn lemma_append(o: Seq<u8>, acc: Seq<u8>, p: Seq<u8>, n: Seq<u8>)
    requires
        n == o + acc + p,
    ensures
        n == o + (acc + p),
{
    assert(n =~= o + (acc + p));
}

fn write_header_numbers(out: &mut Vec<u8>, h: &ModelHeader, e: Endian)
    ensures
        final(out)@ == old(out)@ + header_numbers_bytes(*h, e),
{
    push_u32(out, h.radius, e);
    let ghost mut acc = u32_bytes(h.radius, e);
    push_u16(out, h.mesh_count, e);
    proof { lemma_append(old(out)@, acc, u16_bytes(h.mesh_count, e), out@); acc = acc + u16_bytes(h.mesh_count, e); }
    push_u16(out, h.attribute_count, e);
    proof { lemma_append(old(out)@, acc, u16_bytes(h.attribute_count, e), out@); acc = acc + u16_bytes(h.attribute_count, e); }
    push_u16(out, h.submesh_count, e);
    proof { lemma_append(old(out)@, acc, u16_bytes(h.submesh_count, e), out@); acc = acc + u16_bytes(h.submesh_count, e); }
    push_u16(out, h.material_count, e);
    proof { lemma_append(old(out)@, acc, u16_bytes(h.material_count, e), out@); acc = acc + u16_bytes(h.material_count, e); }
    push_u16(out, h.bone_count, e);
    proof { lemma_append(old(out)@, acc, u16_bytes(h.bone_count, e), out@); acc = acc + u16_bytes(h.bone_count, e); }
    push_u16(out, h.bone_table_count, e);
    proof { lemma_append(old(out)@, acc, u16_bytes(h.bone_table_count, e), out@); acc = acc + u16_bytes(h.bone_table_count, e); }
    push_u16(out, h.shape_count, e);
    proof { lemma_append(old(out)@, acc, u16_bytes(h.shape_count, e), out@); acc = acc + u16_bytes(h.shape_count, e); }
    push_u16(out, h.shape_mesh_count, e);
    proof { lemma_append(old(out)@, acc, u16_bytes(h.shape_mesh_count, e), out@); acc = acc + u16_bytes(h.shape_mesh_count, e); }
    push_u16(out, h.shape_value_count, e);
    proof { lemma_append(old(out)@, acc, u16_bytes(h.shape_value_count, e), out@); acc = acc + u16_bytes(h.shape_value_count, e); }
    out.push(h.lod_count);
    out.push(h.flags1);
    assert(out@ =~= old(out)@ + acc + seq![h.lod_count, h.flags1]);
    proof { lemma_append(old(out)@, acc, seq![h.lod_count, h.flags1], out@); acc = acc + seq![h.lod_count, h.flags1]; }
    push_u16(out, h.element_id_count, e);
    proof { lemma_append(old(out)@, acc, u16_bytes(h.element_id_count, e), out@); acc = acc + u16_bytes(h.element_id_count, e); }
    out.push(h.terrain_shadow_mesh_count);
    out.push(h.flags2);
    assert(out@ =~= old(out)@ + acc + seq![h.terrain_shadow_mesh_count, h.flags2]);
    proof { lemma_append(old(out)@, acc, seq![h.terrain_shadow_mesh_count, h.flags2], out@); acc = acc + seq![h.terrain_shadow_mesh_count, h.flags2]; }
    push_u32(out, h.model_clip_out_of_distance, e);
    proof { lemma_append(old(out)@, acc, u32_bytes(h.model_clip_out_of_distance, e), out@); acc = acc + u32_bytes(h.model_clip_out_of_distance, e); }
    push_u32(out, h.shadow_clip_out_of_distance, e);
    proof { lemma_append(old(out)@, acc, u32_bytes(h.shadow_clip_out_of_distance, e), out@); acc = acc + u32_bytes(h.shadow_clip_out_of_distance, e); }
    push_u16(out, h.unknown4, e);
    proof { lemma_append(old(out)@, acc, u16_bytes(h.unknown4, e), out@); acc = acc + u16_bytes(h.unknown4, e); }
    push_u16(out, h.terrain_shadow_submesh_count, e);
    proof { lemma_append(old(out)@, acc, u16_bytes(h.terrain_shadow_submesh_count, e), out@); acc = acc + u16_bytes(h.terrain_shadow_submesh_count, e); }
    out.push(h.unknown5);
    out.push(h.bg_change_material_index);
    out.push(h.bg_crest_change_material_index);
    out.push(h.unknown6);
    proof {
        let piece = seq![h.unknown5, h.bg_change_material_index, h.bg_crest_change_material_index, h.unknown6];
        assert(out@ =~= old(out)@ + acc + piece);
        lemma_append(old(out)@, acc, piece, out@);
        acc = acc + piece;
    }
    push_u16(out, h.unknown7, e);
    proof { lemma_append(old(out)@, acc, u16_bytes(h.unknown7, e), out@); acc = acc + u16_bytes(h.unknown7, e); }
    push_u16(out, h.unknown8, e);
    proof { lemma_append(old(out)@, acc, u16_bytes(h.unknown8, e), out@); acc = acc + u16_bytes(h.unknown8, e); }
    push_u16(out, h.unknown9, e);
    proof { lemma_append(old(out)@, acc, u16_bytes(h.unknown9, e), out@); acc = acc + u16_bytes(h.unknown9, e); }
    push_zeros(out, 6);
    proof { lemma_append(old(out)@, acc, zeros(6), out@); acc = acc + zeros(6); }
}

fn write_model_header(out: &mut Vec<u8>, h: &ModelHeader, e: Endian)
    requires
        declarations_writable(*h),
    ensures
        final(out)@ == old(out)@ + model_header_bytes(*h, e),
{
    vertex_element_writer(out, &h.vertex_declarations);
    let ghost mut acc = declarations_bytes(declaration_views(h.vertex_declarations@));
    push_u16(out, h.string_count, e);
    proof { lemma_append(old(out)@, acc, u16_bytes(h.string_count, e), out@); acc = acc + u16_bytes(h.string_count, e); }
    push_zeros(out, 2);
    proof { lemma_append(old(out)@, acc, zeros(2), out@); acc = acc + zeros(2); }
    push_u32(out, h.string_size, e);
    proof { lemma_append(old(out)@, acc, u32_bytes(h.string_size, e), out@); acc = acc + u32_bytes(h.string_size, e); }
    push_bytes(out, h.strings.as_slice());
    proof { lemma_append(old(out)@, acc, h.strings@, out@); acc = acc + h.strings@; }
    write_header_numbers(out, h, e);
    proof { lemma_append(old(out)@, acc, header_numbers_bytes(*h, e), out@); acc = acc + header_numbers_bytes(*h, e); }
}

/// Writes the data of a model; see `model_data_bytes`.
pub fn write_model_data(out: &mut Vec<u8>, d: &ModelData, e: Endian)
    requires
        declarations_writable(d.header),
    ensures
        final(out)@ == old(out)@ + model_data_bytes(*d, e),
{
    write_model_header(out, &d.header, e);
    let ghost a = model_header_bytes(d.header, e);
    write_data_front(out, d, e);
    proof { lemma_append(old(out)@, a, data_front_bytes(*d, e), out@); }
    write_data_tail(out, d, e);
    proof { lemma_append(old(out)@, a + data_front_bytes(*d, e), data_tail_bytes(*d, e), out@); }
}

fn write_data_front(out: &mut Vec<u8>, d: &ModelData, e: Endian)
    ensures
        final(out)@ == old(out)@ + data_front_bytes(*d, e),
{
    write_records(out, &d.element_ids, e);
    let ghost mut acc = records_bytes(d.element_ids@, e);
    write_records(out, &d.lods, e);
    proof { lemma_append(old(out)@, acc, records_bytes(d.lods@, e), out@); acc = acc + records_bytes(d.lods@, e); }
    write_records(out, &d.meshes, e);
    proof { lemma_append(old(out)@, acc, records_bytes(d.meshes@, e), out@); acc = acc + records_bytes(d.meshes@, e); }
    write_records(out, &d.attribute_name_offsets, e);
    proof { lemma_append(old(out)@, acc, records_bytes(d.attribute_name_offsets@, e), out@); acc = acc + records_bytes(d.attribute_name_offsets@, e); }
    write_records(out, &d.terrain_shadow_meshes, e);
    proof { lemma_append(old(out)@, acc, records_bytes(d.terrain_shadow_meshes@, e), out@); acc = acc + records_bytes(d.terrain_shadow_meshes@, e); }
    write_records(out, &d.submeshes, e);
    proof { lemma_append(old(out)@, acc, records_bytes(d.submeshes@, e), out@); acc = acc + records_bytes(d.submeshes@, e); }
    write_records(out, &d.terrain_shadow_submeshes, e);
    proof { lemma_append(old(out)@, acc, records_bytes(d.terrain_shadow_submeshes@, e), out@); acc = acc + records_bytes(d.terrain_shadow_submeshes@, e); }
    write_records(out, &d.material_name_offsets, e);
    proof { lemma_append(old(out)@, acc, records_bytes(d.material_name_offsets@, e), out@); acc = acc + records_bytes(d.material_name_offsets@, e); }
    write_records(out, &d.bone_name_offsets, e);
    proof { lemma_append(old(out)@, acc, records_bytes(d.bone_name_offsets@, e), out@); acc = acc + records_bytes(d.bone_name_offsets@, e); }
    write_records(out, &d.bone_tables, e);
    proof { lemma_append(old(out)@, acc, records_bytes(d.bone_tables@, e), out@); acc = acc + records_bytes(d.bone_tables@, e); }
    write_records(out, &d.bone_tables_v2, e);
    proof { lemma_append(old(out)@, acc, records_bytes(d.bone_tables_v2@, e), out@); acc = acc + records_bytes(d.bone_tables_v2@, e); }
    write_records(out, &d.shapes, e);
    proof { lemma_append(old(out)@, acc, records_bytes(d.shapes@, e), out@); acc = acc + records_bytes(d.shapes@, e); }
    write_records(out, &d.shape_meshes, e);
    proof { lemma_append(old(out)@, acc, records_bytes(d.shape_meshes@, e), out@); acc = acc + records_bytes(d.shape_meshes@, e); }
    write_records(out, &d.shape_values, e);
    proof { lemma_append(old(out)@, acc, records_bytes(d.shape_values@, e), out@); acc = acc + records_bytes(d.shape_values@, e); }
}

fn write_data_tail(out: &mut Vec<u8>, d: &ModelData, e: Endian)
    ensures
        final(out)@ == old(out)@ + data_tail_bytes(*d, e),
{
    push_u32(out, d.submesh_bone_map_size, e);
    let ghost mut acc = u32_bytes(d.submesh_bone_map_size, e);
    push_u16(out, d.submesh_bone_map_size_v2, e);
    proof { lemma_append(old(out)@, acc, u16_bytes(d.submesh_bone_map_size_v2, e), out@); acc = acc + u16_bytes(d.submesh_bone_map_size_v2, e); }
    write_records(out, &d.submesh_bone_map, e);
    proof { lemma_append(old(out)@, acc, records_bytes(d.submesh_bone_map@, e), out@); acc = acc + records_bytes(d.submesh_bone_map@, e); }
    out.push(d.padding_amount);
    assert(out@ =~= old(out)@ + acc + seq![d.padding_amount]);
    proof { lemma_append(old(out)@, acc, seq![d.padding_amount], out@); acc = acc + seq![d.padding_amount]; }
    push_bytes(out, d.unknown_padding.as_slice());
    proof { lemma_append(old(out)@, acc, d.unknown_padding@, out@); acc = acc + d.unknown_padding@; }
    let ghost before_boxes = out@;
    d.bounding_box.write_to(out, e);
    d.model_bounding_box.write_to(out, e);
    d.water_bounding_box.write_to(out, e);
    d.vertical_fog_bounding_box.write_to(out, e);
    assert(out@ =~= before_boxes + boxes_bytes(*d, e));
    assert(before_boxes == old(out)@ + acc);
    proof { lemma_append(old(out)@, acc, boxes_bytes(*d, e), out@); acc = acc + boxes_bytes(*d, e); }
    write_records(out, &d.bone_bounding_boxes, e);
    proof { lemma_append(old(out)@, acc, records_bytes(d.bone_bounding_boxes@, e), out@); acc = acc + records_bytes(d.bone_bounding_boxes@, e); }
}

/// `buf` with `data` written at `pos`: what was there is overwritten, and `buf` grows, with
/// zeros between its end and `pos`, where `data` reaches past its end.
pub open spec fn place(buf: Seq<u8>, pos: int, data: Seq<u8>) -> Seq<u8> {
    let end = if pos + data.len() > buf.len() {
        pos + data.len()
    } else {
        buf.len() as int
    };
    Seq::new(
        end as nat,
        |i: int|
            if pos <= i < pos + data.len() {
                data[i - pos]
            } else if i < buf.len() {
                buf[i]
            } else {
                0u8
            },
    )
}

/// Writes `data` at `pos` in `out`; see `place`.
pub fn place_bytes(out: &mut Vec<u8>, pos: usize, data: &[u8])
    requires
        pos + data@.len() <= usize::MAX,
    ensures
        final(out)@ == place(old(out)@, pos as int, data@),
{
    let end = pos + data.len();
    if out.len() < end {
        let n = end - out.len();
        push_zeros(out, n);
    }
    let ghost grown = out@;
    let mut k: usize = 0;
    while k < data.len()
        invariant
            k <= data@.len(),
            end == pos + data@.len(),
            out@.len() == grown.len(),
            grown.len() >= end,
            grown.len() == if end > old(out)@.len() { end as int } else { old(out)@.len() as int },
            forall|i: int| 0 <= i < old(out)@.len() ==> grown[i] == old(out)@[i],
            forall|i: int| old(out)@.len() <= i < grown.len() ==> grown[i] == 0u8,
            forall|i: int|
                0 <= i < out@.len() ==> #[trigger] out@[i] == if pos <= i < pos + k {
                    data@[i - pos]
                } else {
                    grown[i]
                },
        decreases data@.len() - k,
    {
        out.set(pos + k, data[k]);
        k = k + 1;
    }
    assert(out@ =~= place(old(out)@, pos as int, data@));
}

/// Where vertex stream `s` of part `p` of level `l` goes: at the level's vertex data, at the
/// offset its mesh gives the stream.
pub open spec fn stream_pos(m: MDL, l: int, p: Part, s: int) -> int {
    m.model_data.lods@[l].vertex_data_offset + m.model_data.meshes@[p.mesh_index as int].vertex_buffer_offsets@[s]
}

/// Where the indices of part `p` of level `l` go: at the level's index offset, two bytes for
/// each index before its mesh's first.
pub open spec fn index_pos(m: MDL, l: int, p: Part) -> int {
    m.file_header.index_offsets@[l] + 2 * m.model_data.meshes@[p.mesh_index as int].start_index
}

/// How indices are written: each as two little-endian bytes.
pub open spec fn indices_bytes(p: Part) -> Seq<u8> {
    records_bytes(p.indices@, Endian::Little)
}

/// `buf` with the first `n` vertex streams of part `p` of level `l` written in turn.
pub open spec fn streams_placed(buf: Seq<u8>, m: MDL, l: int, p: Part, n: int) -> Seq<u8>
    decreases n,
{
    if n <= 0 {
        buf
    } else {
        place(streams_placed(buf, m, l, p, n - 1), stream_pos(m, l, p, n - 1), p.vertex_streams@[n - 1]@)
    }
}

/// `buf` with part `p` of level `l` written: its vertex streams, then its indices.
pub open spec fn part_placed(buf: Seq<u8>, m: MDL, l: int, p: Part) -> Seq<u8> {
    place(streams_placed(buf, m, l, p, p.vertex_streams@.len() as int), index_pos(m, l, p), indices_bytes(p))
}

/// `buf` with the first `n` parts of level `l` written in turn.
pub open spec fn parts_placed(buf: Seq<u8>, m: MDL, l: int, n: int) -> Seq<u8>
    decreases n,
{
    if n <= 0 {
        buf
    } else {
        part_placed(parts_placed(buf, m, l, n - 1), m, l, m.lods@[l].parts@[n - 1])
    }
}

/// `buf` with the parts of the first `n` levels written in turn.
pub open spec fn lods_placed(buf: Seq<u8>, m: MDL, n: int) -> Seq<u8>
    decreases n,
{
    if n <= 0 {
        buf
    } else {
        let b = lods_placed(buf, m, n - 1);
        parts_placed(b, m, n - 1, m.lods@[n - 1].parts@.len() as int)
    }
}

/// The bytes of a model file: the file header and the data, with the vertex streams and
/// indices of each part of each level written over them at their places.
pub open spec fn mdl_bytes(m: MDL, e: Endian) -> Seq<u8> {
    lods_placed(file_header_bytes(m.file_header, e) + model_data_bytes(m.model_data, e), m, m.lods@.len() as int)
}

/// Whether part `p` of level `l` can be written: its mesh exists, it has at most three
/// vertex streams, and where it has any its level has vertex data; the places of its streams
/// and indices are 32-bit numbers, and each ends within the address space.
pub open spec fn part_writable(m: MDL, l: int, p: Part) -> bool {
    &&& (p.mesh_index as int) < m.model_data.meshes@.len()
    &&& p.vertex_streams@.len() <= 3
    &&& p.vertex_streams@.len() > 0 ==> l < m.model_data.lods@.len()
    &&& forall|s: int|
        0 <= s < p.vertex_streams@.len() ==> stream_pos(m, l, p, s) <= u32::MAX && #[trigger] stream_pos(
            m,
            l,
            p,
            s,
        ) + p.vertex_streams@[s]@.len() <= usize::MAX
    &&& index_pos(m, l, p) <= u32::MAX
    &&& index_pos(m, l, p) + 2 * p.indices@.len() <= usize::MAX
}

/// Whether a model can be written: its vertex declarations fit their blocks, it has at most
/// three levels, and each part of each can be written.
pub open spec fn mdl_writable(m: MDL) -> bool {
    &&& declarations_writable(m.model_data.header)
    &&& m.lods@.len() <= 3
    &&& forall|l: int, k: int|
        0 <= l < m.lods@.len() && 0 <= k < m.lods@[l].parts@.len() ==> part_writable(
            m,
            l,
            #[trigger] m.lods@[l].parts@[k],
        )
}

/// Whether `b` keeps the first `n` bytes of `a` and is no shorter.
pub open spec fn keeps(a: Seq<u8>, b: Seq<u8>, n: int) -> bool {
    &&& b.len() >= a.len()
    &&& forall|i: int| 0 <= i < n ==> #[trigger] b[i] == a[i]
}

/// Whether every vertex stream and every index list of `m` is written at or after `n`.
pub open spec fn placed_after(m: MDL, n: int) -> bool {
    forall|l: int, k: int|
        0 <= l < m.lods@.len() && 0 <= k < m.lods@[l].parts@.len() ==> {
            let p = #[trigger] m.lods@[l].parts@[k];
            &&& index_pos(m, l, p) >= n
            &&& forall|s: int| 0 <= s < p.vertex_streams@.len() ==> #[trigger] stream_pos(m, l, p, s) >= n
        }
}

proof fn lemma_place_keeps(buf: Seq<u8>, pos: int, data: Seq<u8>, n: int)
    requires
        0 <= n <= buf.len(),
        n <= pos,
    ensures
        keeps(buf, place(buf, pos, data), n),
{
}

proof fn lemma_streams_keep(buf: Seq<u8>, m: MDL, l: int, p: Part, s: int, n: int)
    requires
        0 <= n <= buf.len(),
        s <= p.vertex_streams@.len(),
        forall|j: int| 0 <= j < p.vertex_streams@.len() ==> #[trigger] stream_pos(m, l, p, j) >= n,
    ensures
        keeps(buf, streams_placed(buf, m, l, p, s), n),
    decreases s,
{
    if s > 0 {
        lemma_streams_keep(buf, m, l, p, s - 1, n);
        let prev = streams_placed(buf, m, l, p, s - 1);
        assert(stream_pos(m, l, p, s - 1) >= n);
        lemma_place_keeps(prev, stream_pos(m, l, p, s - 1), p.vertex_streams@[s - 1]@, n);
    }
}

proof fn lemma_parts_keep(buf: Seq<u8>, m: MDL, l: int, k: int, n: int)
    requires
        0 <= n <= buf.len(),
        0 <= l < m.lods@.len(),
        k <= m.lods@[l].parts@.len(),
        placed_after(m, n),
    ensures
        keeps(buf, parts_placed(buf, m, l, k), n),
    decreases k,
{
    if k > 0 {
        lemma_parts_keep(buf, m, l, k - 1, n);
        let prev = parts_placed(buf, m, l, k - 1);
        let p = m.lods@[l].parts@[k - 1];
        assert(index_pos(m, l, p) >= n);
        lemma_streams_keep(prev, m, l, p, p.vertex_streams@.len() as int, n);
        let streamed = streams_placed(prev, m, l, p, p.vertex_streams@.len() as int);
        lemma_place_keeps(streamed, index_pos(m, l, p), indices_bytes(p), n);
    }
}

pub(crate) proof fn lemma_lods_keep(buf: Seq<u8>, m: MDL, count: int, n: int)
    requires
        0 <= n <= buf.len(),
        count <= m.lods@.len(),
        placed_after(m, n),
    ensures
        keeps(buf, lods_placed(buf, m, count), n),
    decreases count,
{
    if count > 0 {
        lemma_lods_keep(buf, m, count - 1, n);
        let prev = lods_placed(buf, m, count - 1);
        lemma_parts_keep(prev, m, count - 1, m.lods@[count - 1].parts@.len() as int, n);
    }
}

/// The file header of a model as written reads back as the model's file header, where no
/// vertex stream or index list is written over it.
pub proof fn law_written_file_header_reads_back(m: MDL, e: Endian)
    requires
        placed_after(m, MODEL_FILE_HEADER_BYTES as int),
    ensures
        is_file_header_at(m.file_header, mdl_bytes(m, e), e),
{
    let base = file_header_bytes(m.file_header, e) + model_data_bytes(m.model_data, e);
    law_file_header_round_trip(m.file_header, e);
    lemma_lods_keep(base, m, m.lods@.len() as int, MODEL_FILE_HEADER_BYTES as int);
    let b = mdl_bytes(m, e);
    let h = file_header_bytes(m.file_header, e);
    assert forall|i: int| 0 <= i < 68 implies b[i] == h[i] by {
        assert(b[i] == base[i]);
    }
    assert(b.subrange(0, 68) =~= h);
    lemma_header_prefix(h, b, m.file_header, e);
}

proof fn lemma_header_prefix(h: Seq<u8>, b: Seq<u8>, fh: ModelFileHeader, e: Endian)
    requires
        h.len() == 68,
        b.len() >= 68,
        b.subrange(0, 68) == h,
        is_file_header_at(fh, h, e),
    ensures
        is_file_header_at(fh, b, e),
{
    assert forall|i: int| 0 <= i < 68 implies b[i] == h[i] by {
        assert(b.subrange(0, 68)[i] == b[i]);
    }
}

proof fn lemma_indices_len(v: Seq<u16>)
    ensures
        records_bytes(v, Endian::Little).len() == 2 * v.len(),
    decreases v.len(),
{
    if v.len() > 0 {
        lemma_indices_len(v.drop_last());
        crate::bytes::lemma_u16_le(v.last());
    }
}

fn write_part(out: &mut Vec<u8>, m: &MDL, l: usize, p: &Part)
    requires
        l < 3,
        part_writable(*m, l as int, *p),
    ensures
        final(out)@ == part_placed(old(out)@, *m, l as int, *p),
{
    let mi = p.mesh_index as usize;
    let mut s: usize = 0;
    while s < p.vertex_streams.len()
        invariant
            s <= p.vertex_streams@.len(),
            l < 3,
            mi == p.mesh_index,
            part_writable(*m, l as int, *p),
            out@ == streams_placed(old(out)@, *m, l as int, *p, s as int),
        decreases p.vertex_streams@.len() - s,
    {
        assert(stream_pos(*m, l as int, *p, s as int) <= u32::MAX);
        let at = m.model_data.lods[l].vertex_data_offset as usize
            + m.model_data.meshes[mi].vertex_buffer_offsets[s] as usize;
        place_bytes(out, at, p.vertex_streams[s].as_slice());
        s = s + 1;
    }
    let mut ix: Vec<u8> = Vec::new();
    write_records(&mut ix, &p.indices, Endian::Little);
    proof {
        lemma_indices_len(p.indices@);
    }
    let at = m.file_header.index_offsets[l] as usize + 2 * m.model_data.meshes[mi].start_index as usize;
    place_bytes(out, at, ix.as_slice());
}

impl MDL {
    /// Writes the model for `platform`: its file header and data (see `model_data_bytes`),
    /// then the vertex streams and indices of each part of each level at their places (see
    /// `mdl_bytes`). The vertex streams are written as they are held; encoding vertices into
    /// them is float work and is done by the caller.
    pub fn write_to_buffer(&self, platform: Platform) -> (r: Option<Vec<u8>>)
        requires
            mdl_writable(*self),
        ensures
            r matches Some(b) && b@ == mdl_bytes(*self, platform_endian(platform)),
    {
        let e = platform.endianness();
        let mut out = self.file_header.write(e);
        write_model_data(&mut out, &self.model_data, e);
        let ghost base = out@;
        let mut l: usize = 0;
        while l < self.lods.len()
            invariant
                l <= self.lods@.len(),
                mdl_writable(*self),
                out@ == lods_placed(base, *self, l as int),
            decreases self.lods@.len() - l,
        {
            let ghost start = out@;
            let mut k: usize = 0;
            while k < self.lods[l].parts.len()
                invariant
                    l < self.lods@.len(),
                    k <= self.lods@[l as int].parts@.len(),
                    mdl_writable(*self),
                    out@ == parts_placed(start, *self, l as int, k as int),
                decreases self.lods@[l as int].parts@.len() - k,
            {
                assert(part_writable(*self, l as int, self.lods@[l as int].parts@[k as int]));
                write_part(&mut out, self, l, &self.lods[l].parts[k]);
                k = k + 1;
            }
            l = l + 1;
        }
        Some(out)
    }
}

} // verus!
