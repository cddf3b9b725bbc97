//! Reading a model file: its headers, its data, the names of its bones and materials, and
//! the indices, submeshes and vertex streams of the meshes of each level of detail.
use vstd::prelude::*;
use crate::bytes::{u16_at, Endian};
use crate::common::{platform_endian, Platform};
use crate::model::data::{
    header_numbers_start, is_model_data_at, is_model_header_at, model_data_fits, model_header_ok,
    read_model_data, read_model_header,
};
use crate::model::file_header::{is_file_header_at, MODEL_FILE_HEADER_BYTES};
use crate::model::read::{records_at, take_u16s};
use crate::model::vertex_declarations::{declaration_views, declarations_at, declarations_fit};
use crate::model::{Lod, ModelData, ModelFileHeader, ModelHeader, Part, SubMesh, MDL};
use crate::mtrl::{cstr_end, latin1, read_cstr};

verus! {

/// Whether each offset names a text ended by a zero byte within `strings`.
pub open spec fn names_ok(strings: Seq<u8>, offsets: Seq<u32>) -> bool {
    forall|k: int| 0 <= k < offsets.len() ==> #[trigger] cstr_end(strings, offsets[k] as int) is Some
}

/// The text at `off` in `strings`, up to its zero byte.
pub open spec fn name_at(strings: Seq<u8>, off: int) -> Seq<char> {
    latin1(strings.subrange(off, cstr_end(strings, off)->0))
}

/// The texts that `offsets` name in `strings`.
pub open spec fn names_at(strings: Seq<u8>, offsets: Seq<u32>) -> Seq<Seq<char>> {
    Seq::new(offsets.len(), |k: int| name_at(strings, offsets[k] as int))
}

/// Reads the texts that `offsets` name in `strings`; `None` where one has no ending zero byte.
fn read_names(strings: &Vec<u8>, offsets: &Vec<u32>) -> (r: Option<Vec<String>>)
    ensures
        r is Some <==> names_ok(strings@, offsets@),
        r matches Some(v) ==> crate::mtrl::string_views(v@) == names_at(strings@, offsets@),
{
    let mut out: Vec<String> = Vec::new();
    let mut k: usize = 0;
    while k < offsets.len()
        invariant
            k <= offsets@.len(),
            out@.len() == k,
            forall|m: int| 0 <= m < k ==> cstr_end(strings@, #[trigger] offsets@[m] as int) is Some,
            forall|m: int| 0 <= m < k ==> (#[trigger] out@[m])@ == name_at(strings@, offsets@[m] as int),
        decreases offsets@.len() - k,
    {
        match read_cstr(strings, offsets[k] as usize) {
            Some((t, _)) => {
                out.push(t);
            },
            None => {
                return None;
            },
        }
        k = k + 1;
    }
    assert(crate::mtrl::string_views(out@) =~= names_at(strings@, offsets@));
    Some(out)
}

/// How many vertex streams of a mesh are read: at most three.
pub open spec fn streams_read(n: u8) -> int {
    if n < 3 {
        n as int
    } else {
        3
    }
}

/// Where the indices of mesh `j` in level `i` start: at the level's index offset, two bytes for
/// each index before the mesh's first.
pub open spec fn index_start(fh: ModelFileHeader, d: ModelData, i: int, j: int) -> int {
    fh.index_offsets@[i] + 2 * d.meshes@[j].start_index
}

/// Where vertex stream `s` of mesh `j` in level `i` starts.
pub open spec fn stream_start(d: ModelData, i: int, j: int, s: int) -> int {
    d.lods@[i].vertex_data_offset + d.meshes@[j].vertex_buffer_offsets@[s]
}

/// How many bytes vertex stream `s` of mesh `j` takes.
pub open spec fn stream_size(d: ModelData, j: int, s: int) -> int {
    d.meshes@[j].vertex_count * d.meshes@[j].vertex_buffer_strides@[s]
}

/// Whether mesh `j` of level `i` reads: it is a mesh with a vertex declaration, its indices,
/// submeshes and first three vertex streams lie within the model.
pub open spec fn part_ok(b: Seq<u8>, fh: ModelFileHeader, d: ModelData, i: int, j: int) -> bool {
    &&& 0 <= j < d.meshes@.len()
    &&& j < d.header.vertex_declarations@.len()
    &&& index_start(fh, d, i, j) + 2 * d.meshes@[j].index_count <= b.len()
    &&& d.meshes@[j].submesh_index + d.meshes@[j].submesh_count <= d.submeshes@.len()
    &&& forall|s: int| 0 <= s < streams_read(d.meshes@[j].vertex_stream_count) ==> #[trigger] stream_start(d, i, j, s)
        + stream_size(d, j, s) <= b.len()
}

/// Whether `p` is mesh `j` of level `i` as read: its material, its indices, its submeshes,
/// and the bytes and stride of its first three vertex streams. Its vertices and shapes, which
/// hold floats, are left empty.
pub open spec fn is_part_at(p: Part, b: Seq<u8>, e: Endian, fh: ModelFileHeader, d: ModelData, i: int, j: int) -> bool {
    let m = d.meshes@[j];
    &&& p.mesh_index == j
    &&& p.vertices@.len() == 0
    &&& p.shapes@.len() == 0
    &&& p.material_index == m.material_index
    &&& p.indices@ == Seq::new(m.index_count as nat, |k: int| u16_at(b, index_start(fh, d, i, j) + 2 * k, e))
    &&& p.submeshes@ == Seq::new(
        m.submesh_count as nat,
        |k: int|
            SubMesh {
                submesh_index: (m.submesh_index + k) as usize,
                index_count: d.submeshes@[m.submesh_index + k].index_count,
                index_offset: d.submeshes@[m.submesh_index + k].index_offset,
            },
    )
    &&& p.vertex_streams@.len() == streams_read(m.vertex_stream_count)
    &&& p.vertex_stream_strides@.len() == streams_read(m.vertex_stream_count)
    &&& forall|s: int|
        0 <= s < streams_read(m.vertex_stream_count) ==> (#[trigger] p.vertex_streams@[s])@ == b.subrange(
            stream_start(d, i, j, s),
            stream_start(d, i, j, s) + stream_size(d, j, s),
        ) && p.vertex_stream_strides@[s] == m.vertex_buffer_strides@[s] as usize
}

/// Reads mesh `j` of level `i`; `None` where it does not read (see `part_ok`).
fn read_part(b: &[u8], e: Endian, fh: &ModelFileHeader, d: &ModelData, i: usize, j: usize) -> (r: Option<Part>)
    requires
        i < 3,
        d.meshes@.len() <= 0xffff,
        d.lods@.len() == 3,
    ensures
        r is Some <==> part_ok(b@, *fh, *d, i as int, j as int),
        r matches Some(p) ==> is_part_at(p, b@, e, *fh, *d, i as int, j as int),
{
    let len = b.len();
    let jj = j;
    if jj >= d.meshes.len() || jj >= d.header.vertex_declarations.len() {
        return None;
    }
    let m = d.meshes[jj];
    let start: u64 = fh.index_offsets[i] as u64 + 2 * m.start_index as u64;
    if start > len as u64 || (len as u64 - start) < 2 * m.index_count as u64 {
        return None;
    }
    let indices = take_u16s(b, start as usize, m.index_count as usize, e);
    assert(start == index_start(*fh, *d, i as int, jj as int));
    if m.submesh_index as usize + m.submesh_count as usize > d.submeshes.len() {
        return None;
    }
    let mut submeshes: Vec<SubMesh> = Vec::new();
    let mut k: usize = 0;
    while k < m.submesh_count as usize
        invariant
            k <= m.submesh_count,
            m.submesh_index + m.submesh_count <= d.submeshes@.len(),
            submeshes@ == Seq::new(
                k as nat,
                |t: int|
                    SubMesh {
                        submesh_index: (m.submesh_index + t) as usize,
                        index_count: d.submeshes@[m.submesh_index + t].index_count,
                        index_offset: d.submeshes@[m.submesh_index + t].index_offset,
                    },
            ),
        decreases m.submesh_count - k,
    {
        let si = m.submesh_index as usize + k;
        let sm = d.submeshes[si];
        submeshes.push(SubMesh { submesh_index: si, index_count: sm.index_count, index_offset: sm.index_offset });
        k = k + 1;
        assert(submeshes@ =~= Seq::new(
            k as nat,
            |t: int|
                SubMesh {
                    submesh_index: (m.submesh_index + t) as usize,
                    index_count: d.submeshes@[m.submesh_index + t].index_count,
                    index_offset: d.submeshes@[m.submesh_index + t].index_offset,
                },
        ));
    }
    let n: usize = if m.vertex_stream_count < 3 { m.vertex_stream_count as usize } else { 3 };
    let mut vertex_streams: Vec<Vec<u8>> = Vec::new();
    let mut vertex_stream_strides: Vec<usize> = Vec::new();
    let mut s: usize = 0;
    while s < n
        invariant
            s <= n,
            n == streams_read(m.vertex_stream_count),
            jj == j,
            jj < d.meshes@.len(),
            jj < d.header.vertex_declarations@.len(),
            m == d.meshes@[jj as int],
            index_start(*fh, *d, i as int, jj as int) + 2 * m.index_count <= b@.len(),
            m.submesh_index + m.submesh_count <= d.submeshes@.len(),
            indices@ == Seq::new(m.index_count as nat, |k: int| u16_at(b@, index_start(*fh, *d, i as int, jj as int) + 2 * k, e)),
            submeshes@ == Seq::new(
                m.submesh_count as nat,
                |t: int|
                    SubMesh {
                        submesh_index: (m.submesh_index + t) as usize,
                        index_count: d.submeshes@[m.submesh_index + t].index_count,
                        index_offset: d.submeshes@[m.submesh_index + t].index_offset,
                    },
            ),
            i < 3,
            d.lods@.len() == 3,
            len == b@.len(),
            vertex_streams@.len() == s,
            vertex_stream_strides@.len() == s,
            forall|t: int| 0 <= t < s ==> #[trigger] stream_start(*d, i as int, jj as int, t) + stream_size(*d, jj as int, t) <= b@.len(),
            forall|t: int|
                0 <= t < s ==> (#[trigger] vertex_streams@[t])@ == b@.subrange(
                    stream_start(*d, i as int, jj as int, t),
                    stream_start(*d, i as int, jj as int, t) + stream_size(*d, jj as int, t),
                ) && vertex_stream_strides@[t] == m.vertex_buffer_strides@[t] as usize,
        decreases n - s,
    {
        let stride = m.vertex_buffer_strides[s];
        let base: u64 = d.lods[i].vertex_data_offset as u64 + m.vertex_buffer_offsets[s] as u64;
        assert((m.vertex_count as u64) * (stride as u64) <= 65535 * 255) by (nonlinear_arith)
            requires
                m.vertex_count <= 65535,
                stride <= 255,
        ;
        let size: u64 = m.vertex_count as u64 * stride as u64;
        assert(base == stream_start(*d, i as int, jj as int, s as int));
        assert(size == stream_size(*d, jj as int, s as int));
        if base > len as u64 || (len as u64 - base) < size {
            assert(!(stream_start(*d, i as int, jj as int, s as int) + stream_size(*d, jj as int, s as int) <= b@.len()));
            return None;
        }
        let bytes = crate::bytes::bytes_in(b, base as usize, (base + size) as usize);
        vertex_streams.push(bytes);
        vertex_stream_strides.push(stride as usize);
        s = s + 1;
    }
    let ghost vs = vertex_streams@;
    let p = Part {
            mesh_index: jj as u16,
            vertices: Vec::new(),
            vertex_streams,
            vertex_stream_strides,
            indices,
            material_index: m.material_index,
            submeshes,
            shapes: Vec::new(),
        };
    assert(p.mesh_index == jj);
    assert(p.material_index == m.material_index);
    assert(p.indices@ == Seq::new(m.index_count as nat, |k: int| u16_at(b@, index_start(*fh, *d, i as int, jj as int) + 2 * k, e)));
    assert(p.vertex_streams@.len() == streams_read(m.vertex_stream_count));
    assert(part_ok(b@, *fh, *d, i as int, jj as int));
    assert(p.vertices@.len() == 0);
    assert(p.shapes@.len() == 0);
    assert(p.submeshes@ == Seq::new(
        m.submesh_count as nat,
        |k: int|
            SubMesh {
                submesh_index: (m.submesh_index + k) as usize,
                index_count: d.submeshes@[m.submesh_index + k].index_count,
                index_offset: d.submeshes@[m.submesh_index + k].index_offset,
            },
    ));
    assert(p.vertex_stream_strides@.len() == streams_read(m.vertex_stream_count));
    assert forall|t: int|
        0 <= t < streams_read(m.vertex_stream_count) implies (#[trigger] p.vertex_streams@[t])@ == b@.subrange(
            stream_start(*d, i as int, jj as int, t),
            stream_start(*d, i as int, jj as int, t) + stream_size(*d, jj as int, t),
        ) && p.vertex_stream_strides@[t] == m.vertex_buffer_strides@[t] as usize by {
        assert(p.vertex_streams@[t] == vs[t]);
    }
    assert(is_part_at(p, b@, e, *fh, *d, i as int, jj as int));
    Some(p)
}

/// The model header as far as the numbers the layout of the data depends on: its numbers as
/// stored in `b` in the byte order `e`.
pub open spec fn header_of(b: Seq<u8>, e: Endian) -> ModelHeader {
    let r = header_numbers_start(b, MODEL_FILE_HEADER_BYTES as int, u16_at(b, 12, e) as int, e);
    ModelHeader {
        vertex_declarations: vstd::pervasive::arbitrary(),
        string_count: u16_at(b, r, e),
        string_size: crate::bytes::u32_at(
            b,
            crate::model::data::header_rest_start(MODEL_FILE_HEADER_BYTES as int, u16_at(b, 12, e) as int) + 4,
            e,
        ),
        strings: vstd::pervasive::arbitrary(),
        radius: crate::bytes::u32_at(b, r, e),
        mesh_count: u16_at(b, r + 4, e),
        attribute_count: u16_at(b, r + 6, e),
        submesh_count: u16_at(b, r + 8, e),
        material_count: u16_at(b, r + 10, e),
        bone_count: u16_at(b, r + 12, e),
        bone_table_count: u16_at(b, r + 14, e),
        shape_count: u16_at(b, r + 16, e),
        shape_mesh_count: u16_at(b, r + 18, e),
        shape_value_count: u16_at(b, r + 20, e),
        lod_count: b[r + 22],
        flags1: b[r + 23],
        element_id_count: u16_at(b, r + 24, e),
        terrain_shadow_mesh_count: b[r + 26],
        flags2: b[r + 27],
        model_clip_out_of_distance: 0,
        shadow_clip_out_of_distance: 0,
        unknown4: 0,
        terrain_shadow_submesh_count: u16_at(b, r + 38, e),
        unknown5: 0,
        bg_change_material_index: 0,
        bg_crest_change_material_index: 0,
        unknown6: 0,
        unknown7: 0,
        unknown8: 0,
        unknown9: 0,
    }
}

/// Where the parts of the model data after its header start.
pub open spec fn mdl_hp(b: Seq<u8>, e: Endian) -> int {
    header_numbers_start(b, MODEL_FILE_HEADER_BYTES as int, u16_at(b, 12, e) as int, e) + 56
}

/// The string table of the model.
pub open spec fn mdl_strings(b: Seq<u8>, e: Endian) -> Seq<u8> {
    let q = MODEL_FILE_HEADER_BYTES + crate::model::vertex_declarations::DECLARATION_SIZE * u16_at(b, 12, e);
    b.subrange(q + 8, header_numbers_start(b, MODEL_FILE_HEADER_BYTES as int, u16_at(b, 12, e) as int, e))
}

/// The `count` offsets of 32 bits stored from `p`.
pub open spec fn offsets_at(b: Seq<u8>, p: int, count: int, e: Endian) -> Seq<u32> {
    Seq::new(count as nat, |k: int| crate::bytes::u32_at(b, p + 4 * k, e))
}

/// The offsets of the bone names.
pub open spec fn mdl_bone_offsets(b: Seq<u8>, e: Endian) -> Seq<u32> {
    let h = header_of(b, e);
    offsets_at(b, crate::model::data::pos_bones(mdl_hp(b, e), h), h.bone_count as int, e)
}

/// The offsets of the material names.
pub open spec fn mdl_material_offsets(b: Seq<u8>, e: Endian) -> Seq<u32> {
    let h = header_of(b, e);
    offsets_at(b, crate::model::data::pos_materials(mdl_hp(b, e), h), h.material_count as int, e)
}

/// Where level `i` is stored.
pub open spec fn lod_pos(b: Seq<u8>, e: Endian, i: int) -> int {
    crate::model::data::pos_lods(mdl_hp(b, e), header_of(b, e)) + 60 * i
}

/// Where mesh `j` is stored.
pub open spec fn mesh_pos(b: Seq<u8>, e: Endian, j: int) -> int {
    crate::model::data::pos_meshes(mdl_hp(b, e), header_of(b, e)) + 36 * j
}

/// The first mesh of level `i`.
pub open spec fn lod_first(b: Seq<u8>, e: Endian, i: int) -> int {
    u16_at(b, lod_pos(b, e, i), e) as int
}

/// How many meshes level `i` draws.
pub open spec fn lod_meshes(b: Seq<u8>, e: Endian, i: int) -> int {
    u16_at(b, lod_pos(b, e, i) + 2, e) as int
}

/// Whether mesh `j` of level `i` reads, from the bytes alone; see `part_ok`.
pub open spec fn part_ok_in(b: Seq<u8>, e: Endian, i: int, j: int) -> bool {
    let h = header_of(b, e);
    let m = mesh_pos(b, e, j);
    let vc = u16_at(b, m, e) as int;
    &&& 0 <= j < h.mesh_count
    &&& j < u16_at(b, 12, e)
    &&& crate::bytes::u32_at(b, 28 + 4 * i, e) + 2 * crate::bytes::u32_at(b, m + 16, e) + 2 * crate::bytes::u32_at(b, m + 4, e) <= b.len()
    &&& u16_at(b, m + 10, e) + u16_at(b, m + 12, e) <= h.submesh_count
    &&& forall|s: int|
        0 <= s < streams_read(b[m + 35]) ==> crate::bytes::u32_at(b, lod_pos(b, e, i) + 52, e)
            + #[trigger] crate::bytes::u32_at(b, m + 20 + 4 * s, e) + vc * b[m + 32 + s] <= b.len()
}


/// Whether two model headers agree on the numbers the layout of the data depends on.
pub open spec fn same_layout(h1: ModelHeader, h2: ModelHeader) -> bool {
    &&& h1.element_id_count == h2.element_id_count
    &&& h1.mesh_count == h2.mesh_count
    &&& h1.attribute_count == h2.attribute_count
    &&& h1.terrain_shadow_mesh_count == h2.terrain_shadow_mesh_count
    &&& h1.submesh_count == h2.submesh_count
    &&& h1.terrain_shadow_submesh_count == h2.terrain_shadow_submesh_count
    &&& h1.material_count == h2.material_count
    &&& h1.bone_count == h2.bone_count
    &&& h1.bone_table_count == h2.bone_table_count
    &&& h1.shape_count == h2.shape_count
    &&& h1.shape_mesh_count == h2.shape_mesh_count
    &&& h1.shape_value_count == h2.shape_value_count
    &&& h1.lod_count == h2.lod_count
}

/// Headers that agree on the numbers the layout depends on lay out the data alike.
proof fn lemma_same_layout(b: Seq<u8>, hp: int, h1: ModelHeader, h2: ModelHeader, v: u32, e: Endian)
    requires
        same_layout(h1, h2),
    ensures
        model_data_fits(b, hp, h1, v, e) == model_data_fits(b, hp, h2, v, e),
        crate::model::data::pos_lods(hp, h1) == crate::model::data::pos_lods(hp, h2),
        crate::model::data::pos_meshes(hp, h1) == crate::model::data::pos_meshes(hp, h2),
        crate::model::data::pos_bones(hp, h1) == crate::model::data::pos_bones(hp, h2),
        crate::model::data::pos_materials(hp, h1) == crate::model::data::pos_materials(hp, h2),
{
}

/// Reading `n` vertex declarations gives `n` of them.
proof fn lemma_declarations_len(b: Seq<u8>, i: int, n: nat)
    requires
        declarations_at(b, i, n) is Some,
    ensures
        declarations_at(b, i, n)->0.len() == n,
    decreases n,
{
    if n > 0 {
        lemma_declarations_len(b, i + crate::model::vertex_declarations::DECLARATION_SIZE, (n - 1) as nat);
    }
}

/// Where the headers and data of a model are read, whether a mesh of a level reads can be told
/// from the bytes alone.
proof fn lemma_part_ok_in(b: Seq<u8>, e: Endian, fh: ModelFileHeader, d: ModelData, hp: int, i: int, j: int)
    requires
        is_file_header_at(fh, b, e),
        is_model_header_at(d.header, b, MODEL_FILE_HEADER_BYTES as int, fh.vertex_declaration_count as int, e),
        is_model_data_at(d, b, hp, d.header, fh.version, e),
        hp == mdl_hp(b, e),
        same_layout(d.header, header_of(b, e)),
        d.header.vertex_declarations@.len() == fh.vertex_declaration_count,
        0 <= i < 3,
    ensures
        part_ok(b, fh, d, i, j) == part_ok_in(b, e, i, j),
        d.lods@[i].mesh_index == lod_first(b, e, i),
        d.lods@[i].mesh_count == lod_meshes(b, e, i),
{
    let h = d.header;
    let hs = header_of(b, e);
    lemma_same_layout(b, hp, h, hs, fh.version, e);
    assert(crate::model::read::Record::is_at(d.lods@[i], b, crate::model::data::pos_lods(hp, h) + 60 * i, e));
    if 0 <= j < d.meshes@.len() {
        let m = d.meshes@[j];
        assert(crate::model::read::Record::is_at(m, b, crate::model::data::pos_meshes(hp, h) + 36 * j, e));
        let mp = mesh_pos(b, e, j);
        assert(mp == crate::model::data::pos_meshes(hp, h) + 36 * j);
        assert(fh.index_offsets@[i] == crate::bytes::u32_at(b, 28 + 4 * i, e));
        assert(d.submeshes@.len() == hs.submesh_count);
        assert forall|t: int| 0 <= t < streams_read(m.vertex_stream_count) implies (stream_start(d, i, j, t)
            + stream_size(d, j, t) == crate::bytes::u32_at(b, lod_pos(b, e, i) + 52, e)
            + crate::bytes::u32_at(b, mp + 20 + 4 * t, e) + u16_at(b, mp, e) * b[mp + 32 + t]) by {
            assert(0 <= t < 3);
        }
        if part_ok(b, fh, d, i, j) {
            assert forall|t: int| 0 <= t < streams_read(b[mp + 35]) implies crate::bytes::u32_at(b, lod_pos(b, e, i) + 52, e)
                + #[trigger] crate::bytes::u32_at(b, mp + 20 + 4 * t, e) + u16_at(b, mp, e) * b[mp + 32 + t] <= b.len() by {
                assert(stream_start(d, i, j, t) + stream_size(d, j, t) <= b.len());
            }
        }
        if part_ok_in(b, e, i, j) {
            assert forall|t: int| 0 <= t < streams_read(m.vertex_stream_count) implies #[trigger] stream_start(d, i, j, t)
                + stream_size(d, j, t) <= b.len() by {
                assert(crate::bytes::u32_at(b, lod_pos(b, e, i) + 52, e) + crate::bytes::u32_at(b, mp + 20 + 4 * t, e)
                    + u16_at(b, mp, e) * b[mp + 32 + t] <= b.len());
            }
        }
    }
}

/// Whether the levels of `d` read: at most three, each mesh of each reading (see `part_ok`).
#[verifier::opaque]
pub open spec fn lods_ok(b: Seq<u8>, fh: ModelFileHeader, d: ModelData) -> bool {
    &&& d.header.lod_count <= 3
    &&& forall|i: int, k: int|
        0 <= i < d.header.lod_count && 0 <= k < d.lods@[i].mesh_count ==> #[trigger] part_ok(
            b,
            fh,
            d,
            i,
            d.lods@[i].mesh_index + k,
        )
}

/// Reads the meshes of each level of `d`; `None` where one does not read (see `lods_ok`).
fn read_lods(b: &[u8], e: Endian, fh: &ModelFileHeader, d: &ModelData) -> (r: Option<Vec<Lod>>)
    requires
        d.lods@.len() == 3,
        d.meshes@.len() <= 0xffff,
    ensures
        r is Some <==> lods_ok(b@, *fh, *d),
        r matches Some(lods) ==> lods_read_as(lods@, b@, e, *fh, *d),
{
    reveal(lods_ok);
    reveal(lods_read_as);
    let lod_count = d.header.lod_count;
    if lod_count > 3 {
        return None;
    }
    let mut lods: Vec<Lod> = Vec::new();
    let mut i: usize = 0;
    while i < lod_count as usize
        invariant
            i <= lod_count <= 3,
            lod_count == d.header.lod_count,
            d.lods@.len() == 3,
            d.meshes@.len() <= 0xffff,
            lods@.len() == i,
            forall|t: int| 0 <= t < i ==> (#[trigger] lods@[t]).parts@.len() == d.lods@[t].mesh_count,
            forall|t: int, k: int|
                0 <= t < i && 0 <= k < d.lods@[t].mesh_count ==> is_part_at(
                    #[trigger] lods@[t].parts@[k],
                    b@,
                    e,
                    *fh,
                    *d,
                    t,
                    d.lods@[t].mesh_index + k,
                ),
            forall|t: int, k: int|
                0 <= t < i && 0 <= k < d.lods@[t].mesh_count ==> #[trigger] part_ok(b@, *fh, *d, t, d.lods@[t].mesh_index + k),
        decreases lod_count - i,
    {
        let l = d.lods[i];
        let first = l.mesh_index as usize;
        let mut parts: Vec<Part> = Vec::new();
        let mut k: usize = 0;
        while k < l.mesh_count as usize
            invariant
                k <= l.mesh_count,
                i < lod_count <= 3,
                lod_count == d.header.lod_count,
                l == d.lods@[i as int],
                first == l.mesh_index,
                d.lods@.len() == 3,
                d.meshes@.len() <= 0xffff,
                parts@.len() == k,
                forall|m: int| 0 <= m < k ==> is_part_at(#[trigger] parts@[m], b@, e, *fh, *d, i as int, first + m),
                forall|m: int| 0 <= m < k ==> #[trigger] part_ok(b@, *fh, *d, i as int, first + m),
            decreases l.mesh_count - k,
        {
            match read_part(b, e, fh, d, i, first + k) {
                Some(p) => {
                    parts.push(p);
                },
                None => {
                    assert(!part_ok(b@, *fh, *d, i as int, d.lods@[i as int].mesh_index + k));
                    reveal(lods_ok);
                    return None;
                },
            }
            k = k + 1;
        }
        let ghost ps = parts@;
        lods.push(Lod { parts });
        assert(lods@[i as int].parts@ == ps);
        i = i + 1;
    }
    Some(lods)
}

/// Whether the headers and data of a model of the byte order `e` read: its file header and
/// model header read and its data fits.
#[verifier::opaque]
pub open spec fn core_ok(b: Seq<u8>, e: Endian) -> bool {
    &&& b.len() >= MODEL_FILE_HEADER_BYTES
    &&& model_header_ok(b, MODEL_FILE_HEADER_BYTES as int, u16_at(b, 12, e) as int, e)
    &&& model_data_fits(b, mdl_hp(b, e), header_of(b, e), crate::bytes::u32_at(b, 0, e), e)
}

/// Whether `fh` and `d` are the headers and data of the model `b`.
#[verifier::opaque]
pub open spec fn core_read_as(b: Seq<u8>, e: Endian, fh: ModelFileHeader, d: ModelData) -> bool {
    &&& is_file_header_at(fh, b, e)
    &&& is_model_header_at(d.header, b, MODEL_FILE_HEADER_BYTES as int, u16_at(b, 12, e) as int, e)
    &&& is_model_data_at(d, b, mdl_hp(b, e), d.header, fh.version, e)
}

/// Reads the file header and the data of a model.
#[verifier::rlimit(60)]
fn read_core(b: &[u8], e: Endian) -> (r: Option<(ModelFileHeader, ModelData)>)
    requires
        b@.len() <= isize::MAX,
        b@.len() >= MODEL_FILE_HEADER_BYTES ==> declarations_fit(
            b@,
            MODEL_FILE_HEADER_BYTES as int,
            u16_at(b@, 12, e) as nat,
        ),
    ensures
        r is Some <==> core_ok(b@, e),
        r matches Some((fh, d)) ==> {
            &&& core_read_as(b@, e, fh, d)
            &&& same_layout(d.header, header_of(b@, e))
            &&& d.header.vertex_declarations@.len() == fh.vertex_declaration_count
            &&& fh.vertex_declaration_count == u16_at(b@, 12, e)
            &&& d.lods@.len() == 3
            &&& d.meshes@.len() <= 0xffff
            &&& d.header.strings@ == mdl_strings(b@, e)
            &&& d.bone_name_offsets@ == mdl_bone_offsets(b@, e)
            &&& d.material_name_offsets@ == mdl_material_offsets(b@, e)
        },
{
    reveal(core_ok);
    reveal(core_read_as);
    let fh = match ModelFileHeader::read(b, e) {
        Some(h) => h,
        None => {
            return None;
        },
    };
    let (h, hp) = match read_model_header(b, MODEL_FILE_HEADER_BYTES, fh.vertex_declaration_count, e) {
        Some(x) => x,
        None => {
            return None;
        },
    };
    let ghost hs = header_of(b@, e);
    assert(same_layout(h, hs));
    assert(hp == mdl_hp(b@, e));
    proof {
        lemma_same_layout(b@, hp as int, h, hs, fh.version, e);
        lemma_declarations_len(b@, MODEL_FILE_HEADER_BYTES as int, fh.vertex_declaration_count as nat);
    }
    let (d, _) = match read_model_data(b, hp, h, fh.version, e) {
        Some(x) => x,
        None => {
            return None;
        },
    };
    assert(d.bone_name_offsets@ =~= mdl_bone_offsets(b@, e)) by {
        assert forall|k: int| 0 <= k < d.bone_name_offsets@.len() implies d.bone_name_offsets@[k] == mdl_bone_offsets(b@, e)[k] by {
            assert(<u32 as crate::model::read::Record>::is_at(d.bone_name_offsets@[k], b@, crate::model::data::pos_bones(hp as int, h) + 4 * k, e));
        }
    }
    assert(d.material_name_offsets@ =~= mdl_material_offsets(b@, e)) by {
        assert forall|k: int| 0 <= k < d.material_name_offsets@.len() implies d.material_name_offsets@[k] == mdl_material_offsets(b@, e)[k] by {
            assert(<u32 as crate::model::read::Record>::is_at(d.material_name_offsets@[k], b@, crate::model::data::pos_materials(hp as int, h) + 4 * k, e));
        }
    }
    Some((fh, d))
}

/// Whether each mesh of each level reads, from the bytes alone.
#[verifier::opaque]
pub open spec fn lods_ok_in(b: Seq<u8>, e: Endian) -> bool {
    &&& header_of(b, e).lod_count <= 3
    &&& forall|i: int, k: int|
        0 <= i < header_of(b, e).lod_count && 0 <= k < lod_meshes(b, e, i) ==> #[trigger] part_ok_in(
            b,
            e,
            i,
            lod_first(b, e, i) + k,
        )
}

/// Where the headers and data of a model are read, whether its levels read can be told from
/// the bytes alone.
#[verifier::rlimit(60)]
proof fn lemma_lods_ok_in(b: Seq<u8>, e: Endian, fh: ModelFileHeader, d: ModelData)
    requires
        core_read_as(b, e, fh, d),
        same_layout(d.header, header_of(b, e)),
        d.header.vertex_declarations@.len() == fh.vertex_declaration_count,
        u16_at(b, 12, e) == fh.vertex_declaration_count,
    ensures
        lods_ok(b, fh, d) == lods_ok_in(b, e),
{
    reveal(lods_ok);
    reveal(lods_ok_in);
    reveal(core_read_as);
    let hp = mdl_hp(b, e);
    assert forall|i: int, j: int| 0 <= i < 3 implies (part_ok(b, fh, d, i, j) == #[trigger] part_ok_in(b, e, i, j))
        && d.lods@[i].mesh_index == lod_first(b, e, i) && d.lods@[i].mesh_count == lod_meshes(b, e, i) by {
        lemma_part_ok_in(b, e, fh, d, hp, i, j);
    }
    if lods_ok(b, fh, d) {
        assert forall|i: int, k: int|
            0 <= i < header_of(b, e).lod_count && 0 <= k < lod_meshes(b, e, i) implies #[trigger] part_ok_in(
            b,
            e,
            i,
            lod_first(b, e, i) + k,
        ) by {
            assert(d.header.lod_count == header_of(b, e).lod_count);
            assert(0 <= i < 3);
            lemma_part_ok_in(b, e, fh, d, hp, i, d.lods@[i].mesh_index + k);
            assert(part_ok(b, fh, d, i, d.lods@[i].mesh_index + k));
        }
    }
    if lods_ok_in(b, e) {
        assert forall|i: int, k: int|
            0 <= i < d.header.lod_count && 0 <= k < d.lods@[i].mesh_count implies #[trigger] part_ok(
            b,
            fh,
            d,
            i,
            d.lods@[i].mesh_index + k,
        ) by {
            lemma_part_ok_in(b, e, fh, d, hp, i, d.lods@[i].mesh_index + k);
            assert(part_ok_in(b, e, i, lod_first(b, e, i) + k));
        }
    }
}

/// Whether `b` is a model of the byte order of `platform`: its file header, model header and
/// data read (see `core_ok`), its bone and material names are texts ended by zero bytes in its
/// string table, and each mesh of each of at most three levels reads (see `lods_ok_in`).
pub open spec fn mdl_ok(b: Seq<u8>, platform: Platform) -> bool {
    let e = platform_endian(platform);
    &&& core_ok(b, e)
    &&& names_ok(mdl_strings(b, e), mdl_bone_offsets(b, e))
    &&& names_ok(mdl_strings(b, e), mdl_material_offsets(b, e))
    &&& lods_ok_in(b, e)
}

/// Whether `lods` are the levels of the model `b` as read, with its headers `fh` and data `d`:
/// for each level the meshes it draws (see `is_part_at`).
#[verifier::opaque]
pub open spec fn lods_read_as(lods: Seq<Lod>, b: Seq<u8>, e: Endian, fh: ModelFileHeader, d: ModelData) -> bool {
    &&& lods.len() == d.header.lod_count
    &&& forall|i: int| 0 <= i < d.header.lod_count ==> (#[trigger] lods[i]).parts@.len() == d.lods@[i].mesh_count
    &&& forall|i: int, k: int|
        0 <= i < d.header.lod_count && 0 <= k < d.lods@[i].mesh_count ==> is_part_at(
            #[trigger] lods[i].parts@[k],
            b,
            e,
            fh,
            d,
            i,
            d.lods@[i].mesh_index + k,
        )
}

/// Whether `m` is what reading the model `b` of the byte order of `platform` gives: its file
/// header, model header and data as stored (see `core_read_as`), the names of its bones and
/// materials, and its levels (see `lods_read_as`).
pub open spec fn mdl_read_as(b: Seq<u8>, platform: Platform, m: MDL) -> bool {
    let e = platform_endian(platform);
    &&& core_read_as(b, e, m.file_header, m.model_data)
    &&& crate::mtrl::string_views(m.affected_bone_names@) == names_at(
        m.model_data.header.strings@,
        m.model_data.bone_name_offsets@,
    )
    &&& crate::mtrl::string_views(m.material_names@) == names_at(
        m.model_data.header.strings@,
        m.model_data.material_name_offsets@,
    )
    &&& lods_read_as(m.lods@, b, e, m.file_header, m.model_data)
}

impl MDL {
    /// Reads an existing model of the byte order of `platform`: `None` where `buffer` is not
    /// one (see `mdl_ok`), else what it holds (see `mdl_read_as`). Vertices and shapes hold
    /// floats, so they are left empty here; each mesh's vertex streams are kept as bytes.
    pub fn from_existing(platform: Platform, buffer: &[u8]) -> (r: Option<MDL>)
        requires
            buffer@.len() <= isize::MAX,
            buffer@.len() >= MODEL_FILE_HEADER_BYTES ==> declarations_fit(
                buffer@,
                MODEL_FILE_HEADER_BYTES as int,
                u16_at(buffer@, 12, platform_endian(platform)) as nat,
            ),
        ensures
            r is Some <==> mdl_ok(buffer@, platform),
            r matches Some(m) ==> mdl_read_as(buffer@, platform, m),
    {
        let b = buffer;
        let e = platform.endianness();
        let (fh, d) = match read_core(b, e) {
            Some(x) => x,
            None => {
                return None;
            },
        };
        proof {
            lemma_lods_ok_in(b@, e, fh, d);
        }
        let affected_bone_names = match read_names(&d.header.strings, &d.bone_name_offsets) {
            Some(v) => v,
            None => {
                return None;
            },
        };
        let material_names = match read_names(&d.header.strings, &d.material_name_offsets) {
            Some(v) => v,
            None => {
                return None;
            },
        };
        let lods = match read_lods(b, e, &fh, &d) {
            Some(l) => l,
            None => {
                return None;
            },
        };
        Some(MDL { file_header: fh, model_data: d, lods, affected_bone_names, material_names })
    }
}

} // verus!
