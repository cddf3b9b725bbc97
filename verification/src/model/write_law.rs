//! What a written model reads back as: its file header and its model header, where no vertex
//! stream or index list is written over them.
use vstd::prelude::*;
use crate::bytes::{holds_at, u16_at, u32_at, Endian};
use crate::model::data::{header_numbers_start, header_rest_start, is_model_header_at};
use crate::model::file_header::{
    file_header_bytes, is_file_header_at, lemma_at, lemma_number_bytes, u16_bytes, u32_bytes,
    MODEL_FILE_HEADER_BYTES,
};
use crate::model::vertex_declarations::{
    declaration_views, declarations_at, declarations_bytes, lemma_declaration_read,
    lemma_declarations_bytes, lemma_declarations_len, VertexElement, DECLARATION_SIZE,
    END_OF_STREAM,
};
use crate::model::write::zeros;
use crate::model::write_mdl::{
    data_front_bytes, data_tail_bytes, header_numbers_bytes, keeps, lemma_lods_keep, mdl_bytes,
    model_data_bytes, model_header_bytes, placed_after,
};
use crate::model::{ModelHeader, MDL};

verus! {

/// Whether each declaration of `ds` has one to sixteen elements, and only its first may have
/// the stream number that ends a declaration.
pub open spec fn declarations_readable(ds: Seq<Seq<VertexElement>>) -> bool {
    &&& forall|m: int| 0 <= m < ds.len() ==> 1 <= (#[trigger] ds[m]).len() <= 16
    &&& forall|m: int, j: int|
        0 <= m < ds.len() && 1 <= j < ds[m].len() ==> (#[trigger] ds[m][j]).stream != END_OF_STREAM
}

proof fn lemma_holds_each(b: Seq<u8>, p: int, n: Seq<u8>)
    requires
        holds_at(b, p, n),
    ensures
        forall|j: int| 0 <= j < n.len() ==> b[p + j] == #[trigger] n[j],
{
    assert forall|j: int| 0 <= j < n.len() implies b[p + j] == #[trigger] n[j] by {
        assert(b.subrange(p, p + n.len())[j] == b[p + j]);
    }
}

/// The declarations stored one after the other at `p` read back, from the `k`-th on.
proof fn lemma_declarations_in(b: Seq<u8>, p: int, ds: Seq<Seq<VertexElement>>, k: int)
    requires
        0 <= p,
        0 <= k <= ds.len(),
        declarations_readable(ds),
        holds_at(b, p, declarations_bytes(ds)),
    ensures
        declarations_at(b, p + DECLARATION_SIZE * k, (ds.len() - k) as nat) == Some(
            ds.subrange(k, ds.len() as int),
        ),
    decreases ds.len() - k,
{
    lemma_declarations_len(ds);
    if k < ds.len() {
        lemma_declarations_in(b, p, ds, k + 1);
        lemma_declarations_bytes(ds, k);
        let all = declarations_bytes(ds);
        let a = p + DECLARATION_SIZE * k;
        lemma_holds_each(b, p, all);
        assert(b.subrange(a, a + DECLARATION_SIZE) =~= all.subrange(
            DECLARATION_SIZE * k,
            DECLARATION_SIZE * k + DECLARATION_SIZE,
        ));
        lemma_declaration_read(b, a, ds[k]);
        assert(a + DECLARATION_SIZE == p + DECLARATION_SIZE * (k + 1));
        assert(ds.subrange(k, ds.len() as int) =~= seq![ds[k]] + ds.subrange(k + 1, ds.len() as int));
    } else {
        assert(ds.subrange(k, ds.len() as int) =~= Seq::<Seq<VertexElement>>::empty());
    }
}

/// The bytes `n` held at `r` in `b` read the same at each place.
proof fn lemma_window(b: Seq<u8>, r: int, n: Seq<u8>, k: int, e: Endian)
    requires
        holds_at(b, r, n),
        0 <= k,
    ensures
        k + 2 <= n.len() ==> u16_at(b, r + k, e) == u16_at(n, k, e),
        k + 4 <= n.len() ==> u32_at(b, r + k, e) == u32_at(n, k, e),
        k < n.len() ==> b[r + k] == n[k],
{
    assert forall|j: int| 0 <= j < n.len() implies b[r + j] == n[j] by {
        assert(b.subrange(r, r + n.len())[j] == b[r + j]);
    }
    if k + 2 <= n.len() {
        assert(b[r + k] == n[k] && b[r + k + 1] == n[k + 1]);
    }
    if k + 4 <= n.len() {
        assert(b[r + k + 2] == n[k + 2] && b[r + k + 3] == n[k + 3]);
    }
}

/// The numbers of a model header read back from their bytes.
proof fn lemma_numbers_round_trip(h: ModelHeader, e: Endian)
    ensures
        header_numbers_bytes(h, e).len() == 56,
        u32_at(header_numbers_bytes(h, e), 0, e) == h.radius,
        u16_at(header_numbers_bytes(h, e), 4, e) == h.mesh_count,
        u16_at(header_numbers_bytes(h, e), 6, e) == h.attribute_count,
        u16_at(header_numbers_bytes(h, e), 8, e) == h.submesh_count,
        u16_at(header_numbers_bytes(h, e), 10, e) == h.material_count,
        u16_at(header_numbers_bytes(h, e), 12, e) == h.bone_count,
        u16_at(header_numbers_bytes(h, e), 14, e) == h.bone_table_count,
        u16_at(header_numbers_bytes(h, e), 16, e) == h.shape_count,
        u16_at(header_numbers_bytes(h, e), 18, e) == h.shape_mesh_count,
        u16_at(header_numbers_bytes(h, e), 20, e) == h.shape_value_count,
        header_numbers_bytes(h, e)[22] == h.lod_count,
        header_numbers_bytes(h, e)[23] == h.flags1,
        u16_at(header_numbers_bytes(h, e), 24, e) == h.element_id_count,
        header_numbers_bytes(h, e)[26] == h.terrain_shadow_mesh_count,
        header_numbers_bytes(h, e)[27] == h.flags2,
        u32_at(header_numbers_bytes(h, e), 28, e) == h.model_clip_out_of_distance,
        u32_at(header_numbers_bytes(h, e), 32, e) == h.shadow_clip_out_of_distance,
        u16_at(header_numbers_bytes(h, e), 36, e) == h.unknown4,
        u16_at(header_numbers_bytes(h, e), 38, e) == h.terrain_shadow_submesh_count,
        header_numbers_bytes(h, e)[40] == h.unknown5,
        header_numbers_bytes(h, e)[41] == h.bg_change_material_index,
        header_numbers_bytes(h, e)[42] == h.bg_crest_change_material_index,
        header_numbers_bytes(h, e)[43] == h.unknown6,
        u16_at(header_numbers_bytes(h, e), 44, e) == h.unknown7,
        u16_at(header_numbers_bytes(h, e), 46, e) == h.unknown8,
        u16_at(header_numbers_bytes(h, e), 48, e) == h.unknown9,
{
    let n = header_numbers_bytes(h, e);
    lemma_number_bytes(h.radius, h.mesh_count, e);
    lemma_number_bytes(h.model_clip_out_of_distance, h.attribute_count, e);
    lemma_number_bytes(h.shadow_clip_out_of_distance, h.submesh_count, e);
    lemma_number_bytes(0, h.material_count, e);
    lemma_number_bytes(0, h.bone_count, e);
    lemma_number_bytes(0, h.bone_table_count, e);
    lemma_number_bytes(0, h.shape_count, e);
    lemma_number_bytes(0, h.shape_mesh_count, e);
    lemma_number_bytes(0, h.shape_value_count, e);
    lemma_number_bytes(0, h.element_id_count, e);
    lemma_number_bytes(0, h.unknown4, e);
    lemma_number_bytes(0, h.terrain_shadow_submesh_count, e);
    lemma_number_bytes(0, h.unknown7, e);
    lemma_number_bytes(0, h.unknown8, e);
    lemma_number_bytes(0, h.unknown9, e);
    assert(n.len() == 56);
    assert(n.subrange(0, 4) =~= u32_bytes(h.radius, e));
    assert(n.subrange(4, 6) =~= u16_bytes(h.mesh_count, e));
    assert(n.subrange(6, 8) =~= u16_bytes(h.attribute_count, e));
    assert(n.subrange(8, 10) =~= u16_bytes(h.submesh_count, e));
    assert(n.subrange(10, 12) =~= u16_bytes(h.material_count, e));
    assert(n.subrange(12, 14) =~= u16_bytes(h.bone_count, e));
    assert(n.subrange(14, 16) =~= u16_bytes(h.bone_table_count, e));
    assert(n.subrange(16, 18) =~= u16_bytes(h.shape_count, e));
    assert(n.subrange(18, 20) =~= u16_bytes(h.shape_mesh_count, e));
    assert(n.subrange(20, 22) =~= u16_bytes(h.shape_value_count, e));
    assert(n.subrange(24, 26) =~= u16_bytes(h.element_id_count, e));
    assert(n.subrange(28, 32) =~= u32_bytes(h.model_clip_out_of_distance, e));
    assert(n.subrange(32, 36) =~= u32_bytes(h.shadow_clip_out_of_distance, e));
    assert(n.subrange(36, 38) =~= u16_bytes(h.unknown4, e));
    assert(n.subrange(38, 40) =~= u16_bytes(h.terrain_shadow_submesh_count, e));
    assert(n.subrange(44, 46) =~= u16_bytes(h.unknown7, e));
    assert(n.subrange(46, 48) =~= u16_bytes(h.unknown8, e));
    assert(n.subrange(48, 50) =~= u16_bytes(h.unknown9, e));
    lemma_at(n, 0, u32_bytes(h.radius, e), e);
    lemma_at(n, 4, u16_bytes(h.mesh_count, e), e);
    lemma_at(n, 6, u16_bytes(h.attribute_count, e), e);
    lemma_at(n, 8, u16_bytes(h.submesh_count, e), e);
    lemma_at(n, 10, u16_bytes(h.material_count, e), e);
    lemma_at(n, 12, u16_bytes(h.bone_count, e), e);
    lemma_at(n, 14, u16_bytes(h.bone_table_count, e), e);
    lemma_at(n, 16, u16_bytes(h.shape_count, e), e);
    lemma_at(n, 18, u16_bytes(h.shape_mesh_count, e), e);
    lemma_at(n, 20, u16_bytes(h.shape_value_count, e), e);
    lemma_at(n, 24, u16_bytes(h.element_id_count, e), e);
    lemma_at(n, 28, u32_bytes(h.model_clip_out_of_distance, e), e);
    lemma_at(n, 32, u32_bytes(h.shadow_clip_out_of_distance, e), e);
    lemma_at(n, 36, u16_bytes(h.unknown4, e), e);
    lemma_at(n, 38, u16_bytes(h.terrain_shadow_submesh_count, e), e);
    lemma_at(n, 44, u16_bytes(h.unknown7, e), e);
    lemma_at(n, 46, u16_bytes(h.unknown8, e), e);
    lemma_at(n, 48, u16_bytes(h.unknown9, e), e);
}

proof fn lemma_placed_after_less(m: MDL, a: int, c: int)
    requires
        placed_after(m, c),
        a <= c,
    ensures
        placed_after(m, a),
{
}

/// The numbers of `h` held at `r` read back.
proof fn lemma_numbers_held(b: Seq<u8>, r: int, h: ModelHeader, e: Endian)
    requires
        r >= 0,
        holds_at(b, r, header_numbers_bytes(h, e)),
    ensures
        h.radius == u32_at(b, r, e),
        h.mesh_count == u16_at(b, r + 4, e),
        h.attribute_count == u16_at(b, r + 6, e),
        h.submesh_count == u16_at(b, r + 8, e),
        h.material_count == u16_at(b, r + 10, e),
        h.bone_count == u16_at(b, r + 12, e),
        h.bone_table_count == u16_at(b, r + 14, e),
        h.shape_count == u16_at(b, r + 16, e),
        h.shape_mesh_count == u16_at(b, r + 18, e),
        h.shape_value_count == u16_at(b, r + 20, e),
        h.lod_count == b[r + 22],
        h.flags1 == b[r + 23],
        h.element_id_count == u16_at(b, r + 24, e),
        h.terrain_shadow_mesh_count == b[r + 26],
        h.flags2 == b[r + 27],
        h.model_clip_out_of_distance == u32_at(b, r + 28, e),
        h.shadow_clip_out_of_distance == u32_at(b, r + 32, e),
        h.unknown4 == u16_at(b, r + 36, e),
        h.terrain_shadow_submesh_count == u16_at(b, r + 38, e),
        h.unknown5 == b[r + 40],
        h.bg_change_material_index == b[r + 41],
        h.bg_crest_change_material_index == b[r + 42],
        h.unknown6 == b[r + 43],
        h.unknown7 == u16_at(b, r + 44, e),
        h.unknown8 == u16_at(b, r + 46, e),
        h.unknown9 == u16_at(b, r + 48, e),
{
    let nb = header_numbers_bytes(h, e);
    lemma_numbers_round_trip(h, e);
    lemma_window(b, r, nb, 0, e);
    lemma_window(b, r, nb, 4, e);
    lemma_window(b, r, nb, 6, e);
    lemma_window(b, r, nb, 8, e);
    lemma_window(b, r, nb, 10, e);
    lemma_window(b, r, nb, 12, e);
    lemma_window(b, r, nb, 14, e);
    lemma_window(b, r, nb, 16, e);
    lemma_window(b, r, nb, 18, e);
    lemma_window(b, r, nb, 20, e);
    lemma_window(b, r, nb, 22, e);
    lemma_window(b, r, nb, 23, e);
    lemma_window(b, r, nb, 24, e);
    lemma_window(b, r, nb, 26, e);
    lemma_window(b, r, nb, 27, e);
    lemma_window(b, r, nb, 28, e);
    lemma_window(b, r, nb, 32, e);
    lemma_window(b, r, nb, 36, e);
    lemma_window(b, r, nb, 38, e);
    lemma_window(b, r, nb, 40, e);
    lemma_window(b, r, nb, 41, e);
    lemma_window(b, r, nb, 42, e);
    lemma_window(b, r, nb, 43, e);
    lemma_window(b, r, nb, 44, e);
    lemma_window(b, r, nb, 46, e);
    lemma_window(b, r, nb, 48, e);
}

/// Where the parts of a model header's bytes are.
proof fn lemma_header_parts(h: ModelHeader, e: Endian)
    requires
        forall|m: int|
            0 <= m < h.vertex_declarations@.len() ==> (#[trigger] declaration_views(h.vertex_declarations@)[m]).len() <= 16,
    ensures
        ({
            let hb = model_header_bytes(h, e);
            let d = declarations_bytes(declaration_views(h.vertex_declarations@));
            let dl = d.len() as int;
            let sl = h.strings@.len() as int;
            &&& hb.len() == dl + 8 + sl + 56
            &&& hb.subrange(0, dl) == d
            &&& hb.subrange(dl, dl + 2) == u16_bytes(h.string_count, e)
            &&& hb.subrange(dl + 4, dl + 8) == u32_bytes(h.string_size, e)
            &&& hb.subrange(dl + 8, dl + 8 + sl) == h.strings@
            &&& hb.subrange(dl + 8 + sl, dl + 8 + sl + 56) == header_numbers_bytes(h, e)
        }),
{
    let hb = model_header_bytes(h, e);
    let d = declarations_bytes(declaration_views(h.vertex_declarations@));
    let dl = d.len() as int;
    let sl = h.strings@.len() as int;
    lemma_number_bytes(h.string_size, h.string_count, e);
    lemma_numbers_round_trip(h, e);
    assert(hb.subrange(0, dl) =~= d);
    assert(hb.subrange(dl, dl + 2) =~= u16_bytes(h.string_count, e));
    assert(hb.subrange(dl + 4, dl + 8) =~= u32_bytes(h.string_size, e));
    assert(hb.subrange(dl + 8, dl + 8 + sl) =~= h.strings@);
    assert(hb.subrange(dl + 8 + sl, dl + 8 + sl + 56) =~= header_numbers_bytes(h, e));
}

/// A part of bytes held at `p` is held at its own place.
proof fn lemma_holds_part(b: Seq<u8>, p: int, whole: Seq<u8>, x: int, y: int)
    requires
        holds_at(b, p, whole),
        0 <= x <= y <= whole.len(),
    ensures
        holds_at(b, p + x, whole.subrange(x, y)),
{
    lemma_holds_each(b, p, whole);
    assert(b.subrange(p + x, p + y) =~= whole.subrange(x, y)) by {
        assert forall|i: int| 0 <= i < y - x implies b.subrange(p + x, p + y)[i] == whole.subrange(x, y)[i] by {
            assert(b[p + (x + i)] == whole[x + i]);
        }
    }
}

/// A model header held at 68 reads back, where it counts its string table's bytes and its
/// declarations read back.
proof fn lemma_model_header_held(b: Seq<u8>, h: ModelHeader, e: Endian)
    requires
        holds_at(b, 68, model_header_bytes(h, e)),
        h.string_size == h.strings@.len(),
        declarations_readable(declaration_views(h.vertex_declarations@)),
    ensures
        is_model_header_at(h, b, 68, h.vertex_declarations@.len() as int, e),
{
    let hb = model_header_bytes(h, e);
    let ds = declaration_views(h.vertex_declarations@);
    let d = declarations_bytes(ds);
    lemma_declarations_len(ds);
    lemma_header_parts(h, e);
    lemma_number_bytes(h.string_size, h.string_count, e);
    let n = ds.len();
    let sl = h.strings@.len() as int;
    let dl = d.len() as int;
    lemma_holds_part(b, 68, hb, 0, dl);
    lemma_declarations_in(b, 68, ds, 0);
    assert(ds.subrange(0, n as int) =~= ds);
    lemma_holds_part(b, 68, hb, dl, dl + 2);
    lemma_holds_part(b, 68, hb, dl + 4, dl + 8);
    lemma_holds_part(b, 68, hb, dl + 8, dl + 8 + sl);
    lemma_holds_part(b, 68, hb, dl + 8 + sl, dl + 8 + sl + 56);
    lemma_at(b, 68 + dl, u16_bytes(h.string_count, e), e);
    lemma_at(b, 68 + dl + 4, u32_bytes(h.string_size, e), e);
    let q = 68 + dl;
    assert(header_rest_start(68, n as int) == q);
    assert(header_numbers_start(b, 68, n as int, e) == q + 8 + sl);
    lemma_numbers_held(b, q + 8 + sl, h, e);
}

/// The file header and the model header of a model as written read back as the model's own,
/// where the header counts its vertex declarations and the size of its string table, each
/// declaration has one to sixteen elements (only the first of which may end it), and no vertex
/// stream or index list is written over the headers.
pub proof fn law_written_headers_read_back(m: MDL, e: Endian)
    requires
        m.file_header.vertex_declaration_count == m.model_data.header.vertex_declarations@.len(),
        m.model_data.header.string_size == m.model_data.header.strings@.len(),
        declarations_readable(declaration_views(m.model_data.header.vertex_declarations@)),
        placed_after(m, MODEL_FILE_HEADER_BYTES + model_header_bytes(m.model_data.header, e).len()),
    ensures
        is_file_header_at(m.file_header, mdl_bytes(m, e), e),
        is_model_header_at(
            m.model_data.header,
            mdl_bytes(m, e),
            MODEL_FILE_HEADER_BYTES as int,
            u16_at(mdl_bytes(m, e), 12, e) as int,
            e,
        ),
{
    let h = m.model_data.header;
    let hb = model_header_bytes(h, e);
    let fb = file_header_bytes(m.file_header, e);
    let md = model_data_bytes(m.model_data, e);
    let base = fb + md;
    let b = mdl_bytes(m, e);
    let top = MODEL_FILE_HEADER_BYTES + hb.len();
    crate::model::file_header::law_file_header_round_trip(m.file_header, e);
    lemma_placed_after_less(m, MODEL_FILE_HEADER_BYTES as int, top);
    crate::model::write_mdl::law_written_file_header_reads_back(m, e);
    lemma_lods_keep(base, m, m.lods@.len() as int, top);
    assert(md =~= hb + data_front_bytes(m.model_data, e) + data_tail_bytes(m.model_data, e));
    assert(b.subrange(68, top) =~= hb) by {
        assert forall|j: int| 0 <= j < hb.len() implies b.subrange(68, top)[j] == hb[j] by {
            assert(b[68 + j] == base[68 + j]);
        }
    }
    lemma_model_header_held(b, h, e);
}

} // verus!
