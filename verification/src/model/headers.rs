//! How the sizes and offsets in the headers of a model follow from its data.
use vstd::prelude::*;
use crate::model::data::{
    data_end, header_numbers_start, header_rest_start, is_model_data_at, is_model_header_at,
    map_count, newer_layout,
};
use crate::model::{Mesh, MeshLod, ModelData, ModelFileHeader, ModelHeader, Submesh, MDL, NUM_VERTICES, VERTEX_ELEMENT_SIZE};

verus! {

/// The bytes the first `n` vertex streams of a mesh take: its vertex count times each
/// stream's stride.
pub open spec fn streams_size(m: Mesh, n: int) -> int
    decreases n,
{
    if n <= 0 {
        0
    } else {
        streams_size(m, n - 1) + m.vertex_count * m.vertex_buffer_strides@[n - 1]
    }
}

/// The bytes the vertices of meshes `from` up to `to` take.
pub open spec fn meshes_vertex_size(ms: Seq<Mesh>, from: int, to: int) -> int
    decreases to - from,
{
    if to <= from {
        0
    } else {
        meshes_vertex_size(ms, from, to - 1) + streams_size(
            ms[to - 1],
            ms[to - 1].vertex_stream_count as int,
        )
    }
}

/// The bytes the indices of meshes `from` up to `to` take: two for each.
pub open spec fn meshes_index_size(ms: Seq<Mesh>, from: int, to: int) -> int
    decreases to - from,
{
    if to <= from {
        0
    } else {
        meshes_index_size(ms, from, to - 1) + 2 * ms[to - 1].index_count
    }
}

/// Whether level `l` draws mesh `j`.
pub open spec fn lod_covers(l: MeshLod, j: int) -> bool {
    l.mesh_index <= j < l.mesh_index + l.mesh_count
}

/// The last of the first `n` levels that draws mesh `j`, if any.
pub open spec fn last_lod(lods: Seq<MeshLod>, n: int, j: int) -> Option<int>
    decreases n,
{
    if n <= 0 {
        None
    } else if lod_covers(lods[n - 1], j) {
        Some(n - 1)
    } else {
        last_lod(lods, n - 1, j)
    }
}

/// Whether `new` is `old` laid out with its vertices at `base`: its indices start where its
/// submesh's do, and each of its vertex streams starts after the ones before it.
pub open spec fn laid_out(new: Mesh, old: Mesh, subs: Seq<Submesh>, base: int) -> bool {
    &&& new.start_index == subs[old.submesh_index as int].index_offset
    &&& forall|s: int|
        0 <= s < 3 ==> #[trigger] new.vertex_buffer_offsets@[s] == if s < old.vertex_stream_count {
            (base + streams_size(old, s)) as u32
        } else {
            old.vertex_buffer_offsets@[s]
        }
    &&& new.vertex_count == old.vertex_count
    &&& new.index_count == old.index_count
    &&& new.material_index == old.material_index
    &&& new.submesh_index == old.submesh_index
    &&& new.submesh_count == old.submesh_count
    &&& new.bone_table_index == old.bone_table_index
    &&& new.vertex_buffer_strides@ == old.vertex_buffer_strides@
    &&& new.vertex_stream_count == old.vertex_stream_count
}

/// Whether `new` is mesh `j` of `old` after the first `n` levels laid out their meshes: laid
/// out by the last level that draws it, with its vertices after those of the meshes before it
/// in that level; unchanged where none draws it.
pub open spec fn mesh_after(new: Mesh, old: Seq<Mesh>, lods: Seq<MeshLod>, subs: Seq<Submesh>, n: int, j: int) -> bool {
    match last_lod(lods, n, j) {
        Some(l) => laid_out(new, old[j], subs, meshes_vertex_size(old, lods[l].mesh_index as int, j)),
        None => new == old[j],
    }
}

/// Whether the meshes that the levels draw are within the model, each with at most three
/// vertex streams and a submesh of the model.
pub open spec fn lods_in_model(d: ModelData) -> bool {
    &&& d.lods@.len() == 3
    &&& forall|k: int| 0 <= k < 3 ==> (#[trigger] d.lods@[k]).mesh_index + d.lods@[k].mesh_count <= d.meshes@.len()
    &&& forall|j: int|
        0 <= j < d.meshes@.len() ==> (#[trigger] d.meshes@[j]).vertex_stream_count <= 3
            && d.meshes@[j].submesh_index < d.submeshes@.len()
}

/// Whether the vertex and index bytes of each level fit in 32 bits.
pub open spec fn lod_sizes_fit(d: ModelData) -> bool {
    forall|k: int|
        0 <= k < 3 ==> meshes_vertex_size(
            d.meshes@,
            (#[trigger] d.lods@[k]).mesh_index as int,
            d.lods@[k].mesh_index + d.lods@[k].mesh_count,
        ) <= u32::MAX && meshes_index_size(
            d.meshes@,
            d.lods@[k].mesh_index as int,
            d.lods@[k].mesh_index + d.lods@[k].mesh_count,
        ) <= u32::MAX
}

/// The sum of the strides of the first `n` vertex streams of a mesh.
pub open spec fn strides_sum(m: Mesh, n: int) -> int
    decreases n,
{
    if n <= 0 {
        0
    } else {
        strides_sum(m, n - 1) + m.vertex_buffer_strides@[n - 1]
    }
}

/// The padding after `n` index bytes that brings them to a multiple of sixteen; sixteen where
/// they are one already.
pub open spec fn index_padding(n: int) -> int {
    if n % 16 == 0 {
        16
    } else {
        16 - n % 16
    }
}

/// The size of the vertex buffer of level `l`.
pub open spec fn lod_vertex_size(ms: Seq<Mesh>, l: MeshLod) -> u32 {
    meshes_vertex_size(ms, l.mesh_index as int, l.mesh_index + l.mesh_count) as u32
}

/// The size of the index buffer of level `l`: its index bytes, padded to a multiple of
/// sixteen, in 32 bits.
pub open spec fn lod_index_size(ms: Seq<Mesh>, l: MeshLod) -> u32 {
    let n = meshes_index_size(ms, l.mesh_index as int, l.mesh_index + l.mesh_count);
    if n + index_padding(n) > u32::MAX {
        (n + index_padding(n) - 0x1_0000_0000) as u32
    } else {
        (n + index_padding(n)) as u32
    }
}

proof fn lemma_streams_size_mono(m: Mesh, a: int, b: int)
    requires
        0 <= a <= b,
    ensures
        0 <= streams_size(m, a) <= streams_size(m, b),
    decreases b - a,
{
    if a < b {
        lemma_streams_size_mono(m, a, b - 1);
        assert(m.vertex_count * m.vertex_buffer_strides@[b - 1] >= 0) by (nonlinear_arith)
            requires
                m.vertex_count >= 0,
                m.vertex_buffer_strides@[b - 1] >= 0,
        ;
    } else {
        lemma_streams_size_nonneg(m, a);
    }
}

proof fn lemma_streams_size_nonneg(m: Mesh, a: int)
    ensures
        0 <= streams_size(m, a),
    decreases a,
{
    if a > 0 {
        lemma_streams_size_nonneg(m, a - 1);
        assert(m.vertex_count * m.vertex_buffer_strides@[a - 1] >= 0) by (nonlinear_arith)
            requires
                m.vertex_count >= 0,
                m.vertex_buffer_strides@[a - 1] >= 0,
        ;
    }
}

proof fn lemma_vertex_size_mono(ms: Seq<Mesh>, from: int, a: int, b: int)
    requires
        from <= a <= b,
    ensures
        0 <= meshes_vertex_size(ms, from, a) <= meshes_vertex_size(ms, from, b),
    decreases b - from,
{
    if b > from {
        lemma_vertex_size_mono(ms, from, if a < b { a } else { b - 1 }, b - 1);
        lemma_streams_size_nonneg(ms[b - 1], ms[b - 1].vertex_stream_count as int);
    }
}

proof fn lemma_index_size_mono(ms: Seq<Mesh>, from: int, a: int, b: int)
    requires
        from <= a <= b,
    ensures
        0 <= meshes_index_size(ms, from, a) <= meshes_index_size(ms, from, b),
    decreases b - from,
{
    if b > from {
        lemma_index_size_mono(ms, from, if a < b { a } else { b - 1 }, b - 1);
    }
}

/// Lays out the meshes of the first `lod_count` levels, level by level: each mesh's indices
/// start where its submesh's do, and its vertex streams follow each other from where the
/// vertices of the meshes before it in the level end.
fn layout_meshes(d: &mut ModelData, lod_count: u8)
    requires
        lods_in_model(*old(d)),
        lod_sizes_fit(*old(d)),
        lod_count <= 3,
    ensures
        final(d).meshes@.len() == old(d).meshes@.len(),
        forall|j: int|
            0 <= j < old(d).meshes@.len() ==> #[trigger] mesh_after(
                final(d).meshes@[j],
                old(d).meshes@,
                old(d).lods@,
                old(d).submeshes@,
                lod_count as int,
                j,
            ),
        *final(d) == (ModelData { meshes: final(d).meshes, ..*old(d) }),
{
    let ghost old_ms = d.meshes@;
    let ghost lods = d.lods@;
    let ghost subs = d.submeshes@;
    let mut i: usize = 0;
    while i < lod_count as usize
        invariant
            i <= lod_count <= 3,
            d.lods@ == lods,
            d.submeshes@ == subs,
            old_ms == old(d).meshes@,
            lods == old(d).lods@,
            subs == old(d).submeshes@,
            d.meshes@.len() == old_ms.len(),
            lods_in_model(*old(d)),
            lod_sizes_fit(*old(d)),
            forall|j: int| 0 <= j < old_ms.len() ==> #[trigger] mesh_after(d.meshes@[j], old_ms, lods, subs, i as int, j),
            *d == (ModelData { meshes: d.meshes, ..*old(d) }),
        decreases lod_count - i,
    {
        let lod = d.lods[i];
        let start = lod.mesh_index as usize;
        let end = start + lod.mesh_count as usize;
        assert(lods[i as int] == lod);
        proof {
            lemma_vertex_size_mono(old_ms, start as int, start as int, end as int);
        }
        let mut vertex_offset: u32 = 0;
        let mut j: usize = start;
        while j < end
            invariant
                i < lod_count <= 3,
                start <= j <= end <= old_ms.len(),
                lods[i as int] == lod,
                start == lod.mesh_index,
                end == lod.mesh_index + lod.mesh_count,
                d.lods@ == lods,
                d.submeshes@ == subs,
                old_ms == old(d).meshes@,
                lods == old(d).lods@,
                subs == old(d).submeshes@,
                d.meshes@.len() == old_ms.len(),
                lods_in_model(*old(d)),
                lod_sizes_fit(*old(d)),
                vertex_offset == meshes_vertex_size(old_ms, start as int, j as int),
                meshes_vertex_size(old_ms, start as int, end as int) <= u32::MAX,
                forall|k: int|
                    start <= k < j ==> #[trigger] mesh_after(d.meshes@[k], old_ms, lods, subs, i + 1, k),
                forall|k: int|
                    0 <= k < old_ms.len() && !(start <= k < j) ==> #[trigger] mesh_after(
                        d.meshes@[k],
                        old_ms,
                        lods,
                        subs,
                        i as int,
                        k,
                    ),
                *d == (ModelData { meshes: d.meshes, ..*old(d) }),
            decreases end - j,
        {
            let mut m = d.meshes[j];
            let ghost m0 = m;
            let ghost o = old_ms[j as int];
            assert(mesh_after(d.meshes@[j as int], old_ms, lods, subs, i as int, j as int));
            assert(o.vertex_stream_count <= 3 && o.submesh_index < subs.len()) by {
                assert(old(d).meshes@[j as int] == o);
            }
            m.start_index = d.submeshes[m.submesh_index as usize].index_offset;
            let ghost base = vertex_offset as int;
            proof {
                lemma_vertex_size_mono(old_ms, start as int, j + 1, end as int);
                lemma_streams_size_mono(o, 0, o.vertex_stream_count as int);
            }
            let mut st: usize = 0;
            while st < m.vertex_stream_count as usize
                invariant
                    st <= m.vertex_stream_count <= 3,
                    m.vertex_count == o.vertex_count,
                    m.vertex_buffer_strides@ == o.vertex_buffer_strides@,
                    m.vertex_stream_count == o.vertex_stream_count,
                    m.index_count == o.index_count,
                    m.material_index == o.material_index,
                    m.submesh_index == o.submesh_index,
                    m.submesh_count == o.submesh_count,
                    m.bone_table_index == o.bone_table_index,
                    m.start_index == subs[o.submesh_index as int].index_offset,
                    vertex_offset == base + streams_size(o, st as int),
                    base + streams_size(o, o.vertex_stream_count as int) <= u32::MAX,
                    forall|t: int| 0 <= t < st ==> #[trigger] m.vertex_buffer_offsets@[t] == (base + streams_size(o, t)) as u32,
                    forall|t: int| st <= t < 3 ==> #[trigger] m.vertex_buffer_offsets@[t] == m0.vertex_buffer_offsets@[t],
                decreases m.vertex_stream_count - st,
            {
                proof {
                    lemma_streams_size_mono(o, st + 1, o.vertex_stream_count as int);
                }
                m.vertex_buffer_offsets[st] = vertex_offset;
                let add = (m.vertex_count as u32) * (m.vertex_buffer_strides[st] as u32);
                vertex_offset = vertex_offset + add;
                st = st + 1;
            }
            assert(m0.vertex_buffer_offsets@.len() == 3);
            assert(forall|t: int| o.vertex_stream_count <= t < 3 ==> m0.vertex_buffer_offsets@[t] == o.vertex_buffer_offsets@[t]);
            assert(laid_out(m, o, subs, base));
            d.meshes[j] = m;
            j = j + 1;
        }
        assert forall|k: int| 0 <= k < old_ms.len() implies #[trigger] mesh_after(
            d.meshes@[k],
            old_ms,
            lods,
            subs,
            i + 1,
            k,
        ) by {
            if !(start <= k < end) {
                assert(mesh_after(d.meshes@[k], old_ms, lods, subs, i as int, k));
                assert(!lod_covers(lods[i as int], k));
                assert(last_lod(lods, i + 1, k) == last_lod(lods, i as int, k));
            }
        }
        i = i + 1;
    }
}

/// The bytes of the vertex streams are the vertex count times the sum of the strides.
proof fn lemma_streams_size_product(m: Mesh, n: int)
    ensures
        streams_size(m, n) == m.vertex_count * strides_sum(m, n),
    decreases n,
{
    if n > 0 {
        lemma_streams_size_product(m, n - 1);
        let a = strides_sum(m, n - 1);
        let c = m.vertex_buffer_strides@[n - 1] as int;
        let v = m.vertex_count as int;
        assert(v * a + v * c == v * (a + c)) by (nonlinear_arith);
    }
}

/// Whether two meshes agree on what their sizes depend on.
pub open spec fn same_sizes(a: Mesh, b: Mesh) -> bool {
    &&& a.vertex_count == b.vertex_count
    &&& a.index_count == b.index_count
    &&& a.vertex_buffer_strides@ == b.vertex_buffer_strides@
    &&& a.vertex_stream_count == b.vertex_stream_count
}

/// Meshes that agree on what their sizes depend on take the same bytes.
proof fn lemma_sizes_agree(a: Seq<Mesh>, b: Seq<Mesh>, from: int, to: int)
    requires
        0 <= from,
        to <= a.len(),
        a.len() == b.len(),
        forall|j: int| 0 <= j < a.len() ==> #[trigger] same_sizes(a[j], b[j]),
    ensures
        meshes_vertex_size(a, from, to) == meshes_vertex_size(b, from, to),
        meshes_index_size(a, from, to) == meshes_index_size(b, from, to),
    decreases to - from,
{
    if to > from {
        lemma_sizes_agree(a, b, from, to - 1);
        assert(same_sizes(a[to - 1], b[to - 1]));
        lemma_streams_size_product(a[to - 1], a[to - 1].vertex_stream_count as int);
        lemma_streams_size_product(b[to - 1], b[to - 1].vertex_stream_count as int);
        assert(strides_sum(a[to - 1], a[to - 1].vertex_stream_count as int) == strides_sum(
            b[to - 1],
            b[to - 1].vertex_stream_count as int,
        )) by {
            lemma_strides_sum_agree(a[to - 1], b[to - 1], a[to - 1].vertex_stream_count as int);
        }
    }
}

proof fn lemma_strides_sum_agree(a: Mesh, b: Mesh, n: int)
    requires
        a.vertex_buffer_strides@ == b.vertex_buffer_strides@,
    ensures
        strides_sum(a, n) == strides_sum(b, n),
    decreases n,
{
    if n > 0 {
        lemma_strides_sum_agree(a, b, n - 1);
    }
}

/// Sizes the vertex and index buffers of the three levels from their meshes.
fn size_lods(d: &mut ModelData)
    requires
        lods_in_model(*old(d)),
        lod_sizes_fit(*old(d)),
    ensures
        final(d).lods@.len() == 3,
        forall|k: int|
            0 <= k < 3 ==> #[trigger] final(d).lods@[k] == (MeshLod {
                vertex_buffer_size: lod_vertex_size(old(d).meshes@, old(d).lods@[k]),
                index_buffer_size: lod_index_size(old(d).meshes@, old(d).lods@[k]),
                ..old(d).lods@[k]
            }),
        *final(d) == (ModelData { lods: final(d).lods, ..*old(d) }),
{
    let ghost ms = d.meshes@;
    let ghost lods0 = d.lods@;
    let mut k: usize = 0;
    while k < 3
        invariant
            k <= 3,
            d.meshes@ == ms,
            ms == old(d).meshes@,
            lods0 == old(d).lods@,
            d.lods@.len() == 3,
            lods_in_model(*old(d)),
            lod_sizes_fit(*old(d)),
            forall|m: int|
                0 <= m < k ==> #[trigger] d.lods@[m] == (MeshLod {
                    vertex_buffer_size: lod_vertex_size(ms, lods0[m]),
                    index_buffer_size: lod_index_size(ms, lods0[m]),
                    ..lods0[m]
                }),
            forall|m: int| k <= m < 3 ==> #[trigger] d.lods@[m] == lods0[m],
            *d == (ModelData { lods: d.lods, ..*old(d) }),
        decreases 3 - k,
    {
        let lod = d.lods[k];
        assert(lods0[k as int] == lod);
        let start = lod.mesh_index as usize;
        let end = start + lod.mesh_count as usize;
        proof {
            lemma_vertex_size_mono(ms, start as int, start as int, end as int);
            lemma_index_size_mono(ms, start as int, start as int, end as int);
        }
        let mut tv: u32 = 0;
        let mut ti: u32 = 0;
        let mut j: usize = start;
        while j < end
            invariant
                start <= j <= end <= ms.len(),
                d.meshes@ == ms,
                lods_in_model(*old(d)),
                ms == old(d).meshes@,
                tv == meshes_vertex_size(ms, start as int, j as int),
                ti == meshes_index_size(ms, start as int, j as int),
                meshes_vertex_size(ms, start as int, end as int) <= u32::MAX,
                meshes_index_size(ms, start as int, end as int) <= u32::MAX,
            decreases end - j,
        {
            let m = d.meshes[j];
            assert(ms[j as int] == m);
            assert(m.vertex_stream_count <= 3) by {
                assert(old(d).meshes@[j as int] == m);
            }
            proof {
                lemma_vertex_size_mono(ms, start as int, j + 1, end as int);
                lemma_index_size_mono(ms, start as int, j + 1, end as int);
                lemma_streams_size_product(m, m.vertex_stream_count as int);
            }
            let mut stride: u32 = 0;
            let mut st: usize = 0;
            while st < m.vertex_stream_count as usize
                invariant
                    st <= m.vertex_stream_count <= 3,
                    stride == strides_sum(m, st as int),
                    stride <= 255 * st,
                decreases m.vertex_stream_count - st,
            {
                stride = stride + m.vertex_buffer_strides[st] as u32;
                st = st + 1;
            }
            assert((m.vertex_count as u32) * stride <= u32::MAX) by {
                assert(tv + m.vertex_count * stride <= u32::MAX);
            }
            tv = tv + (m.vertex_count as u32) * stride;
            ti = ti + m.index_count * 2;
            j = j + 1;
        }
        let pad: u32 = if ti % 16 == 0 {
            16
        } else {
            16 - ti % 16
        };
        let mut new_lod = lod;
        new_lod.vertex_buffer_size = tv;
        new_lod.index_buffer_size = ti.wrapping_add(pad);
        d.lods[k] = new_lod;
        k = k + 1;
    }
}

/// The size of a model file header in memory, which the offset of the model's data counts.
pub const MODEL_FILE_HEADER_SIZE: u32 = 68;

/// The size of the model data at run time: the string table, the fixed headers, and each
/// element id, mesh, attribute, terrain shadow mesh and submesh, material and bone name, bone
/// table of the older layout, shape, shape mesh and value, the submesh bone map, the padding,
/// the bounding boxes and each bone's box, at their sizes. Lengths are taken in 32 bits.
pub open spec fn runtime_size_of(d: ModelData) -> int {
    2 + 2 + 4 + d.header.string_size + 56 + (d.element_ids@.len() as u32) * 32 + 3 * 60
        + (d.meshes@.len() as u32) * 36 + (d.attribute_name_offsets@.len() as u32) * 4
        + d.header.terrain_shadow_mesh_count * 20 + d.header.submesh_count * 16
        + d.header.terrain_shadow_submesh_count * 10 + (d.material_name_offsets@.len() as u32) * 4
        + (d.bone_name_offsets@.len() as u32) * 4 + (d.bone_tables@.len() as u32) * 132
        + d.header.shape_count * 16 + d.header.shape_mesh_count * 12 + d.header.shape_value_count
        * 4 + 4 + (d.submesh_bone_map@.len() as u32) * 2 + d.padding_amount + 1 + 4 * 32
        + d.header.bone_count * 32
}

/// The run-time size of the data of a model read from a file of the older layout is the number
/// of bytes its data takes in the file, from the string count after the vertex declarations
/// to the end of the bones' bounding boxes, less two bytes for each terrain shadow submesh
/// (counted at ten bytes where the file stores twelve). It counts the header, the string
/// table, the element ids, the three 60-byte level headers, each list of records at its
/// size, the submesh bone map with its size, the padding and the bounding boxes.
pub proof fn law_runtime_size_counts_model_data(
    b: Seq<u8>,
    start: int,
    vdc: int,
    v: u32,
    e: crate::bytes::Endian,
    d: ModelData,
)
    requires
        is_model_header_at(d.header, b, start, vdc, e),
        is_model_data_at(d, b, header_numbers_start(b, start, vdc, e) + 56, d.header, v, e),
        !newer_layout(v),
    ensures
        runtime_size_of(d) + 2 * d.header.terrain_shadow_submesh_count == data_end(b, header_numbers_start(b, start, vdc, e) + 56, d.header, v, e)
            - header_rest_start(start, vdc),
{
    let hp = header_numbers_start(b, start, vdc, e) + 56;
    let h = d.header;
    assert(d.element_ids@.len() == h.element_id_count);
    assert(d.meshes@.len() == h.mesh_count);
    assert(d.attribute_name_offsets@.len() == h.attribute_count);
    assert(d.material_name_offsets@.len() == h.material_count);
    assert(d.bone_name_offsets@.len() == h.bone_count);
    assert(d.bone_tables@.len() == h.bone_table_count);
    assert(d.submesh_bone_map@.len() == map_count(b, hp, h, v, e));
}

impl ModelData {
    /// The size of the model data at run time; see `runtime_size_of`.
    pub fn calculate_runtime_size(&self) -> (r: u32)
        requires
            runtime_size_of(*self) <= u32::MAX,
        ensures
            r == runtime_size_of(*self),
    {
        let h = &self.header;
        2 + 2 + 4 + h.string_size + 56 + (self.element_ids.len() as u32) * 32 + 3 * 60
            + (self.meshes.len() as u32) * 36 + (self.attribute_name_offsets.len() as u32) * 4
            + h.terrain_shadow_mesh_count as u32 * 20 + h.submesh_count as u32 * 16
            + h.terrain_shadow_submesh_count as u32 * 10 + (self.material_name_offsets.len() as u32)
            * 4 + (self.bone_name_offsets.len() as u32) * 4 + (self.bone_tables.len() as u32) * 132
            + h.shape_count as u32 * 16 + h.shape_mesh_count as u32 * 12 + h.shape_value_count as u32
            * 4 + 4 + (self.submesh_bone_map.len() as u32) * 2 + self.padding_amount as u32 + 1 + 4
            * 32 + h.bone_count as u32 * 32
    }
}

/// The bytes the buffers of the first `k` levels take.
pub open spec fn lods_bytes_before(lods: Seq<MeshLod>, k: int) -> int
    decreases k,
{
    if k <= 0 {
        0
    } else {
        lods_bytes_before(lods, k - 1) + lods[k - 1].vertex_buffer_size + lods[k - 1].index_buffer_size
    }
}

/// Places the buffers of the three levels one after the other from `data_offset`: each
/// level's vertices, then its indices, where its edge geometry is said to be too.
fn place_lods(d: &mut ModelData, data_offset: u32)
    requires
        old(d).lods@.len() == 3,
        data_offset + lods_bytes_before(old(d).lods@, 3) <= u32::MAX,
    ensures
        final(d).lods@.len() == 3,
        forall|k: int|
            0 <= k < 3 ==> #[trigger] final(d).lods@[k] == (MeshLod {
                vertex_data_offset: (data_offset + lods_bytes_before(old(d).lods@, k)) as u32,
                index_data_offset: (data_offset + lods_bytes_before(old(d).lods@, k)
                    + old(d).lods@[k].vertex_buffer_size) as u32,
                edge_geometry_data_offset: (data_offset + lods_bytes_before(old(d).lods@, k)
                    + old(d).lods@[k].vertex_buffer_size) as u32,
                ..old(d).lods@[k]
            }),
        *final(d) == (ModelData { lods: final(d).lods, ..*old(d) }),
{
    let ghost lods0 = d.lods@;
    let mut overall: u32 = 0;
    let mut k: usize = 0;
    while k < 3
        invariant
            k <= 3,
            lods0 == old(d).lods@,
            d.lods@.len() == 3,
            overall == lods_bytes_before(lods0, k as int),
            data_offset + lods_bytes_before(lods0, 3) <= u32::MAX,
            forall|m: int|
                0 <= m < k ==> #[trigger] d.lods@[m] == (MeshLod {
                    vertex_data_offset: (data_offset + lods_bytes_before(lods0, m)) as u32,
                    index_data_offset: (data_offset + lods_bytes_before(lods0, m)
                        + lods0[m].vertex_buffer_size) as u32,
                    edge_geometry_data_offset: (data_offset + lods_bytes_before(lods0, m)
                        + lods0[m].vertex_buffer_size) as u32,
                    ..lods0[m]
                }),
            forall|m: int| k <= m < 3 ==> #[trigger] d.lods@[m] == lods0[m],
            *d == (ModelData { lods: d.lods, ..*old(d) }),
        decreases 3 - k,
    {
        proof {
            lemma_lods_bytes_mono(lods0, k + 1, 3);
        }
        let mut lod = d.lods[k];
        lod.vertex_data_offset = data_offset + overall;
        overall = overall + lod.vertex_buffer_size;
        lod.index_data_offset = data_offset + overall;
        overall = overall + lod.index_buffer_size;
        lod.edge_geometry_data_offset = lod.index_data_offset;
        d.lods[k] = lod;
        k = k + 1;
    }
}

proof fn lemma_lods_bytes_mono(lods: Seq<MeshLod>, a: int, b: int)
    requires
        0 <= a <= b,
    ensures
        0 <= lods_bytes_before(lods, a) <= lods_bytes_before(lods, b),
    decreases b,
{
    if b > 0 {
        lemma_lods_bytes_mono(lods, if a < b { a } else { b - 1 }, b - 1);
    }
}

/// The three levels of `d` with their buffers sized from their meshes.
pub open spec fn sized_lods(d: ModelData) -> Seq<MeshLod> {
    Seq::new(
        3,
        |k: int|
            MeshLod {
                vertex_buffer_size: lod_vertex_size(d.meshes@, d.lods@[k]),
                index_buffer_size: lod_index_size(d.meshes@, d.lods@[k]),
                ..d.lods@[k]
            },
    )
}

/// The stack size of a model: room for every vertex element of every vertex declaration.
pub open spec fn stack_size_of(h: ModelFileHeader) -> int {
    h.vertex_declaration_count * NUM_VERTICES * VERTEX_ELEMENT_SIZE
}

/// The stack a model needs holds a block for each vertex declaration, of the size each takes
/// in the file: the vertex declarations read at `start` end where the stack size says.
pub proof fn law_stack_size_is_declarations(h: ModelFileHeader, start: int)
    ensures
        stack_size_of(h) == crate::model::vertex_declarations::DECLARATION_SIZE * h.vertex_declaration_count,
        header_rest_start(start, h.vertex_declaration_count as int) == start + stack_size_of(h),
{
}

/// The padding of an index buffer of `n` bytes brings it to the next multiple of sixteen
/// above it: a full sixteen bytes where it already is one.
pub proof fn law_index_padding(n: int)
    requires
        n >= 0,
    ensures
        (n + index_padding(n)) % 16 == 0,
        n < n + index_padding(n) <= n + 16,
{
}

/// Where the buffers of a model start: after its data at run time, the file header and the
/// stack.
pub open spec fn data_offset_of(m: MDL) -> int {
    runtime_size_of(m.model_data) + MODEL_FILE_HEADER_SIZE + stack_size_of(m.file_header)
}

/// Whether the headers of `m` can be computed: its levels draw meshes within it, with at most
/// three vertex streams and a submesh each; each level's vertex and index bytes, the run-time
/// size and the end of the last buffer fit in 32 bits; and it has at most three levels.
pub open spec fn headers_computable(m: MDL) -> bool {
    &&& lods_in_model(m.model_data)
    &&& lod_sizes_fit(m.model_data)
    &&& m.file_header.lod_count <= 3
    &&& m.lods@.len() <= 3
    &&& runtime_size_of(m.model_data) <= u32::MAX
    &&& data_offset_of(m) + lods_bytes_before(sized_lods(m.model_data), 3) <= u32::MAX
}

/// The level `k` of `m` once its headers are updated: sized from its meshes, with its buffers
/// placed after those of the levels before it.
pub open spec fn updated_lod(m: MDL, k: int) -> MeshLod {
    let s = sized_lods(m.model_data);
    let at = data_offset_of(m) + lods_bytes_before(s, k);
    MeshLod {
        vertex_data_offset: at as u32,
        index_data_offset: (at + s[k].vertex_buffer_size) as u32,
        edge_geometry_data_offset: (at + s[k].vertex_buffer_size) as u32,
        ..s[k]
    }
}

/// Once the headers are updated, the buffers follow each other: the first level's vertices
/// right after the file header, the stack and the run-time data, each level's indices right
/// after its vertices, and each level's vertices right after the indices of the level before.
pub proof fn law_buffers_follow(m: MDL, k: int)
    requires
        headers_computable(m),
        0 <= k < 3,
    ensures
        updated_lod(m, 0).vertex_data_offset == MODEL_FILE_HEADER_SIZE + stack_size_of(m.file_header)
            + runtime_size_of(m.model_data),
        updated_lod(m, k).index_data_offset == updated_lod(m, k).vertex_data_offset
            + sized_lods(m.model_data)[k].vertex_buffer_size,
        k < 2 ==> updated_lod(m, k + 1).vertex_data_offset == updated_lod(m, k).index_data_offset
            + sized_lods(m.model_data)[k].index_buffer_size,
{
    let s = sized_lods(m.model_data);
    assert(lods_bytes_before(s, 0) == 0);
    assert(lods_bytes_before(s, 1) == lods_bytes_before(s, 0) + s[0].vertex_buffer_size + s[0].index_buffer_size);
    assert(lods_bytes_before(s, 2) == lods_bytes_before(s, 1) + s[1].vertex_buffer_size + s[1].index_buffer_size);
    assert(lods_bytes_before(s, 3) == lods_bytes_before(s, 2) + s[2].vertex_buffer_size + s[2].index_buffer_size);
}

impl MDL {
    /// Recomputes the sizes and offsets in the headers from the model data: lays out the
    /// meshes of each level (see `mesh_after`), sizes each level's buffers (index buffers
    /// padded to a multiple of sixteen), computes the stack and run-time sizes, places the
    /// buffers one after the other, copies the sizes and offsets of the levels into the file
    /// header, and counts the shapes, shape meshes and shape values.
    pub fn update_headers(&mut self)
        requires
            headers_computable(*old(self)),
        ensures
            final(self).model_data.meshes@.len() == old(self).model_data.meshes@.len(),
            forall|j: int|
                0 <= j < old(self).model_data.meshes@.len() ==> #[trigger] mesh_after(
                    final(self).model_data.meshes@[j],
                    old(self).model_data.meshes@,
                    old(self).model_data.lods@,
                    old(self).model_data.submeshes@,
                    old(self).file_header.lod_count as int,
                    j,
                ),
            final(self).model_data.lods@.len() == 3,
            forall|k: int| 0 <= k < 3 ==> #[trigger] final(self).model_data.lods@[k] == updated_lod(*old(self), k),
            final(self).file_header.stack_size == stack_size_of(old(self).file_header),
            final(self).file_header.runtime_size == runtime_size_of(old(self).model_data),
            forall|i: int|
                0 <= i < 3 ==> {
                    &&& #[trigger] final(self).file_header.vertex_offsets@[i] == if i < old(self).lods@.len() {
                        updated_lod(*old(self), i).vertex_data_offset
                    } else {
                        old(self).file_header.vertex_offsets@[i]
                    }
                    &&& final(self).file_header.index_offsets@[i] == if i < old(self).lods@.len() {
                        updated_lod(*old(self), i).index_data_offset
                    } else {
                        old(self).file_header.index_offsets@[i]
                    }
                    &&& final(self).file_header.vertex_buffer_size@[i] == if i < old(self).lods@.len() {
                        updated_lod(*old(self), i).vertex_buffer_size
                    } else {
                        old(self).file_header.vertex_buffer_size@[i]
                    }
                    &&& final(self).file_header.index_buffer_size@[i] == if i < old(self).lods@.len() {
                        updated_lod(*old(self), i).index_buffer_size
                    } else {
                        old(self).file_header.index_buffer_size@[i]
                    }
                },
            final(self).file_header == (ModelFileHeader {
                stack_size: final(self).file_header.stack_size,
                runtime_size: final(self).file_header.runtime_size,
                vertex_offsets: final(self).file_header.vertex_offsets,
                index_offsets: final(self).file_header.index_offsets,
                vertex_buffer_size: final(self).file_header.vertex_buffer_size,
                index_buffer_size: final(self).file_header.index_buffer_size,
                ..old(self).file_header
            }),
            final(self).model_data == (ModelData {
                header: ModelHeader {
                    shape_count: old(self).model_data.shapes@.len() as u16,
                    shape_mesh_count: old(self).model_data.shape_meshes@.len() as u16,
                    shape_value_count: old(self).model_data.shape_values@.len() as u16,
                    ..old(self).model_data.header
                },
                meshes: final(self).model_data.meshes,
                lods: final(self).model_data.lods,
                ..old(self).model_data
            }),
            *final(self) == (MDL {
                file_header: final(self).file_header,
                model_data: final(self).model_data,
                ..*old(self)
            }),
    {
        let ghost old_data = self.model_data;
        let ghost old_self = *self;
        layout_meshes(&mut self.model_data, self.file_header.lod_count);
        let ghost laid = self.model_data;
        assert forall|j: int| 0 <= j < laid.meshes@.len() implies #[trigger] same_sizes(
            laid.meshes@[j],
            old_data.meshes@[j],
        ) by {
            assert(mesh_after(laid.meshes@[j], old_data.meshes@, old_data.lods@, old_data.submeshes@, old_self.file_header.lod_count as int, j));
        }
        assert forall|k: int| 0 <= k < 3 implies meshes_vertex_size(
            laid.meshes@,
            (#[trigger] laid.lods@[k]).mesh_index as int,
            laid.lods@[k].mesh_index + laid.lods@[k].mesh_count,
        ) == meshes_vertex_size(
            old_data.meshes@,
            old_data.lods@[k].mesh_index as int,
            old_data.lods@[k].mesh_index + old_data.lods@[k].mesh_count,
        ) && meshes_index_size(
            laid.meshes@,
            laid.lods@[k].mesh_index as int,
            laid.lods@[k].mesh_index + laid.lods@[k].mesh_count,
        ) == meshes_index_size(
            old_data.meshes@,
            old_data.lods@[k].mesh_index as int,
            old_data.lods@[k].mesh_index + old_data.lods@[k].mesh_count,
        ) by {
            assert(laid.lods@[k] == old_data.lods@[k]);
            assert(old_data.lods@[k].mesh_index + old_data.lods@[k].mesh_count <= old_data.meshes@.len());
            lemma_sizes_agree(laid.meshes@, old_data.meshes@, old_data.lods@[k].mesh_index as int, old_data.lods@[k].mesh_index + old_data.lods@[k].mesh_count);
        }
        assert(lods_in_model(laid)) by {
            assert forall|j: int| 0 <= j < laid.meshes@.len() implies (#[trigger] laid.meshes@[j]).vertex_stream_count <= 3
                && laid.meshes@[j].submesh_index < laid.submeshes@.len() by {
                assert(same_sizes(laid.meshes@[j], old_data.meshes@[j]));
                assert(mesh_after(laid.meshes@[j], old_data.meshes@, old_data.lods@, old_data.submeshes@, old_self.file_header.lod_count as int, j));
                assert(old_data.meshes@[j].vertex_stream_count <= 3);
            }
        }
        size_lods(&mut self.model_data);
        assert forall|k: int| 0 <= k < 3 implies #[trigger] self.model_data.lods@[k] == sized_lods(old_data)[k] by {
            assert(laid.lods@[k] == old_data.lods@[k]);
        }
        let stack = self.file_header.calculate_stack_size();
        self.file_header.stack_size = stack;
        assert(runtime_size_of(self.model_data) == runtime_size_of(old_data));
        let runtime = self.model_data.calculate_runtime_size();
        self.file_header.runtime_size = runtime;
        assert(self.model_data.lods@ =~= sized_lods(old_data));
        proof {
            lemma_lods_bytes_mono(sized_lods(old_data), 0, 3);
        }
        assert(old_self.model_data == old_data);
        let data_offset = runtime + MODEL_FILE_HEADER_SIZE + stack;
        place_lods(&mut self.model_data, data_offset);
        let ghost placed = self.model_data;
        let n = self.lods.len();
        let mut i: usize = 0;
        while i < n
            invariant
                i <= n <= 3,
                n == old_self.lods@.len(),
                self.model_data.lods@.len() == 3,
                forall|k: int| 0 <= k < 3 ==> #[trigger] self.model_data.lods@[k] == updated_lod(old_self, k),
                forall|t: int|
                    0 <= t < 3 ==> #[trigger] self.file_header.vertex_offsets@[t] == if t < i {
                        updated_lod(old_self, t).vertex_data_offset
                    } else {
                        old_self.file_header.vertex_offsets@[t]
                    },
                forall|t: int|
                    0 <= t < 3 ==> #[trigger] self.file_header.index_offsets@[t] == if t < i {
                        updated_lod(old_self, t).index_data_offset
                    } else {
                        old_self.file_header.index_offsets@[t]
                    },
                forall|t: int|
                    0 <= t < 3 ==> #[trigger] self.file_header.vertex_buffer_size@[t] == if t < i {
                        updated_lod(old_self, t).vertex_buffer_size
                    } else {
                        old_self.file_header.vertex_buffer_size@[t]
                    },
                forall|t: int|
                    0 <= t < 3 ==> #[trigger] self.file_header.index_buffer_size@[t] == if t < i {
                        updated_lod(old_self, t).index_buffer_size
                    } else {
                        old_self.file_header.index_buffer_size@[t]
                    },
                self.file_header == (ModelFileHeader {
                    stack_size: self.file_header.stack_size,
                    runtime_size: self.file_header.runtime_size,
                    vertex_offsets: self.file_header.vertex_offsets,
                    index_offsets: self.file_header.index_offsets,
                    vertex_buffer_size: self.file_header.vertex_buffer_size,
                    index_buffer_size: self.file_header.index_buffer_size,
                    ..old_self.file_header
                }),
                self.file_header.stack_size == stack_size_of(old_self.file_header),
                self.file_header.runtime_size == runtime_size_of(old_self.model_data),
                self.lods == old_self.lods,
                self.affected_bone_names == old_self.affected_bone_names,
                self.material_names == old_self.material_names,
                self.model_data == placed,
            decreases n - i,
        {
            let lod = self.model_data.lods[i];
            self.file_header.vertex_buffer_size[i] = lod.vertex_buffer_size;
            self.file_header.vertex_offsets[i] = lod.vertex_data_offset;
            self.file_header.index_buffer_size[i] = lod.index_buffer_size;
            self.file_header.index_offsets[i] = lod.index_data_offset;
            i = i + 1;
        }
        self.model_data.header.shape_count = #[verifier::truncate] (self.model_data.shapes.len() as u16);
        self.model_data.header.shape_mesh_count = #[verifier::truncate] (self.model_data.shape_meshes.len() as u16);
        self.model_data.header.shape_value_count = #[verifier::truncate] (self.model_data.shape_values.len() as u16);
    }
}

} // verus!
