//! Writing the data of a model: the bytes of each kind of record, in the layout they are read
//! in.
use vstd::prelude::*;
use crate::bytes::Endian;
use crate::model::file_header::{push_u16, push_u32, u16_bytes, u32_bytes};
use crate::model::{
    BoneTable, BoneTableV2, BoundingBox, ElementId, Mesh, MeshLod, ShapeMesh, ShapeStruct,
    ShapeValue, Submesh, TerrainShadowMesh, TerrainShadowSubmesh,
};

verus! {

/// A record of the data of a model that can be written.
pub trait Written: Sized {
    /// The bytes of `r` in the byte order `e`.
    spec fn bytes_of(r: Self, e: Endian) -> Seq<u8>;

    /// Appends the bytes of the record.
    fn write_to(&self, out: &mut Vec<u8>, e: Endian)
        ensures
            final(out)@ == old(out)@ + Self::bytes_of(*self, e),
    ;
}

/// The bytes of the records of `v`, one after the other.
pub open spec fn records_bytes<T: Written>(v: Seq<T>, e: Endian) -> Seq<u8>
    decreases v.len(),
{
    if v.len() == 0 {
        seq![]
    } else {
        records_bytes(v.drop_last(), e) + T::bytes_of(v.last(), e)
    }
}

/// Appends the records of `v`, one after the other.
pub fn write_records<T: Written>(out: &mut Vec<u8>, v: &Vec<T>, e: Endian)
    ensures
        final(out)@ == old(out)@ + records_bytes(v@, e),
{
    let mut k: usize = 0;
    while k < v.len()
        invariant
            k <= v@.len(),
            out@ == old(out)@ + records_bytes(v@.take(k as int), e),
        decreases v@.len() - k,
    {
        let ghost before = out@;
        v[k].write_to(out, e);
        proof {
            assert(v@.take(k + 1).drop_last() =~= v@.take(k as int));
            assert(v@.take(k + 1).last() == v@[k as int]);
        }
        k = k + 1;
        assert(out@ =~= old(out)@ + records_bytes(v@.take(k as int), e));
    }
    assert(v@.take(v@.len() as int) =~= v@);
}

/// `n` zero bytes.
pub open spec fn zeros(n: nat) -> Seq<u8> {
    Seq::new(n, |i: int| 0u8)
}

impl Written for u32 {
    open spec fn bytes_of(r: u32, e: Endian) -> Seq<u8> {
        u32_bytes(r, e)
    }

    fn write_to(&self, out: &mut Vec<u8>, e: Endian) {
        push_u32(out, *self, e);
    }
}

impl Written for u16 {
    open spec fn bytes_of(r: u16, e: Endian) -> Seq<u8> {
        u16_bytes(r, e)
    }

    fn write_to(&self, out: &mut Vec<u8>, e: Endian) {
        push_u16(out, *self, e);
    }
}

impl Written for ElementId {
    open spec fn bytes_of(r: ElementId, e: Endian) -> Seq<u8> {
        u32_bytes(r.element_id, e) + u32_bytes(r.parent_bone_name, e) + u32_bytes(r.translate@[0], e)
            + u32_bytes(r.translate@[1], e) + u32_bytes(r.translate@[2], e) + u32_bytes(r.rotate@[0], e)
            + u32_bytes(r.rotate@[1], e) + u32_bytes(r.rotate@[2], e)
    }

    fn write_to(&self, out: &mut Vec<u8>, e: Endian) {
        push_u32(out, self.element_id, e);
        push_u32(out, self.parent_bone_name, e);
        push_u32(out, self.translate[0], e);
        push_u32(out, self.translate[1], e);
        push_u32(out, self.translate[2], e);
        push_u32(out, self.rotate[0], e);
        push_u32(out, self.rotate[1], e);
        push_u32(out, self.rotate[2], e);
        assert(out@ =~= old(out)@ + Self::bytes_of(*self, e));
    }
}

impl Written for MeshLod {
    /// The numbers in the order of the fields, with four zero bytes after the polygon count.
    open spec fn bytes_of(r: MeshLod, e: Endian) -> Seq<u8> {
        u16_bytes(r.mesh_index, e) + u16_bytes(r.mesh_count, e) + u32_bytes(r.model_lod_range, e)
            + u32_bytes(r.texture_lod_range, e) + u16_bytes(r.water_mesh_index, e) + u16_bytes(
            r.water_mesh_count,
            e,
        ) + u16_bytes(r.shadow_mesh_index, e) + u16_bytes(r.shadow_mesh_count, e) + u16_bytes(
            r.terrain_shadow_mesh_count,
            e,
        ) + u16_bytes(r.terrain_shadow_mesh_index, e) + u16_bytes(r.vertical_fog_mesh_index, e)
            + u16_bytes(r.vertical_fog_mesh_count, e) + u32_bytes(r.edge_geometry_size, e) + u32_bytes(
            r.edge_geometry_data_offset,
            e,
        ) + u32_bytes(r.polygon_count, e) + zeros(4) + u32_bytes(r.vertex_buffer_size, e)
            + u32_bytes(r.index_buffer_size, e) + u32_bytes(r.vertex_data_offset, e) + u32_bytes(
            r.index_data_offset,
            e,
        )
    }

    #[verifier::rlimit(40)]
    fn write_to(&self, out: &mut Vec<u8>, e: Endian) {
        push_u16(out, self.mesh_index, e);
        push_u16(out, self.mesh_count, e);
        push_u32(out, self.model_lod_range, e);
        push_u32(out, self.texture_lod_range, e);
        push_u16(out, self.water_mesh_index, e);
        push_u16(out, self.water_mesh_count, e);
        push_u16(out, self.shadow_mesh_index, e);
        push_u16(out, self.shadow_mesh_count, e);
        push_u16(out, self.terrain_shadow_mesh_count, e);
        push_u16(out, self.terrain_shadow_mesh_index, e);
        push_u16(out, self.vertical_fog_mesh_index, e);
        push_u16(out, self.vertical_fog_mesh_count, e);
        push_u32(out, self.edge_geometry_size, e);
        push_u32(out, self.edge_geometry_data_offset, e);
        push_u32(out, self.polygon_count, e);
        let ghost first = out@;
        crate::bytes::push_zeros(out, 4);
        assert(out@ =~= first + zeros(4));
        push_u32(out, self.vertex_buffer_size, e);
        push_u32(out, self.index_buffer_size, e);
        push_u32(out, self.vertex_data_offset, e);
        push_u32(out, self.index_data_offset, e);
        assert(out@ =~= old(out)@ + Self::bytes_of(*self, e));
    }
}

impl Written for Mesh {
    /// The numbers in the order of the fields, with two zero bytes after the vertex count.
    open spec fn bytes_of(r: Mesh, e: Endian) -> Seq<u8> {
        u16_bytes(r.vertex_count, e) + zeros(2) + u32_bytes(r.index_count, e) + u16_bytes(
            r.material_index,
            e,
        ) + u16_bytes(r.submesh_index, e) + u16_bytes(r.submesh_count, e) + u16_bytes(
            r.bone_table_index,
            e,
        ) + u32_bytes(r.start_index, e) + u32_bytes(r.vertex_buffer_offsets@[0], e) + u32_bytes(
            r.vertex_buffer_offsets@[1],
            e,
        ) + u32_bytes(r.vertex_buffer_offsets@[2], e) + seq![
            r.vertex_buffer_strides@[0],
            r.vertex_buffer_strides@[1],
            r.vertex_buffer_strides@[2],
            r.vertex_stream_count,
        ]
    }

    fn write_to(&self, out: &mut Vec<u8>, e: Endian) {
        push_u16(out, self.vertex_count, e);
        out.push(0u8);
        out.push(0u8);
        push_u32(out, self.index_count, e);
        push_u16(out, self.material_index, e);
        push_u16(out, self.submesh_index, e);
        push_u16(out, self.submesh_count, e);
        push_u16(out, self.bone_table_index, e);
        push_u32(out, self.start_index, e);
        push_u32(out, self.vertex_buffer_offsets[0], e);
        push_u32(out, self.vertex_buffer_offsets[1], e);
        push_u32(out, self.vertex_buffer_offsets[2], e);
        out.push(self.vertex_buffer_strides[0]);
        out.push(self.vertex_buffer_strides[1]);
        out.push(self.vertex_buffer_strides[2]);
        out.push(self.vertex_stream_count);
        assert(out@ =~= old(out)@ + Self::bytes_of(*self, e));
    }
}

impl Written for TerrainShadowMesh {
    open spec fn bytes_of(r: TerrainShadowMesh, e: Endian) -> Seq<u8> {
        u32_bytes(r.index_count, e) + u32_bytes(r.start_index, e) + u32_bytes(r.vertex_buffer_offset, e)
            + u16_bytes(r.vertex_count, e) + u16_bytes(r.submesh_index, e) + u16_bytes(
            r.submesh_count,
            e,
        ) + seq![r.vertex_buffer_stride, r.padding]
    }

    fn write_to(&self, out: &mut Vec<u8>, e: Endian) {
        push_u32(out, self.index_count, e);
        push_u32(out, self.start_index, e);
        push_u32(out, self.vertex_buffer_offset, e);
        push_u16(out, self.vertex_count, e);
        push_u16(out, self.submesh_index, e);
        push_u16(out, self.submesh_count, e);
        out.push(self.vertex_buffer_stride);
        out.push(self.padding);
        assert(out@ =~= old(out)@ + Self::bytes_of(*self, e));
    }
}

impl Written for Submesh {
    open spec fn bytes_of(r: Submesh, e: Endian) -> Seq<u8> {
        u32_bytes(r.index_offset, e) + u32_bytes(r.index_count, e) + u32_bytes(r.attribute_index_mask, e)
            + u16_bytes(r.bone_start_index, e) + u16_bytes(r.bone_count, e)
    }

    fn write_to(&self, out: &mut Vec<u8>, e: Endian) {
        push_u32(out, self.index_offset, e);
        push_u32(out, self.index_count, e);
        push_u32(out, self.attribute_index_mask, e);
        push_u16(out, self.bone_start_index, e);
        push_u16(out, self.bone_count, e);
        assert(out@ =~= old(out)@ + Self::bytes_of(*self, e));
    }
}

impl Written for TerrainShadowSubmesh {
    open spec fn bytes_of(r: TerrainShadowSubmesh, e: Endian) -> Seq<u8> {
        u32_bytes(r.index_offset, e) + u32_bytes(r.index_count, e) + u16_bytes(r.unknown1, e) + u16_bytes(
            r.unknown2,
            e,
        )
    }

    fn write_to(&self, out: &mut Vec<u8>, e: Endian) {
        push_u32(out, self.index_offset, e);
        push_u32(out, self.index_count, e);
        push_u16(out, self.unknown1, e);
        push_u16(out, self.unknown2, e);
        assert(out@ =~= old(out)@ + Self::bytes_of(*self, e));
    }
}

impl Written for ShapeStruct {
    open spec fn bytes_of(r: ShapeStruct, e: Endian) -> Seq<u8> {
        u32_bytes(r.string_offset, e) + u16_bytes(r.shape_mesh_start_index@[0], e) + u16_bytes(
            r.shape_mesh_start_index@[1],
            e,
        ) + u16_bytes(r.shape_mesh_start_index@[2], e) + u16_bytes(r.shape_mesh_count@[0], e)
            + u16_bytes(r.shape_mesh_count@[1], e) + u16_bytes(r.shape_mesh_count@[2], e)
    }

    fn write_to(&self, out: &mut Vec<u8>, e: Endian) {
        push_u32(out, self.string_offset, e);
        push_u16(out, self.shape_mesh_start_index[0], e);
        push_u16(out, self.shape_mesh_start_index[1], e);
        push_u16(out, self.shape_mesh_start_index[2], e);
        push_u16(out, self.shape_mesh_count[0], e);
        push_u16(out, self.shape_mesh_count[1], e);
        push_u16(out, self.shape_mesh_count[2], e);
        assert(out@ =~= old(out)@ + Self::bytes_of(*self, e));
    }
}

impl Written for ShapeMesh {
    open spec fn bytes_of(r: ShapeMesh, e: Endian) -> Seq<u8> {
        u32_bytes(r.mesh_index_offset, e) + u32_bytes(r.shape_value_count, e) + u32_bytes(
            r.shape_value_offset,
            e,
        )
    }

    fn write_to(&self, out: &mut Vec<u8>, e: Endian) {
        push_u32(out, self.mesh_index_offset, e);
        push_u32(out, self.shape_value_count, e);
        push_u32(out, self.shape_value_offset, e);
        assert(out@ =~= old(out)@ + Self::bytes_of(*self, e));
    }
}

impl Written for ShapeValue {
    open spec fn bytes_of(r: ShapeValue, e: Endian) -> Seq<u8> {
        u16_bytes(r.base_indices_index, e) + u16_bytes(r.replacing_vertex_index, e)
    }

    fn write_to(&self, out: &mut Vec<u8>, e: Endian) {
        push_u16(out, self.base_indices_index, e);
        push_u16(out, self.replacing_vertex_index, e);
        assert(out@ =~= old(out)@ + Self::bytes_of(*self, e));
    }
}

impl Written for BoundingBox {
    open spec fn bytes_of(r: BoundingBox, e: Endian) -> Seq<u8> {
        u32_bytes(r.min@[0], e) + u32_bytes(r.min@[1], e) + u32_bytes(r.min@[2], e) + u32_bytes(
            r.min@[3],
            e,
        ) + u32_bytes(r.max@[0], e) + u32_bytes(r.max@[1], e) + u32_bytes(r.max@[2], e) + u32_bytes(
            r.max@[3],
            e,
        )
    }

    fn write_to(&self, out: &mut Vec<u8>, e: Endian) {
        push_u32(out, self.min[0], e);
        push_u32(out, self.min[1], e);
        push_u32(out, self.min[2], e);
        push_u32(out, self.min[3], e);
        push_u32(out, self.max[0], e);
        push_u32(out, self.max[1], e);
        push_u32(out, self.max[2], e);
        push_u32(out, self.max[3], e);
        assert(out@ =~= old(out)@ + Self::bytes_of(*self, e));
    }
}

/// The bytes of the sixty-four bone indices of a bone table.
pub open spec fn bone_indices_bytes(ix: Seq<u16>, n: int, e: Endian) -> Seq<u8>
    decreases n,
{
    if n <= 0 {
        seq![]
    } else {
        bone_indices_bytes(ix, n - 1, e) + u16_bytes(ix[n - 1], e)
    }
}

impl Written for BoneTable {
    /// The sixty-four bone indices, the bone count and three zero bytes.
    open spec fn bytes_of(r: BoneTable, e: Endian) -> Seq<u8> {
        bone_indices_bytes(r.bone_indices@, 64, e) + seq![r.bone_count] + zeros(3)
    }

    fn write_to(&self, out: &mut Vec<u8>, e: Endian) {
        let mut k: usize = 0;
        while k < 64
            invariant
                k <= 64,
                out@ == old(out)@ + bone_indices_bytes(self.bone_indices@, k as int, e),
            decreases 64 - k,
        {
            push_u16(out, self.bone_indices[k], e);
            k = k + 1;
        }
        out.push(self.bone_count);
        out.push(0u8);
        out.push(0u8);
        out.push(0u8);
        assert(out@ =~= old(out)@ + Self::bytes_of(*self, e));
    }
}

impl Written for BoneTableV2 {
    /// The bone count, the bone indices and the padding.
    open spec fn bytes_of(r: BoneTableV2, e: Endian) -> Seq<u8> {
        u16_bytes(r.bone_count, e) + records_bytes(r.bone_indices@, e) + u16_bytes(r.padding, e)
    }

    fn write_to(&self, out: &mut Vec<u8>, e: Endian) {
        push_u16(out, self.bone_count, e);
        write_records(out, &self.bone_indices, e);
        push_u16(out, self.padding, e);
        assert(out@ =~= old(out)@ + Self::bytes_of(*self, e));
    }
}

} // verus!
