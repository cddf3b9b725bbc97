//! Reading the data of a model: its fixed-size records, one kind after the other.
use vstd::prelude::*;
use crate::bytes::{read_u16, read_u32, u16_at, u32_at, Endian};
use crate::model::{
    BoneTable, BoundingBox, ElementId, Mesh, MeshLod, ShapeMesh, ShapeStruct, ShapeValue,
    Submesh, TerrainShadowMesh, TerrainShadowSubmesh,
};

verus! {

/// A record of fixed size in the data of a model.
pub trait Record: Sized {
    /// How many bytes the record takes.
    spec fn record_size() -> int;

    /// Whether `r` is the record stored at `p` in `b` in the byte order `e`.
    spec fn is_at(r: Self, b: Seq<u8>, p: int, e: Endian) -> bool;

    /// How many bytes the record takes.
    fn size() -> (n: usize)
        ensures
            n == Self::record_size(),
            0 < n <= 256,
    ;

    /// Reads the record stored at `p`.
    fn read_at(b: &[u8], p: usize, e: Endian) -> (r: Self)
        requires
            p + Self::record_size() <= b@.len(),
        ensures
            Self::is_at(r, b@, p as int, e),
    ;
}

/// Whether `v` holds the `count` records stored one after the other from `p` in `b`.
pub open spec fn records_at<T: Record>(v: Seq<T>, b: Seq<u8>, p: int, count: int, e: Endian) -> bool {
    &&& v.len() == count
    &&& forall|k: int| 0 <= k < count ==> #[trigger] T::is_at(v[k], b, p + T::record_size() * k, e)
}

/// Reads `count` records stored one after the other from `p`.
pub fn read_records<T: Record>(b: &[u8], p: usize, count: usize, e: Endian) -> (r: Vec<T>)
    requires
        p + T::record_size() * count <= b@.len(),
    ensures
        records_at(r@, b@, p as int, count as int, e),
{
    let _len = b.len();
    let size = T::size();
    let mut r: Vec<T> = Vec::new();
    let mut k: usize = 0;
    while k < count
        invariant
            k <= count,
            size == T::record_size(),
            p + size * count <= b@.len(),
            b@.len() <= usize::MAX,
            r@.len() == k,
            forall|m: int| 0 <= m < k ==> #[trigger] T::is_at(r@[m], b@, p + size * m, e),
        decreases count - k,
    {
        assert(size * k + size <= size * count) by (nonlinear_arith)
            requires
                k < count,
                size >= 0,
        ;
        let x = T::read_at(b, p + size * k, e);
        r.push(x);
        k = k + 1;
    }
    r
}

/// Whether `s` is the submesh stored at `p` in `b` in the byte order `e`.
pub open spec fn is_submesh_at(s: Submesh, b: Seq<u8>, p: int, e: Endian) -> bool {
    &&& s.index_offset == u32_at(b, p, e)
    &&& s.index_count == u32_at(b, p + 4, e)
    &&& s.attribute_index_mask == u32_at(b, p + 8, e)
    &&& s.bone_start_index == u16_at(b, p + 12, e)
    &&& s.bone_count == u16_at(b, p + 14, e)
}

fn read_submesh(b: &[u8], p: usize, e: Endian) -> (r: Submesh)
    requires
        p + 16 <= b@.len(),
    ensures
        is_submesh_at(r, b@, p as int, e),
{
    let _len = b.len();
    Submesh {
        index_offset: read_u32(b, p, e),
        index_count: read_u32(b, p + 4, e),
        attribute_index_mask: read_u32(b, p + 8, e),
        bone_start_index: read_u16(b, p + 12, e),
        bone_count: read_u16(b, p + 14, e),
    }
}

impl Record for Submesh {
    open spec fn record_size() -> int {
        16
    }

    open spec fn is_at(r: Submesh, b: Seq<u8>, p: int, e: Endian) -> bool {
        is_submesh_at(r, b, p, e)
    }

    fn size() -> (n: usize) {
        16
    }

    fn read_at(b: &[u8], p: usize, e: Endian) -> (r: Submesh) {
        read_submesh(b, p, e)
    }
}

/// Whether `r` is a level of detail: its numbers in the order of its fields, with four bytes of padding after the polygon count, stored at `p` in `b` in the byte order `e`.
pub open spec fn is_mesh_lod_at(r: MeshLod, b: Seq<u8>, p: int, e: Endian) -> bool {
    &&& r.mesh_index == u16_at(b, p + 0, e)
    &&& r.mesh_count == u16_at(b, p + 2, e)
    &&& r.model_lod_range == u32_at(b, p + 4, e)
    &&& r.texture_lod_range == u32_at(b, p + 8, e)
    &&& r.water_mesh_index == u16_at(b, p + 12, e)
    &&& r.water_mesh_count == u16_at(b, p + 14, e)
    &&& r.shadow_mesh_index == u16_at(b, p + 16, e)
    &&& r.shadow_mesh_count == u16_at(b, p + 18, e)
    &&& r.terrain_shadow_mesh_count == u16_at(b, p + 20, e)
    &&& r.terrain_shadow_mesh_index == u16_at(b, p + 22, e)
    &&& r.vertical_fog_mesh_index == u16_at(b, p + 24, e)
    &&& r.vertical_fog_mesh_count == u16_at(b, p + 26, e)
    &&& r.edge_geometry_size == u32_at(b, p + 28, e)
    &&& r.edge_geometry_data_offset == u32_at(b, p + 32, e)
    &&& r.polygon_count == u32_at(b, p + 36, e)
    &&& r.vertex_buffer_size == u32_at(b, p + 44, e)
    &&& r.index_buffer_size == u32_at(b, p + 48, e)
    &&& r.vertex_data_offset == u32_at(b, p + 52, e)
    &&& r.index_data_offset == u32_at(b, p + 56, e)
}

impl Record for MeshLod {
    open spec fn record_size() -> int {
        60
    }

    open spec fn is_at(r: MeshLod, b: Seq<u8>, p: int, e: Endian) -> bool {
        is_mesh_lod_at(r, b, p, e)
    }

    fn size() -> (n: usize) {
        60
    }

    fn read_at(b: &[u8], p: usize, e: Endian) -> (r: MeshLod) {
        let _len = b.len();
        let r = MeshLod {
            mesh_index: read_u16(b, p + 0, e),
            mesh_count: read_u16(b, p + 2, e),
            model_lod_range: read_u32(b, p + 4, e),
            texture_lod_range: read_u32(b, p + 8, e),
            water_mesh_index: read_u16(b, p + 12, e),
            water_mesh_count: read_u16(b, p + 14, e),
            shadow_mesh_index: read_u16(b, p + 16, e),
            shadow_mesh_count: read_u16(b, p + 18, e),
            terrain_shadow_mesh_count: read_u16(b, p + 20, e),
            terrain_shadow_mesh_index: read_u16(b, p + 22, e),
            vertical_fog_mesh_index: read_u16(b, p + 24, e),
            vertical_fog_mesh_count: read_u16(b, p + 26, e),
            edge_geometry_size: read_u32(b, p + 28, e),
            edge_geometry_data_offset: read_u32(b, p + 32, e),
            polygon_count: read_u32(b, p + 36, e),
            vertex_buffer_size: read_u32(b, p + 44, e),
            index_buffer_size: read_u32(b, p + 48, e),
            vertex_data_offset: read_u32(b, p + 52, e),
            index_data_offset: read_u32(b, p + 56, e),
        };
        r
    }
}

/// Whether `r` is a mesh: its numbers in the order of its fields, with two bytes of padding after the vertex count, stored at `p` in `b` in the byte order `e`.
pub open spec fn is_mesh_at(r: Mesh, b: Seq<u8>, p: int, e: Endian) -> bool {
    &&& r.vertex_count == u16_at(b, p + 0, e)
    &&& r.index_count == u32_at(b, p + 4, e)
    &&& r.material_index == u16_at(b, p + 8, e)
    &&& r.submesh_index == u16_at(b, p + 10, e)
    &&& r.submesh_count == u16_at(b, p + 12, e)
    &&& r.bone_table_index == u16_at(b, p + 14, e)
    &&& r.start_index == u32_at(b, p + 16, e)
    &&& r.vertex_buffer_offsets@ == seq![u32_at(b, p + 20, e), u32_at(b, p + 24, e), u32_at(b, p + 28, e)]
    &&& r.vertex_buffer_strides@ == seq![b[p + 32], b[p + 33], b[p + 34]]
    &&& r.vertex_stream_count == b[p + 35]
}

impl Record for Mesh {
    open spec fn record_size() -> int {
        36
    }

    open spec fn is_at(r: Mesh, b: Seq<u8>, p: int, e: Endian) -> bool {
        is_mesh_at(r, b, p, e)
    }

    fn size() -> (n: usize) {
        36
    }

    fn read_at(b: &[u8], p: usize, e: Endian) -> (r: Mesh) {
        let _len = b.len();
        let r = Mesh {
            vertex_count: read_u16(b, p + 0, e),
            index_count: read_u32(b, p + 4, e),
            material_index: read_u16(b, p + 8, e),
            submesh_index: read_u16(b, p + 10, e),
            submesh_count: read_u16(b, p + 12, e),
            bone_table_index: read_u16(b, p + 14, e),
            start_index: read_u32(b, p + 16, e),
            vertex_buffer_offsets: [read_u32(b, p + 20, e), read_u32(b, p + 24, e), read_u32(b, p + 28, e)],
            vertex_buffer_strides: [b[p + 32], b[p + 33], b[p + 34]],
            vertex_stream_count: b[p + 35],
        };
        r
    }
}

/// Whether `r` is an element id, stored at `p` in `b` in the byte order `e`.
pub open spec fn is_element_id_at(r: ElementId, b: Seq<u8>, p: int, e: Endian) -> bool {
    &&& r.element_id == u32_at(b, p + 0, e)
    &&& r.parent_bone_name == u32_at(b, p + 4, e)
    &&& r.translate@ == seq![u32_at(b, p + 8, e), u32_at(b, p + 12, e), u32_at(b, p + 16, e)]
    &&& r.rotate@ == seq![u32_at(b, p + 20, e), u32_at(b, p + 24, e), u32_at(b, p + 28, e)]
}

impl Record for ElementId {
    open spec fn record_size() -> int {
        32
    }

    open spec fn is_at(r: ElementId, b: Seq<u8>, p: int, e: Endian) -> bool {
        is_element_id_at(r, b, p, e)
    }

    fn size() -> (n: usize) {
        32
    }

    fn read_at(b: &[u8], p: usize, e: Endian) -> (r: ElementId) {
        let _len = b.len();
        let r = ElementId {
            element_id: read_u32(b, p + 0, e),
            parent_bone_name: read_u32(b, p + 4, e),
            translate: [read_u32(b, p + 8, e), read_u32(b, p + 12, e), read_u32(b, p + 16, e)],
            rotate: [read_u32(b, p + 20, e), read_u32(b, p + 24, e), read_u32(b, p + 28, e)],
        };
        r
    }
}

/// Whether `r` is a terrain shadow mesh, stored at `p` in `b` in the byte order `e`.
pub open spec fn is_terrain_shadow_mesh_at(r: TerrainShadowMesh, b: Seq<u8>, p: int, e: Endian) -> bool {
    &&& r.index_count == u32_at(b, p + 0, e)
    &&& r.start_index == u32_at(b, p + 4, e)
    &&& r.vertex_buffer_offset == u32_at(b, p + 8, e)
    &&& r.vertex_count == u16_at(b, p + 12, e)
    &&& r.submesh_index == u16_at(b, p + 14, e)
    &&& r.submesh_count == u16_at(b, p + 16, e)
    &&& r.vertex_buffer_stride == b[p + 18]
    &&& r.padding == b[p + 19]
}

impl Record for TerrainShadowMesh {
    open spec fn record_size() -> int {
        20
    }

    open spec fn is_at(r: TerrainShadowMesh, b: Seq<u8>, p: int, e: Endian) -> bool {
        is_terrain_shadow_mesh_at(r, b, p, e)
    }

    fn size() -> (n: usize) {
        20
    }

    fn read_at(b: &[u8], p: usize, e: Endian) -> (r: TerrainShadowMesh) {
        let _len = b.len();
        let r = TerrainShadowMesh {
            index_count: read_u32(b, p + 0, e),
            start_index: read_u32(b, p + 4, e),
            vertex_buffer_offset: read_u32(b, p + 8, e),
            vertex_count: read_u16(b, p + 12, e),
            submesh_index: read_u16(b, p + 14, e),
            submesh_count: read_u16(b, p + 16, e),
            vertex_buffer_stride: b[p + 18],
            padding: b[p + 19],
        };
        r
    }
}

/// Whether `r` is a terrain shadow submesh, stored at `p` in `b` in the byte order `e`.
pub open spec fn is_terrain_shadow_submesh_at(r: TerrainShadowSubmesh, b: Seq<u8>, p: int, e: Endian) -> bool {
    &&& r.index_offset == u32_at(b, p + 0, e)
    &&& r.index_count == u32_at(b, p + 4, e)
    &&& r.unknown1 == u16_at(b, p + 8, e)
    &&& r.unknown2 == u16_at(b, p + 10, e)
}

impl Record for TerrainShadowSubmesh {
    open spec fn record_size() -> int {
        12
    }

    open spec fn is_at(r: TerrainShadowSubmesh, b: Seq<u8>, p: int, e: Endian) -> bool {
        is_terrain_shadow_submesh_at(r, b, p, e)
    }

    fn size() -> (n: usize) {
        12
    }

    fn read_at(b: &[u8], p: usize, e: Endian) -> (r: TerrainShadowSubmesh) {
        let _len = b.len();
        let r = TerrainShadowSubmesh {
            index_offset: read_u32(b, p + 0, e),
            index_count: read_u32(b, p + 4, e),
            unknown1: read_u16(b, p + 8, e),
            unknown2: read_u16(b, p + 10, e),
        };
        r
    }
}

/// Whether `r` is a shape, stored at `p` in `b` in the byte order `e`.
pub open spec fn is_shape_struct_at(r: ShapeStruct, b: Seq<u8>, p: int, e: Endian) -> bool {
    &&& r.string_offset == u32_at(b, p + 0, e)
    &&& r.shape_mesh_start_index@ == seq![u16_at(b, p + 4, e), u16_at(b, p + 6, e), u16_at(b, p + 8, e)]
    &&& r.shape_mesh_count@ == seq![u16_at(b, p + 10, e), u16_at(b, p + 12, e), u16_at(b, p + 14, e)]
}

impl Record for ShapeStruct {
    open spec fn record_size() -> int {
        16
    }

    open spec fn is_at(r: ShapeStruct, b: Seq<u8>, p: int, e: Endian) -> bool {
        is_shape_struct_at(r, b, p, e)
    }

    fn size() -> (n: usize) {
        16
    }

    fn read_at(b: &[u8], p: usize, e: Endian) -> (r: ShapeStruct) {
        let _len = b.len();
        let r = ShapeStruct {
            string_offset: read_u32(b, p + 0, e),
            shape_mesh_start_index: [read_u16(b, p + 4, e), read_u16(b, p + 6, e), read_u16(b, p + 8, e)],
            shape_mesh_count: [read_u16(b, p + 10, e), read_u16(b, p + 12, e), read_u16(b, p + 14, e)],
        };
        r
    }
}

/// Whether `r` is a shape mesh, stored at `p` in `b` in the byte order `e`.
pub open spec fn is_shape_mesh_at(r: ShapeMesh, b: Seq<u8>, p: int, e: Endian) -> bool {
    &&& r.mesh_index_offset == u32_at(b, p + 0, e)
    &&& r.shape_value_count == u32_at(b, p + 4, e)
    &&& r.shape_value_offset == u32_at(b, p + 8, e)
}

impl Record for ShapeMesh {
    open spec fn record_size() -> int {
        12
    }

    open spec fn is_at(r: ShapeMesh, b: Seq<u8>, p: int, e: Endian) -> bool {
        is_shape_mesh_at(r, b, p, e)
    }

    fn size() -> (n: usize) {
        12
    }

    fn read_at(b: &[u8], p: usize, e: Endian) -> (r: ShapeMesh) {
        let _len = b.len();
        let r = ShapeMesh {
            mesh_index_offset: read_u32(b, p + 0, e),
            shape_value_count: read_u32(b, p + 4, e),
            shape_value_offset: read_u32(b, p + 8, e),
        };
        r
    }
}

/// Whether `r` is a shape value, stored at `p` in `b` in the byte order `e`.
pub open spec fn is_shape_value_at(r: ShapeValue, b: Seq<u8>, p: int, e: Endian) -> bool {
    &&& r.base_indices_index == u16_at(b, p + 0, e)
    &&& r.replacing_vertex_index == u16_at(b, p + 2, e)
}

impl Record for ShapeValue {
    open spec fn record_size() -> int {
        4
    }

    open spec fn is_at(r: ShapeValue, b: Seq<u8>, p: int, e: Endian) -> bool {
        is_shape_value_at(r, b, p, e)
    }

    fn size() -> (n: usize) {
        4
    }

    fn read_at(b: &[u8], p: usize, e: Endian) -> (r: ShapeValue) {
        let _len = b.len();
        let r = ShapeValue {
            base_indices_index: read_u16(b, p + 0, e),
            replacing_vertex_index: read_u16(b, p + 2, e),
        };
        r
    }
}

/// Whether `r` is a bounding box, stored at `p` in `b` in the byte order `e`.
pub open spec fn is_bounding_box_at(r: BoundingBox, b: Seq<u8>, p: int, e: Endian) -> bool {
    &&& r.min@ == seq![u32_at(b, p + 0, e), u32_at(b, p + 4, e), u32_at(b, p + 8, e), u32_at(b, p + 12, e)]
    &&& r.max@ == seq![u32_at(b, p + 16, e), u32_at(b, p + 20, e), u32_at(b, p + 24, e), u32_at(b, p + 28, e)]
}

impl Record for BoundingBox {
    open spec fn record_size() -> int {
        32
    }

    open spec fn is_at(r: BoundingBox, b: Seq<u8>, p: int, e: Endian) -> bool {
        is_bounding_box_at(r, b, p, e)
    }

    fn size() -> (n: usize) {
        32
    }

    fn read_at(b: &[u8], p: usize, e: Endian) -> (r: BoundingBox) {
        let _len = b.len();
        let r = BoundingBox {
            min: [read_u32(b, p + 0, e), read_u32(b, p + 4, e), read_u32(b, p + 8, e), read_u32(b, p + 12, e)],
            max: [read_u32(b, p + 16, e), read_u32(b, p + 20, e), read_u32(b, p + 24, e), read_u32(b, p + 28, e)],
        };
        r
    }
}

/// Whether `r` is a bone table of the older layout: sixty-four bone indices, the count and three bytes of padding, stored at `p` in `b` in the byte order `e`.
pub open spec fn is_bone_table_at(r: BoneTable, b: Seq<u8>, p: int, e: Endian) -> bool {
    &&& r.bone_indices@ == Seq::new(64, |i: int| u16_at(b, p + 0 + 2 * i, e))
    &&& r.bone_count == b[p + 128]
}

impl Record for BoneTable {
    open spec fn record_size() -> int {
        132
    }

    open spec fn is_at(r: BoneTable, b: Seq<u8>, p: int, e: Endian) -> bool {
        is_bone_table_at(r, b, p, e)
    }

    fn size() -> (n: usize) {
        132
    }

    fn read_at(b: &[u8], p: usize, e: Endian) -> (r: BoneTable) {
        let _len = b.len();
        let r = BoneTable {
            bone_indices: read_u16_array_64(b, p + 0, e),
            bone_count: b[p + 128],
        };
        r
    }
}

/// Reads sixty-four numbers of sixteen bits stored one after the other from `p`.
fn read_u16_array_64(b: &[u8], p: usize, e: Endian) -> (r: [u16; 64])
    requires
        p + 128 <= b@.len(),
    ensures
        r@ == Seq::new(64, |i: int| u16_at(b@, p + 2 * i, e)),
{
    let _len = b.len();
    let mut r: [u16; 64] = [0u16; 64];
    let mut i: usize = 0;
    while i < 64
        invariant
            i <= 64,
            p + 128 <= b@.len(),
            b@.len() <= usize::MAX,
            forall|k: int| 0 <= k < i ==> #[trigger] r@[k] == u16_at(b@, p + 2 * k, e),
        decreases 64 - i,
    {
        r[i] = read_u16(b, p + 2 * i, e);
        i = i + 1;
    }
    assert(r@ =~= Seq::new(64, |i: int| u16_at(b@, p + 2 * i, e)));
    r
}

impl Record for u32 {
    open spec fn record_size() -> int {
        4
    }

    open spec fn is_at(r: u32, b: Seq<u8>, p: int, e: Endian) -> bool {
        r == u32_at(b, p, e)
    }

    fn size() -> (n: usize) {
        4
    }

    fn read_at(b: &[u8], p: usize, e: Endian) -> (r: u32) {
        read_u32(b, p, e)
    }
}

impl Record for u16 {
    open spec fn record_size() -> int {
        2
    }

    open spec fn is_at(r: u16, b: Seq<u8>, p: int, e: Endian) -> bool {
        r == u16_at(b, p, e)
    }

    fn size() -> (n: usize) {
        2
    }

    fn read_at(b: &[u8], p: usize, e: Endian) -> (r: u16) {
        read_u16(b, p, e)
    }
}

impl Record for u8 {
    open spec fn record_size() -> int {
        1
    }

    open spec fn is_at(r: u8, b: Seq<u8>, p: int, e: Endian) -> bool {
        r == b[p]
    }

    fn size() -> (n: usize) {
        1
    }

    fn read_at(b: &[u8], p: usize, e: Endian) -> (r: u8) {
        b[p]
    }
}

/// Reads `count` numbers of sixteen bits stored one after the other from `p`.
pub fn take_u16s(b: &[u8], p: usize, count: usize, e: Endian) -> (r: Vec<u16>)
    requires
        p + 2 * count <= b@.len(),
    ensures
        r@ == Seq::new(count as nat, |k: int| u16_at(b@, p + 2 * k, e)),
{
    let v = read_records::<u16>(b, p, count, e);
    assert(v@ =~= Seq::new(count as nat, |k: int| u16_at(b@, p + 2 * k, e))) by {
        assert forall|k: int| 0 <= k < count implies v@[k] == u16_at(b@, p + 2 * k, e) by {
            assert(<u16 as Record>::is_at(v@[k], b@, p + 2 * k, e));
        }
    }
    v
}

} // verus!
