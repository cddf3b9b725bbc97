//! Models (MDL files): their headers, the integer structure of their data (levels of detail,
//! meshes, submeshes, shapes, bone tables), how the sizes and offsets in the headers follow
//! from it, and how vertex declarations are stored. Float values are kept as the bits the file
//! stores.
use vstd::prelude::*;

pub mod data;
pub mod file_header;
pub mod headers;
pub mod mdl;
pub mod read;
pub mod vertex_declarations;
pub mod write;
pub mod write_mdl;
pub mod write_law;

pub use vertex_declarations::{
    VertexDeclaration, VertexElement, VertexType, VertexUsage, VERTEX_ELEMENT_SIZE,
};

verus! {

/// How many vertex elements a vertex declaration has room for.
pub const NUM_VERTICES: u32 = 17;

/// The header of a model file.
#[derive(Debug, Clone, PartialEq)]
pub struct ModelFileHeader {
    /// The version of the format.
    pub version: u32,
    /// The size of the stack the model needs.
    pub stack_size: u32,
    /// The size of the model data at run time.
    pub runtime_size: u32,
    /// How many vertex declarations the model has.
    pub vertex_declaration_count: u16,
    /// How many materials the model has.
    pub material_count: u16,
    /// Where the vertices of each level of detail are.
    pub vertex_offsets: [u32; 3],
    /// Where the indices of each level of detail are.
    pub index_offsets: [u32; 3],
    /// The size of the vertices of each level of detail.
    pub vertex_buffer_size: [u32; 3],
    /// The size of the indices of each level of detail.
    pub index_buffer_size: [u32; 3],
    /// How many levels of detail the model has.
    pub lod_count: u8,
    /// Whether index buffers are streamed.
    pub index_buffer_streaming_enabled: bool,
    /// Whether the model has edge geometry.
    pub has_edge_geometry: bool,
}

impl ModelFileHeader {
    /// The size of the stack the model needs: room for every vertex element of every vertex
    /// declaration.
    pub fn calculate_stack_size(&self) -> (r: u32)
        ensures
            r == self.vertex_declaration_count * NUM_VERTICES * VERTEX_ELEMENT_SIZE,
    {
        let count = self.vertex_declaration_count as u32;
        assert(count * 17 * 8 <= 65535 * 17 * 8) by (nonlinear_arith)
            requires
                count <= 65535,
        ;
        count * NUM_VERTICES * VERTEX_ELEMENT_SIZE as u32
    }
}

/// A part of a mesh, drawn with a range of its indices.
#[derive(Debug, Clone, PartialEq, Eq, Structural)]
pub struct SubMesh {
    /// The submesh it is.
    pub submesh_index: usize,
    /// How many indices it draws.
    pub index_count: u32,
    /// Where its indices start.
    pub index_offset: u32,
}


/// The eight values of a bounding box, as the bits of their floats.
#[derive(Debug, Clone, Copy)]
pub struct BoundingBox {
    /// The minimum corner.
    pub min: [u32; 4],
    /// The maximum corner.
    pub max: [u32; 4],
}

/// The general header of a model's data. Float values are kept as their bits.
#[derive(Debug, Clone)]
pub struct ModelHeader {
    /// The vertex declarations.
    pub vertex_declarations: Vec<VertexDeclaration>,
    /// How many strings there are.
    pub string_count: u16,
    /// The size of the string table.
    pub string_size: u32,
    /// The string table.
    pub strings: Vec<u8>,
    /// The radius of the model.
    pub radius: u32,
    /// How many meshes there are.
    pub mesh_count: u16,
    /// How many attributes there are.
    pub attribute_count: u16,
    /// How many submeshes there are.
    pub submesh_count: u16,
    /// How many materials there are.
    pub material_count: u16,
    /// How many bones there are.
    pub bone_count: u16,
    /// How many bone tables there are.
    pub bone_table_count: u16,
    /// How many shapes there are.
    pub shape_count: u16,
    /// How many shape meshes there are.
    pub shape_mesh_count: u16,
    /// How many shape values there are.
    pub shape_value_count: u16,
    /// How many levels of detail there are.
    pub lod_count: u8,
    /// The first flags.
    pub flags1: u8,
    /// How many element ids there are.
    pub element_id_count: u16,
    /// How many terrain shadow meshes there are.
    pub terrain_shadow_mesh_count: u8,
    /// The second flags.
    pub flags2: u8,
    /// The distance the model is clipped at.
    pub model_clip_out_of_distance: u32,
    /// The distance the shadow is clipped at.
    pub shadow_clip_out_of_distance: u32,
    /// Not known.
    pub unknown4: u16,
    /// How many terrain shadow submeshes there are.
    pub terrain_shadow_submesh_count: u16,
    /// Not known.
    pub unknown5: u8,
    /// The material index for background changes.
    pub bg_change_material_index: u8,
    /// The material index for crest changes.
    pub bg_crest_change_material_index: u8,
    /// Not known.
    pub unknown6: u8,
    /// Not known.
    pub unknown7: u16,
    /// Not known.
    pub unknown8: u16,
    /// Not known.
    pub unknown9: u16,
}

/// A level of detail: which meshes it draws, and where and how large its buffers are. The
/// level ranges are kept as the bits of their floats.
#[derive(Debug, Clone, Copy)]
pub struct MeshLod {
    /// The first mesh.
    pub mesh_index: u16,
    /// How many meshes.
    pub mesh_count: u16,
    /// The model level range.
    pub model_lod_range: u32,
    /// The texture level range.
    pub texture_lod_range: u32,
    /// The first water mesh.
    pub water_mesh_index: u16,
    /// How many water meshes.
    pub water_mesh_count: u16,
    /// The first shadow mesh.
    pub shadow_mesh_index: u16,
    /// How many shadow meshes.
    pub shadow_mesh_count: u16,
    /// How many terrain shadow meshes.
    pub terrain_shadow_mesh_count: u16,
    /// The first terrain shadow mesh.
    pub terrain_shadow_mesh_index: u16,
    /// The first vertical fog mesh.
    pub vertical_fog_mesh_index: u16,
    /// How many vertical fog meshes.
    pub vertical_fog_mesh_count: u16,
    /// The size of the edge geometry.
    pub edge_geometry_size: u32,
    /// Where the edge geometry is.
    pub edge_geometry_data_offset: u32,
    /// How many polygons.
    pub polygon_count: u32,
    /// The size of the vertex buffer.
    pub vertex_buffer_size: u32,
    /// The size of the index buffer.
    pub index_buffer_size: u32,
    /// Where the vertices are.
    pub vertex_data_offset: u32,
    /// Where the indices are.
    pub index_data_offset: u32,
}

/// A mesh: its vertices and indices, and where its vertex streams are.
#[derive(Debug, Clone, Copy)]
pub struct Mesh {
    /// How many vertices.
    pub vertex_count: u16,
    /// How many indices.
    pub index_count: u32,
    /// The material.
    pub material_index: u16,
    /// The first submesh.
    pub submesh_index: u16,
    /// How many submeshes.
    pub submesh_count: u16,
    /// The bone table.
    pub bone_table_index: u16,
    /// Where the indices start.
    pub start_index: u32,
    /// Where each vertex stream starts.
    pub vertex_buffer_offsets: [u32; 3],
    /// The stride of each vertex stream.
    pub vertex_buffer_strides: [u8; 3],
    /// How many vertex streams.
    pub vertex_stream_count: u8,
}

/// A submesh, as the file stores it.
#[derive(Debug, Clone, Copy)]
pub struct Submesh {
    /// Where its indices start.
    pub index_offset: u32,
    /// How many indices.
    pub index_count: u32,
    /// The attribute mask.
    pub attribute_index_mask: u32,
    /// The first bone.
    pub bone_start_index: u16,
    /// How many bones.
    pub bone_count: u16,
}

/// A bone table of the older layout.
#[derive(Debug, Clone, Copy)]
pub struct BoneTable {
    /// The bones.
    pub bone_indices: [u16; 64],
    /// How many bones are used.
    pub bone_count: u8,
}

/// A bone table of the newer layout.
#[derive(Debug, Clone)]
pub struct BoneTableV2 {
    /// How many bones.
    pub bone_count: u16,
    /// The bones.
    pub bone_indices: Vec<u16>,
    /// The padding to four bytes.
    pub padding: u16,
}

/// A terrain shadow mesh.
#[derive(Debug, Clone, Copy)]
pub struct TerrainShadowMesh {
    /// How many indices.
    pub index_count: u32,
    /// Where the indices start.
    pub start_index: u32,
    /// Where the vertices start.
    pub vertex_buffer_offset: u32,
    /// How many vertices.
    pub vertex_count: u16,
    /// The first submesh.
    pub submesh_index: u16,
    /// How many submeshes.
    pub submesh_count: u16,
    /// The vertex stride.
    pub vertex_buffer_stride: u8,
    /// Padding.
    pub padding: u8,
}

/// A terrain shadow submesh.
#[derive(Debug, Clone, Copy)]
pub struct TerrainShadowSubmesh {
    /// Where its indices start.
    pub index_offset: u32,
    /// How many indices.
    pub index_count: u32,
    /// Not known.
    pub unknown1: u16,
    /// Not known.
    pub unknown2: u16,
}

/// A shape, as the file stores it.
#[derive(Debug, Clone, Copy)]
pub struct ShapeStruct {
    /// Where its name is.
    pub string_offset: u32,
    /// The first shape mesh of each level of detail.
    pub shape_mesh_start_index: [u16; 3],
    /// How many shape meshes each level of detail has.
    pub shape_mesh_count: [u16; 3],
}

/// A shape mesh.
#[derive(Debug, Clone, Copy)]
pub struct ShapeMesh {
    /// The offset of the mesh's indices.
    pub mesh_index_offset: u32,
    /// How many shape values.
    pub shape_value_count: u32,
    /// The first shape value.
    pub shape_value_offset: u32,
}

/// A shape value: an index and the vertex that replaces it.
#[derive(Debug, Clone, Copy)]
pub struct ShapeValue {
    /// The index that is replaced.
    pub base_indices_index: u16,
    /// The vertex that replaces it.
    pub replacing_vertex_index: u16,
}

/// An element id, with its translation and rotation as the bits of their floats.
#[derive(Debug, Clone, Copy)]
pub struct ElementId {
    /// The id.
    pub element_id: u32,
    /// The parent bone's name.
    pub parent_bone_name: u32,
    /// The translation.
    pub translate: [u32; 3],
    /// The rotation.
    pub rotate: [u32; 3],
}

/// The data of a model, as the file stores it.
#[derive(Debug, Clone)]
pub struct ModelData {
    /// The general header.
    pub header: ModelHeader,
    /// The element ids.
    pub element_ids: Vec<ElementId>,
    /// The three levels of detail.
    pub lods: Vec<MeshLod>,
    /// The meshes.
    pub meshes: Vec<Mesh>,
    /// Where the attribute names are.
    pub attribute_name_offsets: Vec<u32>,
    /// The terrain shadow meshes.
    pub terrain_shadow_meshes: Vec<TerrainShadowMesh>,
    /// The submeshes.
    pub submeshes: Vec<Submesh>,
    /// The terrain shadow submeshes.
    pub terrain_shadow_submeshes: Vec<TerrainShadowSubmesh>,
    /// Where the material names are.
    pub material_name_offsets: Vec<u32>,
    /// Where the bone names are.
    pub bone_name_offsets: Vec<u32>,
    /// The bone tables of the older layout.
    pub bone_tables: Vec<BoneTable>,
    /// The bone tables of the newer layout.
    pub bone_tables_v2: Vec<BoneTableV2>,
    /// The shapes.
    pub shapes: Vec<ShapeStruct>,
    /// The shape meshes.
    pub shape_meshes: Vec<ShapeMesh>,
    /// The shape values.
    pub shape_values: Vec<ShapeValue>,
    /// The size of the submesh bone map, in the older layout.
    pub submesh_bone_map_size: u32,
    /// The size of the submesh bone map, in the newer layout.
    pub submesh_bone_map_size_v2: u16,
    /// The submesh bone map.
    pub submesh_bone_map: Vec<u16>,
    /// How many bytes of padding follow.
    pub padding_amount: u8,
    /// The padding.
    pub unknown_padding: Vec<u8>,
    /// The bounding box.
    pub bounding_box: BoundingBox,
    /// The model's bounding box.
    pub model_bounding_box: BoundingBox,
    /// The water bounding box.
    pub water_bounding_box: BoundingBox,
    /// The vertical fog bounding box.
    pub vertical_fog_bounding_box: BoundingBox,
    /// The bounding box of each bone.
    pub bone_bounding_boxes: Vec<BoundingBox>,
}

/// A vertex, each value kept as the bits of its float.
#[derive(Debug, Clone, Copy)]
pub struct Vertex {
    /// The position.
    pub position: [u32; 3],
    /// The first texture coordinates.
    pub uv0: [u32; 2],
    /// The second texture coordinates.
    pub uv1: [u32; 2],
    /// The normal.
    pub normal: [u32; 3],
    /// The bitangent.
    pub bitangent: [u32; 4],
    /// The color.
    pub color: [u32; 4],
    /// The weight of each bone.
    pub bone_weight: [u32; 4],
    /// The bones.
    pub bone_id: [u8; 4],
}

/// A shape: its name and the vertices it moves.
#[derive(Debug, Clone)]
pub struct Shape {
    /// The name.
    pub name: String,
    /// The vertices.
    pub morphed_vertices: Vec<Vertex>,
}

/// A mesh of a level of detail, with its vertices and indices.
#[derive(Debug, Clone)]
pub struct Part {
    /// The mesh it is.
    pub mesh_index: u16,
    /// The vertices.
    pub vertices: Vec<Vertex>,
    /// The bytes of each vertex stream.
    pub vertex_streams: Vec<Vec<u8>>,
    /// The stride of each vertex stream.
    pub vertex_stream_strides: Vec<usize>,
    /// The indices.
    pub indices: Vec<u16>,
    /// The material.
    pub material_index: u16,
    /// The submeshes.
    pub submeshes: Vec<SubMesh>,
    /// The shapes.
    pub shapes: Vec<Shape>,
}

/// A level of detail: its parts.
#[derive(Debug, Clone)]
pub struct Lod {
    /// The parts.
    pub parts: Vec<Part>,
}

/// A model file, usually with the `.mdl` extension.
#[derive(Debug, Clone)]
pub struct MDL {
    /// The file header.
    pub file_header: ModelFileHeader,
    /// The model data.
    pub model_data: ModelData,
    /// The levels of detail.
    pub lods: Vec<Lod>,
    /// The names of the bones.
    pub affected_bone_names: Vec<String>,
    /// The names of the materials.
    pub material_names: Vec<String>,
}

} // verus!
