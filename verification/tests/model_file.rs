use physis::Platform;
use physis::model::MDL;

fn put_u16(b: &mut Vec<u8>, at: usize, v: u16) {
    b[at..at + 2].copy_from_slice(&v.to_le_bytes());
}

fn put_u32(b: &mut Vec<u8>, at: usize, v: u32) {
    b[at..at + 4].copy_from_slice(&v.to_le_bytes());
}

/// A small model: one level with one mesh of two vertices (a stride of twelve bytes) drawn
/// with three indices, one bone and one material.
fn small_model() -> Vec<u8> {
    let mut b = vec![0u8; 712];
    // file header
    put_u32(&mut b, 0, 0x0100_0005);
    put_u16(&mut b, 12, 1);
    put_u16(&mut b, 14, 1);
    put_u32(&mut b, 28, 706);
    b[64] = 1;
    // one vertex declaration: a position, then the end marker
    b[68] = 0;
    b[69] = 0;
    b[70] = 2;
    b[71] = 0;
    b[76] = 0xFF;
    b[78] = 0;
    b[79] = 0;
    // string table
    put_u16(&mut b, 204, 2);
    put_u32(&mut b, 208, 9);
    b[212..221].copy_from_slice(b"bone\0mat\0");
    // model header numbers
    let r = 221;
    put_u16(&mut b, r + 4, 1); // meshes
    put_u16(&mut b, r + 8, 1); // submeshes
    put_u16(&mut b, r + 10, 1); // materials
    put_u16(&mut b, r + 12, 1); // bones
    b[r + 22] = 1; // levels
    // level 0
    let lod = 277;
    put_u16(&mut b, lod, 0);
    put_u16(&mut b, lod + 2, 1);
    put_u32(&mut b, lod + 52, 682);
    put_u32(&mut b, lod + 56, 706);
    // mesh 0
    let mesh = 457;
    put_u16(&mut b, mesh, 2);
    put_u32(&mut b, mesh + 4, 3);
    put_u16(&mut b, mesh + 10, 0);
    put_u16(&mut b, mesh + 12, 1);
    b[mesh + 32] = 12;
    b[mesh + 35] = 1;
    // submesh 0
    put_u32(&mut b, 493, 0);
    put_u32(&mut b, 497, 3);
    // material name offset, bone name offset
    put_u32(&mut b, 509, 5);
    put_u32(&mut b, 513, 0);
    // submesh bone map size (0), padding count (0), bounding boxes: already zero
    // vertices
    for k in 0..24 {
        b[682 + k] = k as u8;
    }
    // indices
    put_u16(&mut b, 706, 0);
    put_u16(&mut b, 708, 1);
    put_u16(&mut b, 710, 2);
    b
}

#[test]
fn read_small_model() {
    let bytes = small_model();
    let mdl = MDL::from_existing(Platform::Win32, &bytes).unwrap();
    assert_eq!(mdl.file_header.version, 0x0100_0005);
    assert_eq!(mdl.file_header.lod_count, 1);
    assert_eq!(mdl.affected_bone_names, vec!["bone".to_string()]);
    assert_eq!(mdl.material_names, vec!["mat".to_string()]);
    assert_eq!(mdl.model_data.header.vertex_declarations.len(), 1);
    assert_eq!(mdl.model_data.meshes.len(), 1);
    assert_eq!(mdl.model_data.meshes[0].vertex_count, 2);
    assert_eq!(mdl.lods.len(), 1);
    assert_eq!(mdl.lods[0].parts.len(), 1);
    let part = &mdl.lods[0].parts[0];
    assert_eq!(part.indices, vec![0, 1, 2]);
    assert_eq!(part.vertex_streams.len(), 1);
    assert_eq!(part.vertex_streams[0], (0u8..24).collect::<Vec<u8>>());
    assert_eq!(part.vertex_stream_strides, vec![12]);
    assert_eq!(part.submeshes.len(), 1);
    assert_eq!(part.submeshes[0].index_count, 3);
    assert!(part.vertices.is_empty());
}

#[test]
fn read_truncated_model() {
    let bytes = small_model();
    assert!(MDL::from_existing(Platform::Win32, &bytes[..700]).is_none());
    assert!(MDL::from_existing(Platform::Win32, &bytes[..40]).is_none());
}

#[test]
fn read_model_with_unterminated_name() {
    let mut bytes = small_model();
    // the material name offset now points past the string table's last zero byte
    put_u32(&mut bytes, 509, 9);
    assert!(MDL::from_existing(Platform::Win32, &bytes).is_none());
}

#[test]
fn update_small_model_headers() {
    let bytes = small_model();
    let mut mdl = MDL::from_existing(Platform::Win32, &bytes).unwrap();
    mdl.update_headers();
    assert_eq!(mdl.file_header.stack_size, 136);
    let lod = &mdl.model_data.lods[0];
    assert_eq!(lod.vertex_buffer_size, 24);
    assert_eq!(lod.index_buffer_size, 16);
    assert_eq!(lod.index_data_offset, lod.vertex_data_offset + 24);
    assert_eq!(mdl.file_header.vertex_offsets[0], lod.vertex_data_offset);
    assert_eq!(mdl.file_header.index_offsets[0], lod.index_data_offset);
    assert_eq!(mdl.file_header.vertex_buffer_size[0], 24);
    assert_eq!(mdl.file_header.index_buffer_size[0], 16);
    assert_eq!(
        lod.vertex_data_offset,
        68 + mdl.file_header.stack_size + mdl.file_header.runtime_size
    );
}

#[test]
fn write_small_model() {
    let bytes = small_model();
    let mdl = MDL::from_existing(Platform::Win32, &bytes).unwrap();
    let out = mdl.write_to_buffer(Platform::Win32).unwrap();
    // the headers and the data up to the submesh bone map are written as they were read
    assert_eq!(out[..517], bytes[..517]);
    // both forms of the map size are written, so what follows moves by two bytes
    assert_eq!(out[517..523], [0, 0, 0, 0, 0, 0]);
    // the vertex stream and the indices go where the headers place them
    assert_eq!(out.len(), 712);
    assert_eq!(out[682..706], bytes[682..706]);
    assert_eq!(out[706..712], [0, 0, 1, 0, 2, 0]);
}

#[test]
fn write_places_indices_past_the_end() {
    let bytes = small_model();
    let mut mdl = MDL::from_existing(Platform::Win32, &bytes).unwrap();
    mdl.file_header.index_offsets[0] = 800;
    let out = mdl.write_to_buffer(Platform::Win32).unwrap();
    assert_eq!(out.len(), 806);
    assert!(out[712..800].iter().all(|&x| x == 0));
    assert_eq!(out[800..806], [0, 0, 1, 0, 2, 0]);
}
