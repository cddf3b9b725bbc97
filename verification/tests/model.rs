use physis::model::vertex_declarations::{
    vertex_element_parser, vertex_element_writer, DECLARATION_SIZE,
};
use physis::model::{
    ModelFileHeader, VertexDeclaration, VertexElement, VertexType, VertexUsage, VERTEX_ELEMENT_SIZE,
};
use std::mem::size_of;

#[test]
fn test_file_header_size() {
    assert_eq!(0x44, size_of::<ModelFileHeader>());
}

#[test]
fn test_vertex_element_size() {
    assert_eq!(8, VERTEX_ELEMENT_SIZE);
}

#[test]
fn test_stack_size() {
    let example_header = ModelFileHeader {
        version: 0,
        stack_size: 0,
        runtime_size: 0,
        vertex_declaration_count: 6,
        material_count: 0,
        vertex_offsets: [0; 3],
        index_offsets: [0; 3],
        vertex_buffer_size: [0; 3],
        index_buffer_size: [0; 3],
        lod_count: 0,
        index_buffer_streaming_enabled: false,
        has_edge_geometry: false,
    };

    assert_eq!(816, example_header.calculate_stack_size());

    let example_header2 = ModelFileHeader {
        version: 0,
        stack_size: 0,
        runtime_size: 0,
        vertex_declaration_count: 2,
        material_count: 0,
        vertex_offsets: [0; 3],
        index_offsets: [0; 3],
        vertex_buffer_size: [0; 3],
        index_buffer_size: [0; 3],
        lod_count: 0,
        index_buffer_streaming_enabled: false,
        has_edge_geometry: false,
    };

    assert_eq!(272, example_header2.calculate_stack_size());
}

#[test]
fn vertex_declarations_read_back() {
    let declarations = vec![
        VertexDeclaration {
            elements: vec![
                VertexElement {
                    stream: 0,
                    offset: 0,
                    vertex_type: VertexType::Single3,
                    vertex_usage: VertexUsage::Position,
                    usage_index: 0,
                },
                VertexElement {
                    stream: 1,
                    offset: 12,
                    vertex_type: VertexType::Half4,
                    vertex_usage: VertexUsage::UV,
                    usage_index: 1,
                },
            ],
        },
        VertexDeclaration {
            elements: vec![VertexElement {
                stream: 0,
                offset: 0,
                vertex_type: VertexType::Byte4,
                vertex_usage: VertexUsage::Color,
                usage_index: 0,
            }],
        },
    ];
    let mut bytes = Vec::new();
    vertex_element_writer(&mut bytes, &declarations);
    assert_eq!(bytes.len(), 2 * DECLARATION_SIZE);
    assert_eq!(&bytes[0..8], &[0, 0, 2, 0, 0, 0, 0, 0]);
    assert_eq!(&bytes[8..16], &[1, 12, 14, 4, 1, 0, 0, 0]);
    assert_eq!(bytes[16], 0xFF);
    let (read, next) = vertex_element_parser(&bytes, 0, 2).unwrap();
    assert_eq!(next, 2 * DECLARATION_SIZE);
    assert_eq!(read, declarations);
}

#[test]
fn vertex_declaration_with_unknown_type_is_refused() {
    let mut bytes = vec![0u8; DECLARATION_SIZE];
    bytes[2] = 4; // no vertex type has the number 4
    assert!(vertex_element_parser(&bytes, 0, 1).is_none());
}
