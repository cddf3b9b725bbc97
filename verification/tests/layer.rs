use physis::layer::collision::{read_collision_attributes, write_collision_attributes};
use physis::layer::string_heap::write_string;
use physis::layer::{
    CollisionAttributes, GameObjectInstanceObject, HeapString, LayerEntryData, LayerEntryType,
    LayerHeader, LayerSetReferencedType, StringHeap, TreasureInstanceObject,
    VolumetricCloudInstanceObject,
};
use physis::bytes::Endian;

#[test]
fn test_layerheader_size() {
    assert_eq!(LayerHeader::SIZE, 0x34);
}

#[test]
fn default_layer_is_in_every_layer_set() {
    let header = LayerHeader::default();
    assert!(header.active);
    assert!(header.has_layer_set(340));
}

#[test]
fn layer_sets_included_and_excluded() {
    let mut header = LayerHeader::default();
    header.layer_set_referenced_list.referenced_type = LayerSetReferencedType::Include;
    header.layer_set_referenced_list.layer_set_ids = vec![1, 5];
    assert!(header.has_layer_set(5));
    assert!(!header.has_layer_set(2));
    header.layer_set_referenced_list.referenced_type = LayerSetReferencedType::Exclude;
    assert!(!header.has_layer_set(5));
    assert!(header.has_layer_set(2));
    header.layer_set_referenced_list.referenced_type = LayerSetReferencedType::Undetermined;
    assert!(!header.has_layer_set(2));
}

#[test]
fn layer_entry_numbers() {
    assert_eq!(LayerEntryType::VolumetricCloud.number(), 93);
    assert_eq!(LayerEntryType::from_number(45), Some(LayerEntryType::EventObject));
    assert_eq!(LayerEntryType::from_number(2), None);
}

#[test]
fn string_heap_offsets() {
    let mut heap = StringHeap::from(16);
    let first = heap.get_free_offset_string(&"abc".to_string());
    let second = heap.get_free_offset_string(&"de".to_string());
    assert_eq!(first, 0);
    assert_eq!(second, 4);
    assert_eq!(heap.free_pos, 7);
    assert_eq!(heap.bytes, b"abc\0de\0".to_vec());
    assert_eq!(write_string(&"x".to_string()), vec![b'x', 0]);

    let mut file = vec![0u8; 16];
    file.extend_from_slice(&heap.bytes);
    assert_eq!(heap.read_string(&file, 4), "de");
    let name = HeapString { value: heap.read_string(&file, 0) };
    assert_eq!(name.value, "abc");
}

#[test]
fn collision_attributes_round_trip() {
    let attributes = CollisionAttributes { material_id: 0x1_0000_0002, material_mask: 0x3 };
    let mut little = Vec::new();
    write_collision_attributes(&mut little, &attributes, Endian::Little);
    assert_eq!(little.len(), 16);
    assert_eq!(&little[0..4], &[3, 0, 0, 0]);
    assert_eq!(&little[12..16], &[1, 0, 0, 0]);
    assert_eq!(read_collision_attributes(&little, 0, Endian::Little), Some((attributes, 16)));

    let small = CollisionAttributes { material_id: 7, material_mask: 9 };
    let mut big = Vec::new();
    write_collision_attributes(&mut big, &small, Endian::Big);
    assert_eq!(big, vec![0, 0, 0, 9, 0, 0, 0, 7]);
    assert_eq!(read_collision_attributes(&big, 0, Endian::Big), Some((small, 8)));
    assert_eq!(read_collision_attributes(&big, 1, Endian::Big), None);
}

#[test]
fn entry_data_gives_its_kind() {
    assert_eq!(LayerEntryType::from(&LayerEntryData::Unknown), LayerEntryType::Unknown);
    let treasure = LayerEntryData::Treasure(TreasureInstanceObject {
        parent_data: GameObjectInstanceObject { base_id: 7 },
    });
    assert_eq!(LayerEntryType::from(&treasure), LayerEntryType::Treasure);
    assert_eq!(LayerEntryType::from(&treasure).number(), 16);
    let cloud = LayerEntryData::VolumetricCloud(VolumetricCloudInstanceObject {
        asset_path: HeapString { value: "a.cldb".to_string() },
        active: true,
        unk1: [0, 0, 0],
        unk2: 0,
    });
    assert_eq!(LayerEntryType::from(&cloud), LayerEntryType::VolumetricCloud);
    assert_eq!(LayerEntryType::from(&cloud).number(), 93);
    assert_eq!(LayerEntryType::from(&LayerEntryData::NaviMeshRange()), LayerEntryType::NaviMeshRange);
    assert_eq!(LayerEntryType::from(&LayerEntryData::Unk92()).number(), 92);
}
