use physis::shpk::ShaderPackage;

#[test]
fn test_crc() {
    assert_eq!(ShaderPackage::crc("PASS_0"), 0xC5A5389C);
    assert_eq!(ShaderPackage::crc("DecodeDepthBuffer"), 0x2C6C023C);
}

#[test]
fn test_selector() {
    let selector = ShaderPackage::build_selector_from_all_keys(
        &[],
        &[
            ShaderPackage::crc("TransformViewSkin"),
            ShaderPackage::crc("GetAmbientLight_SH"),
            ShaderPackage::crc("GetReflectColor_Texture"),
            ShaderPackage::crc("GetAmbientOcclusion_None"),
            ShaderPackage::crc("ApplyDitherClipOff"),
        ],
        &[3756477356, 1556481461, 1111668802, 428675533],
        &[
            ShaderPackage::crc("Default"),
            ShaderPackage::crc("SUB_VIEW_MAIN"),
        ],
    );

    assert_eq!(selector, 0x1075AE91);
}

#[test]
fn crc_of_nothing_is_zero() {
    assert_eq!(ShaderPackage::crc(""), 0);
}

#[test]
fn selector_weighs_keys_by_powers_of_31() {
    assert_eq!(ShaderPackage::build_selector(&[]), 0);
    assert_eq!(ShaderPackage::build_selector(&[5]), 5);
    assert_eq!(ShaderPackage::build_selector(&[1, 2, 3]), 1 + 2 * 31 + 3 * 961);
    assert_eq!(ShaderPackage::build_selector(&[u32::MAX, 1]), u32::MAX.wrapping_add(31));
    assert_eq!(
        ShaderPackage::build_selector_from_keys(1, 2, 3, 4),
        1 + 2 * 31 + 3 * 961 + 4 * 29791
    );
}

fn push_u32(b: &mut Vec<u8>, x: u32) {
    b.extend_from_slice(&x.to_le_bytes());
}

fn push_u16(b: &mut Vec<u8>, x: u16) {
    b.extend_from_slice(&x.to_le_bytes());
}

/// A small package: one scalar parameter named through the strings, one system key, one node
/// with one pass, and one alias for that node.
fn small_package() -> Vec<u8> {
    let mut b = Vec::new();
    b.extend_from_slice(b"ShPk");
    push_u32(&mut b, 0x0D01); // version
    b.extend_from_slice(b"DX11");
    push_u32(&mut b, 0); // file length
    push_u32(&mut b, 0); // shader data offset
    push_u32(&mut b, 0); // strings offset, set below
    push_u32(&mut b, 0); // vertex shaders
    push_u32(&mut b, 0); // pixel shaders
    push_u32(&mut b, 8); // material parameters size
    push_u16(&mut b, 0); // material parameters
    push_u16(&mut b, 1); // has defaults
    push_u16(&mut b, 1); // scalar parameters
    push_u16(&mut b, 0);
    push_u16(&mut b, 0); // samplers
    push_u16(&mut b, 0); // textures
    push_u16(&mut b, 0); // uavs
    push_u16(&mut b, 0);
    push_u32(&mut b, 1); // system keys
    push_u32(&mut b, 0); // scene keys
    push_u32(&mut b, 0); // material keys
    push_u32(&mut b, 1); // nodes
    push_u32(&mut b, 1); // aliases
    assert_eq!(b.len(), 72);
    // two defaults
    push_u32(&mut b, 0x3F80_0000);
    push_u32(&mut b, 0);
    // one scalar parameter: id, name offset, name length, unknown, slot, size
    push_u32(&mut b, 7);
    push_u32(&mut b, 0);
    push_u16(&mut b, 9);
    push_u16(&mut b, 0);
    push_u16(&mut b, 3);
    push_u16(&mut b, 4);
    // one system key
    push_u32(&mut b, 0x1234);
    push_u32(&mut b, 0x5678);
    // the subview key defaults
    push_u32(&mut b, 11);
    push_u32(&mut b, 12);
    // one node: selector, pass count, pass indices, one system key, two subview keys, a pass
    push_u32(&mut b, 0xABCD);
    push_u32(&mut b, 1);
    b.extend_from_slice(&[0u8; 16]);
    push_u32(&mut b, 0x1234);
    push_u32(&mut b, 1);
    push_u32(&mut b, 2);
    push_u32(&mut b, 5);
    push_u32(&mut b, 6);
    push_u32(&mut b, 7);
    // one alias of node 0
    push_u32(&mut b, 0xEEEE);
    push_u32(&mut b, 0);
    // the strings
    let strings = b.len() as u32;
    b[20..24].copy_from_slice(&strings.to_le_bytes());
    b.extend_from_slice(b"g_Param\0\0");
    b
}

#[test]
fn small_package_is_read() {
    let p = ShaderPackage::from_existing(&small_package()).unwrap();
    assert_eq!(p.material_parameters_size, 8);
    assert!(p.vertex_shaders.is_empty());
    assert!(p.pixel_shaders.is_empty());
    assert_eq!(p.system_keys.len(), 1);
    assert_eq!(p.system_keys[0].id, 0x1234);
    assert_eq!(p.system_keys[0].default_value, 0x5678);
    assert_eq!(p.sub_view_key1_default, 11);
    assert_eq!(p.sub_view_key2_default, 12);
    assert_eq!(p.nodes.len(), 1);
    assert_eq!(p.nodes[0].selector, 0xABCD);
    assert_eq!(p.nodes[0].pass_count, 1);
    assert_eq!(p.nodes[0].system_keys, vec![0x1234]);
    assert_eq!(p.nodes[0].subview_keys, vec![1, 2]);
    assert_eq!(p.nodes[0].passes.len(), 1);
}

#[test]
fn nodes_are_found_by_selector_and_alias() {
    let p = ShaderPackage::from_existing(&small_package()).unwrap();
    assert_eq!(p.find_node(0xABCD).unwrap().selector, 0xABCD);
    assert_eq!(p.find_node(0xEEEE).unwrap().selector, 0xABCD);
    assert!(p.find_node(0x1111).is_none());
}

#[test]
fn package_that_ends_early_is_refused() {
    let b = small_package();
    assert!(ShaderPackage::from_existing(&b[..b.len() - 10]).is_none());
    assert!(ShaderPackage::from_existing(&b[..60]).is_none());
    assert!(ShaderPackage::from_existing(&[]).is_none());
}

#[test]
fn package_of_other_magic_is_refused() {
    let mut b = small_package();
    b[0] = b'X';
    assert!(ShaderPackage::from_existing(&b).is_none());
}

#[test]
fn package_with_invalid_name_is_refused() {
    let mut b = small_package();
    let n = b.len();
    b[n - 9] = 0xFF;
    assert!(ShaderPackage::from_existing(&b).is_none());
}
