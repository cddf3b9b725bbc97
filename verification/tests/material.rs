use physis::mtrl::{ColorDyeTable, ColorTable, Material};

fn material_bytes(flags: u32, tables: &[u8], shader_name_offset: u16, value_offset: u16) -> Vec<u8> {
    let strings = b"tex.tex\0shader.shpk\0";
    let mut b: Vec<u8> = Vec::new();
    b.extend_from_slice(&0x0103_0000u32.to_le_bytes());
    b.extend_from_slice(&0u16.to_le_bytes());
    b.extend_from_slice(&0u16.to_le_bytes());
    b.extend_from_slice(&(strings.len() as u16).to_le_bytes());
    b.extend_from_slice(&shader_name_offset.to_le_bytes());
    b.push(1); // textures
    b.push(0); // uv sets
    b.push(0); // color sets
    b.push(4); // additional data
    b.extend_from_slice(&0u32.to_le_bytes()); // texture offset
    b.extend_from_slice(strings);
    b.extend_from_slice(&flags.to_le_bytes());
    b.extend_from_slice(tables);
    // material header: value list size, key count, constant count, sampler count, flags
    b.extend_from_slice(&8u16.to_le_bytes());
    b.extend_from_slice(&1u16.to_le_bytes());
    b.extend_from_slice(&1u16.to_le_bytes());
    b.extend_from_slice(&1u16.to_le_bytes());
    b.extend_from_slice(&0u32.to_le_bytes());
    // key
    b.extend_from_slice(&0x11u32.to_le_bytes());
    b.extend_from_slice(&0x22u32.to_le_bytes());
    // constant: id, value offset, value size
    b.extend_from_slice(&0x33u32.to_le_bytes());
    b.extend_from_slice(&value_offset.to_le_bytes());
    b.extend_from_slice(&4u16.to_le_bytes());
    // sampler
    b.extend_from_slice(&0x44u32.to_le_bytes());
    b.extend_from_slice(&0x55u32.to_le_bytes());
    b.extend_from_slice(&[2, 0, 0, 0]);
    // shader values
    b.extend_from_slice(&1.0f32.to_le_bytes());
    b.extend_from_slice(&2.0f32.to_le_bytes());
    b
}

#[test]
fn material_without_tables() {
    let m = Material::from_existing(&material_bytes(0, &[], 8, 4)).unwrap();
    assert_eq!(m.texture_paths, vec!["tex.tex".to_string()]);
    assert_eq!(m.shader_package_name, "shader.shpk");
    assert_eq!(m.shader_keys.len(), 1);
    assert_eq!(m.shader_keys[0].category, 0x11);
    assert_eq!(m.shader_keys[0].value, 0x22);
    assert_eq!(m.constants.len(), 1);
    assert_eq!(m.constants[0].id, 0x33);
    assert_eq!(m.constants[0].num_values, 1);
    assert_eq!(m.constants[0].values, [2.0f32.to_bits(), 0, 0, 0]);
    assert_eq!(m.samplers.len(), 1);
    assert_eq!(m.samplers[0].texture_usage, 0x44);
    assert_eq!(m.samplers[0].flags, 0x55);
    assert_eq!(m.samplers[0].texture_index, 2);
    assert!(m.color_table.is_none());
    assert!(m.color_dye_table.is_none());
}

#[test]
fn material_with_legacy_tables() {
    let mut tables: Vec<u8> = Vec::new();
    for k in 0..(16 * 16) {
        tables.extend_from_slice(&(k as u16).to_le_bytes());
    }
    for k in 0..16u16 {
        tables.extend_from_slice(&((k << 5) | 0x1).to_le_bytes());
    }
    // color table (0x4) and dye table (0x8), both of the older layout
    let m = Material::from_existing(&material_bytes(0x4 | 0x8, &tables, 8, 4)).unwrap();
    match m.color_table {
        Some(ColorTable::LegacyColorTable(t)) => {
            assert_eq!(t.rows.len(), 16);
            assert_eq!(t.rows[0].diffuse_color, [0, 1, 2]);
            assert_eq!(t.rows[0].specular_strength, 3);
            assert_eq!(t.rows[1].diffuse_color, [16, 17, 18]);
            assert_eq!(t.rows[1].material_skew, [30, 31]);
        },
        _ => panic!("expected a color table of the older layout"),
    }
    match m.color_dye_table {
        Some(ColorDyeTable::LegacyColorDyeTable(t)) => {
            assert_eq!(t.rows.len(), 16);
            assert_eq!(t.rows[3].template, 3);
            assert!(t.rows[3].diffuse);
            assert!(!t.rows[3].specular);
        },
        _ => panic!("expected a dye table of the older layout"),
    }
}

#[test]
fn material_rejects_invalid_data() {
    assert!(Material::from_existing(&[]).is_none());
    assert!(Material::from_existing(&[0u8; 40]).is_none());
    // The shader package name starts past the string table.
    assert!(Material::from_existing(&material_bytes(0, &[], 30, 4)).is_none());
    // The constant's value lies past the shader values.
    assert!(Material::from_existing(&material_bytes(0, &[], 8, 8)).is_none());
    // Cut short in the shader values.
    let b = material_bytes(0, &[], 8, 4);
    assert!(Material::from_existing(&b[..b.len() - 1]).is_none());
    // A color table that does not fit.
    assert!(Material::from_existing(&material_bytes(0x4, &[], 8, 4)).is_none());
}
