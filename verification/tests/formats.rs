use physis::bytes::Endian;
use physis::mtrl::{parse_color_dye_table, ColorDyeTable, DawntrailColorDyeTableRow, LegacyColorDyeTableRow};
use physis::patch::{get_dat_path, get_expansion_folder, get_expansion_folder_sub, get_index_path, empty_file_block_header};
use physis::scd::SoundAttribute;
use physis::schd::Schd;
use physis::shcd::{ShaderStage, SHCD};
use physis::{Platform, ReadableFile};

#[test]
fn expansion_folders() {
    assert_eq!(get_expansion_folder(0), "ffxiv");
    assert_eq!(get_expansion_folder(4), "ex4");
    assert_eq!(get_expansion_folder_sub(0x0312), "ex3");
}

#[test]
fn patch_paths() {
    assert_eq!(
        get_dat_path("/data", Platform::Win32, 0x0a, 0x0100, 2),
        "/data/sqpack/ex1/0a0100.win32.dat2"
    );
    assert_eq!(
        get_index_path("/data", Platform::PS4, 0x0a, 0x0000, 0),
        "/data/sqpack/ffxiv/0a0000.ps4.index"
    );
    assert_eq!(
        get_index_path("/data", Platform::PS4, 0x0a, 0x0000, 2),
        "/data/sqpack/ffxiv/0a0000.ps4.index2"
    );
}

#[test]
fn empty_block_header() {
    assert_eq!(
        empty_file_block_header(3),
        vec![128, 0, 0, 0, 0, 0, 0, 0, 0, 0, 0, 0, 2, 0, 0, 0, 0, 0, 0, 0]
    );
}

#[test]
fn dye_table_rows() {
    let legacy = LegacyColorDyeTableRow::from_data((7 << 5) | 0b10101);
    assert_eq!(legacy.template, 7);
    assert!(legacy.diffuse && !legacy.specular && legacy.emissive && !legacy.gloss);
    assert!(legacy.specular_strength);
    let dawntrail = DawntrailColorDyeTableRow::from_data((2 << 27) | (300 << 16) | 0x0801);
    assert_eq!(dawntrail.template, 300);
    assert_eq!(dawntrail.channel, 2);
    assert!(dawntrail.diffuse && dawntrail.sphere_map_mask && !dawntrail.roughness);
}

#[test]
fn dye_table_layouts() {
    let bytes = vec![0u8; 128];
    match parse_color_dye_table(&bytes, 0, Endian::Little, 0) {
        Some((ColorDyeTable::LegacyColorDyeTable(t), next)) => {
            assert_eq!(t.rows.len(), 16);
            assert_eq!(next, 32);
        }
        _ => panic!("expected a legacy table"),
    }
    match parse_color_dye_table(&bytes, 0, Endian::Big, 0x55) {
        Some((ColorDyeTable::DawntrailColorDyeTable(t), next)) => {
            assert_eq!(t.rows.len(), 32);
            assert_eq!(next, 128);
        }
        _ => panic!("expected a Dawntrail table"),
    }
    assert!(matches!(
        parse_color_dye_table(&bytes, 4, Endian::Little, 0x42),
        Some((ColorDyeTable::OpaqueColorDyeTable(_), 4))
    ));
    assert!(parse_color_dye_table(&bytes, 100, Endian::Little, 0x50).is_none());
}

#[test]
fn sound_attribute_flags() {
    let attribute = SoundAttribute(SoundAttribute::LOOP | SoundAttribute::EXTRA_DESC);
    assert!(attribute.contains(SoundAttribute::EXTRA_DESC));
    assert!(!attribute.contains(SoundAttribute::EXIST_ROUTING_SETTING));
}

#[test]
fn schd_header() {
    let mut bytes = vec![0u8; 24];
    bytes[4..7].copy_from_slice(b"1.0");
    bytes[7] = 1;
    assert!(Schd::from_existing(&bytes).is_some());
    bytes[7] = 2;
    assert!(Schd::from_existing(&bytes).is_none());
    assert!(Schd::from_existing(&bytes[0..10]).is_none());
}

#[test]
fn shcd_file() {
    let mut bytes: Vec<u8> = b"ShCd".to_vec();
    bytes.extend_from_slice(&1i32.to_le_bytes());
    bytes.extend_from_slice(b"DX11");
    bytes.extend_from_slice(&40u32.to_le_bytes());
    bytes.extend_from_slice(&32u32.to_le_bytes());
    bytes.extend_from_slice(&0u32.to_le_bytes());
    bytes.extend_from_slice(&[1, 0, 0, 0]);
    bytes.extend_from_slice(&4u32.to_le_bytes());
    bytes.extend_from_slice(&[9, 8, 7, 6]);
    let shader = SHCD::from_existing(Platform::Win32, &bytes).unwrap();
    assert_eq!(shader.format, "DX11");
    assert_eq!(shader.stage, ShaderStage::Pixel);
    assert_eq!(shader.bytecode, vec![9, 8, 7, 6]);
    // Read big-endian, the shader's offset lies past the end.
    assert!(SHCD::from_existing(Platform::PS3, &bytes).is_none());
}

#[test]
fn shcd_with_a_format_that_is_not_utf8() {
    let mut bytes: Vec<u8> = b"ShCd".to_vec();
    bytes.extend_from_slice(&1i32.to_le_bytes());
    bytes.extend_from_slice(&[0xff, 0xfe, 0x00, 0x00]);
    bytes.extend_from_slice(&40u32.to_le_bytes());
    bytes.extend_from_slice(&32u32.to_le_bytes());
    bytes.extend_from_slice(&0u32.to_le_bytes());
    bytes.extend_from_slice(&[0, 0, 0, 0]);
    bytes.extend_from_slice(&4u32.to_le_bytes());
    bytes.extend_from_slice(&[9, 8, 7, 6]);
    assert!(SHCD::from_existing(Platform::Win32, &bytes).is_none());
    bytes[8] = b'D';
    bytes[9] = b'X';
    let shader = SHCD::from_existing(Platform::Win32, &bytes).unwrap();
    assert_eq!(shader.format, "DX");
    assert_eq!(shader.stage, ShaderStage::Vertex);
}
