use physis::bytes::Endian;
use physis::lgb::{LayerChunkHeader, Lgb, LgbHeader};
use physis::Platform;

#[test]
fn test_lgbheader_size() {
    assert_eq!(LgbHeader::SIZE, 0x0C);
    let h = LgbHeader { file_size: 100, total_chunk_count: 1 };
    assert_eq!(h.write(Endian::Little).len(), LgbHeader::SIZE);
}

#[test]
fn test_layerchunkheader_size() {
    assert_eq!(LayerChunkHeader::SIZE, 24);
}

#[test]
fn lgb_header_round_trip() {
    let h = LgbHeader { file_size: 0x1234, total_chunk_count: -2 };
    let bytes = h.write(Endian::Little);
    assert_eq!(&bytes[..4], b"LGB1");
    assert_eq!(&bytes[4..8], &[0x34, 0x12, 0, 0]);
    assert_eq!(LgbHeader::read(&bytes, Endian::Little), Some(h));
    let big = h.write(Endian::Big);
    assert_eq!(&big[4..8], &[0, 0, 0x12, 0x34]);
    assert_eq!(LgbHeader::read(&big, Endian::Big), Some(h));
}

fn file(count: i32, padding: usize) -> Vec<u8> {
    let mut b = LgbHeader { file_size: 64, total_chunk_count: count }.write(Endian::Little);
    b.extend(std::iter::repeat(0u8).take(padding));
    b.extend_from_slice(b"LGP1");
    b.extend_from_slice(&[24, 0, 0, 0]);
    b
}

#[test]
fn first_chunk_follows_the_header() {
    assert_eq!(Lgb::first_chunk_offset(Platform::Win32, &file(1, 0)), Some(12));
}

#[test]
fn first_chunk_skips_padding() {
    assert_eq!(Lgb::first_chunk_offset(Platform::Win32, &file(1, 8)), Some(20));
}

#[test]
fn first_chunk_needs_a_valid_header() {
    assert_eq!(Lgb::first_chunk_offset(Platform::Win32, &file(0, 0)), None);
    let mut bad = file(1, 0);
    bad[3] = b'2';
    assert_eq!(Lgb::first_chunk_offset(Platform::Win32, &bad), None);
    assert_eq!(Lgb::first_chunk_offset(Platform::Win32, &bad[..8]), None);
}

#[test]
fn first_chunk_missing() {
    let mut b = file(1, 0);
    b.truncate(12);
    b.extend_from_slice(&[1, 2, 3, 4, 5, 6]);
    assert_eq!(Lgb::first_chunk_offset(Platform::Win32, &b), None);
    // the magic has to sit a multiple of four bytes after the header
    let mut odd = LgbHeader { file_size: 64, total_chunk_count: 1 }.write(Endian::Little);
    odd.extend_from_slice(&[0, 0]);
    odd.extend_from_slice(b"LGP1");
    assert_eq!(Lgb::first_chunk_offset(Platform::Win32, &odd), None);
}

#[test]
fn chunk_header_numbers() {
    let mut b = file(1, 4);
    b.extend_from_slice(&[0x05, 0x01, 0, 0]);
    b.extend_from_slice(&[16, 0, 0, 0]);
    b.extend_from_slice(&[16, 0, 0, 0]);
    b.extend_from_slice(&[0, 0, 0, 0]);
    let at = Lgb::first_chunk_offset(Platform::Win32, &b).unwrap();
    assert_eq!(at, 16);
    let h = LayerChunkHeader::read(&b, at, Endian::Little).unwrap();
    assert_eq!(h.chunk_size, 24);
    assert_eq!(h.layer_group_id, 261);
    assert_eq!(h.name_offset, 16);
    assert_eq!(h.layer_offset, 16);
    assert_eq!(h.layer_count, 0);
    assert_eq!(LayerChunkHeader::read(&b[..30], at, Endian::Little), None);
}
