use physis::patch::{
    check_patch_header, create_patch, next_patch_step, read_patch_chunk, ChunkType, PatchError,
    PatchStep, SqpkOperation, StepError, PATCH_HEADER_SIZE,
};
use physis::Platform;

fn header() -> Vec<u8> {
    vec![0x91, b'Z', b'I', b'P', b'A', b'T', b'C', b'H', 0x0D, 0x0A, 0x1A, 0x0A]
}

/// A SQPK chunk around `body`, which starts with its operation's letter.
fn sqpk(body: &[u8]) -> Vec<u8> {
    let mut c = Vec::new();
    c.extend_from_slice(&((body.len() + 4) as u32).to_be_bytes());
    c.extend_from_slice(b"SQPK");
    c.extend_from_slice(&((body.len() + 4) as u32).to_be_bytes());
    c.extend_from_slice(body);
    c.extend_from_slice(&0xDEADBEEFu32.to_le_bytes());
    c
}

fn target_info(platform: u8) -> Vec<u8> {
    let mut t = vec![b'T', 0, 0, 0, platform, 0];
    t.extend_from_slice(&0xFFFFu16.to_be_bytes()); // region
    t.extend_from_slice(&0u16.to_be_bytes()); // not debug
    t.extend_from_slice(&1u16.to_be_bytes()); // version
    t.extend_from_slice(&5u64.to_le_bytes());
    t.extend_from_slice(&6u64.to_le_bytes());
    t.extend_from_slice(&[0u8; 96]);
    t
}

fn add_data(data: &[u8]) -> Vec<u8> {
    assert_eq!(data.len() % 128, 0);
    let mut a = vec![b'A', 0, 0, 0];
    a.extend_from_slice(&0x0Au16.to_be_bytes()); // main id
    a.extend_from_slice(&0x0102u16.to_be_bytes()); // sub id, of the first expansion
    a.extend_from_slice(&3u32.to_be_bytes()); // file id
    a.extend_from_slice(&2u32.to_be_bytes()); // block offset, in blocks
    a.extend_from_slice(&((data.len() / 128) as u32).to_be_bytes());
    a.extend_from_slice(&1u32.to_be_bytes()); // blocks to delete after
    a.extend_from_slice(data);
    a
}

fn end() -> Vec<u8> {
    let mut e = Vec::new();
    e.extend_from_slice(&0u32.to_be_bytes());
    e.extend_from_slice(b"EOF_");
    e
}

#[test]
fn patch_header_is_recognised() {
    assert!(check_patch_header(&header()));
    assert!(!check_patch_header(b"ZIPATCH"));
    assert!(!check_patch_header(&[0u8; 12]));
}

#[test]
fn new_patch_holds_only_its_end() {
    let b = create_patch("base", "new").unwrap();
    let mut want = header();
    want.extend_from_slice(&end());
    assert_eq!(b, want);
    assert!(check_patch_header(&b));
    let (step, next) = next_patch_step("game", None, &b, PATCH_HEADER_SIZE).unwrap();
    assert!(matches!(step, PatchStep::End));
    assert_eq!(next, b.len());
}

#[test]
fn target_then_data_then_end() {
    let data = vec![7u8; 128];
    let mut b = header();
    b.extend_from_slice(&sqpk(&target_info(0)));
    b.extend_from_slice(&sqpk(&add_data(&data)));
    b.extend_from_slice(&end());

    let (step, next) = next_patch_step("game", None, &b, PATCH_HEADER_SIZE).unwrap();
    let target = match step {
        PatchStep::SetTarget(t) => t,
        other => panic!("unexpected {:?}", other),
    };
    assert_eq!(target.platform, Platform::Win32);
    assert_eq!(target.region, 0xFFFF);
    assert!(!target.is_debug);
    assert_eq!(target.deleted_data_size, 5);

    let (step, next) = next_patch_step("game", Some(target), &b, next).unwrap();
    match step {
        PatchStep::WriteData {
            dir,
            path,
            offset,
            data: written,
            wipe,
        } => {
            assert_eq!(dir, "game/sqpack/ex1");
            assert_eq!(path, "game/sqpack/ex1/0a0102.win32.dat3");
            assert_eq!(offset, 256);
            assert_eq!(written, data);
            assert_eq!(wipe, 128);
        }
        other => panic!("unexpected {:?}", other),
    }

    let (step, next) = next_patch_step("game", Some(target), &b, next).unwrap();
    assert!(matches!(step, PatchStep::End));
    assert_eq!(next, b.len());
}

#[test]
fn data_before_a_target_is_refused() {
    let mut b = header();
    b.extend_from_slice(&sqpk(&add_data(&[0u8; 128])));
    let r = next_patch_step("game", None, &b, PATCH_HEADER_SIZE);
    assert_eq!(r.err(), Some(StepError::NoTarget));
}

#[test]
fn cut_chunk_is_a_parse_error() {
    let mut b = header();
    b.extend_from_slice(&sqpk(&target_info(0)));
    b.truncate(b.len() - 10);
    assert!(read_patch_chunk(&b, PATCH_HEADER_SIZE).is_none());
    let r = next_patch_step("game", None, &b, PATCH_HEADER_SIZE);
    assert_eq!(r.err(), Some(StepError::Failed(PatchError::ParseError)));
}

#[test]
fn unknown_platform_is_a_parse_error() {
    let mut b = header();
    b.extend_from_slice(&sqpk(&target_info(9)));
    assert!(read_patch_chunk(&b, PATCH_HEADER_SIZE).is_none());
}

#[test]
fn file_operations_are_under_the_data_directory() {
    let mut f = vec![b'F', b'D', 0, 0];
    f.extend_from_slice(&0u64.to_be_bytes());
    f.extend_from_slice(&0u64.to_be_bytes());
    let path = b"sqpack/ffxiv/old.dat\0";
    f.extend_from_slice(&(path.len() as u32).to_be_bytes());
    f.extend_from_slice(&0u16.to_be_bytes());
    f.extend_from_slice(&[0, 0]);
    f.extend_from_slice(path);
    let mut b = header();
    b.extend_from_slice(&sqpk(&f));
    let (chunk, _) = read_patch_chunk(&b, PATCH_HEADER_SIZE).unwrap();
    assert!(matches!(
        chunk.chunk_type,
        ChunkType::Sqpk(s) if matches!(s.operation, SqpkOperation::FileOperation(_))
    ));
    let (step, _) = next_patch_step("game", None, &b, PATCH_HEADER_SIZE).unwrap();
    match step {
        PatchStep::DeleteFile { path } => assert_eq!(path, "game/sqpack/ffxiv/old.dat"),
        other => panic!("unexpected {:?}", other),
    }
}

#[test]
fn file_operation_with_invalid_path_is_refused() {
    let mut f = vec![b'F', b'D', 0, 0];
    f.extend_from_slice(&0u64.to_be_bytes());
    f.extend_from_slice(&0u64.to_be_bytes());
    let path = [0xFFu8, 0xFE, 0];
    f.extend_from_slice(&(path.len() as u32).to_be_bytes());
    f.extend_from_slice(&0u16.to_be_bytes());
    f.extend_from_slice(&[0, 0]);
    f.extend_from_slice(&path);
    let mut b = header();
    b.extend_from_slice(&sqpk(&f));
    let r = next_patch_step("game", None, &b, PATCH_HEADER_SIZE);
    assert_eq!(r.err(), Some(StepError::InvalidPath));
}
