use physis::resource::{generic_parsed, parse_found, Resource, ResourceResolver};
use physis::shcd::SHCD;
use physis::{Error, Platform};

/// Files held in memory, with a count of the reads made.
struct MemoryResource {
    files: Vec<(String, Vec<u8>)>,
    platform: Platform,
    reads: std::rc::Rc<std::cell::Cell<usize>>,
}

impl MemoryResource {
    fn new(files: Vec<(&str, Vec<u8>)>) -> Self {
        MemoryResource {
            files: files.into_iter().map(|(p, b)| (p.to_string(), b)).collect(),
            platform: Platform::Win32,
            reads: std::rc::Rc::new(std::cell::Cell::new(0)),
        }
    }
}

impl Resource for MemoryResource {
    fn read(&mut self, path: &str) -> Option<Vec<u8>> {
        self.reads.set(self.reads.get() + 1);
        self.files.iter().find(|(p, _)| p == path).map(|(_, b)| b.clone())
    }

    fn file_exists(&mut self, path: &str) -> bool {
        self.files.iter().any(|(p, _)| p == path)
    }

    fn platform(&self) -> Platform {
        self.platform
    }
}

fn shader_bytes() -> Vec<u8> {
    let mut bytes: Vec<u8> = b"ShCd".to_vec();
    bytes.extend_from_slice(&1i32.to_le_bytes());
    bytes.extend_from_slice(b"DX11");
    bytes.extend_from_slice(&40u32.to_le_bytes());
    bytes.extend_from_slice(&32u32.to_le_bytes());
    bytes.extend_from_slice(&0u32.to_le_bytes());
    bytes.extend_from_slice(&[1, 0, 0, 0]);
    bytes.extend_from_slice(&4u32.to_le_bytes());
    bytes.extend_from_slice(&[9, 8, 7, 6]);
    bytes
}

#[test]
fn resolver_reads_from_the_first_source_that_has_the_file() {
    let first = MemoryResource::new(vec![("a", b"first a".to_vec())]);
    let second = MemoryResource::new(vec![("a", b"second a".to_vec()), ("b", b"second b".to_vec())]);
    let second_reads = second.reads.clone();
    let mut resolver = ResourceResolver::new();
    resolver.add_source(Box::new(first));
    resolver.add_source(Box::new(second));
    assert_eq!(resolver.read("a").unwrap(), b"first a".to_vec());
    // The second source was not asked for a file the first has.
    assert_eq!(second_reads.get(), 0);
    assert_eq!(resolver.read("b").unwrap(), b"second b".to_vec());
    assert_eq!(second_reads.get(), 1);
    match resolver.read("c") {
        Err(Error::FileNotFound { path }) => assert_eq!(path, "c"),
        _ => panic!("expected FileNotFound"),
    }
    assert!(resolver.file_exists("a"));
    assert!(resolver.file_exists("b"));
    assert!(!resolver.file_exists("c"));
}

#[test]
fn resolver_parses_from_the_first_source_that_has_the_file() {
    let first = MemoryResource::new(vec![("broken.shcd", b"ShCd".to_vec())]);
    let second = MemoryResource::new(vec![("broken.shcd", shader_bytes()), ("good.shcd", shader_bytes())]);
    let mut resolver = ResourceResolver::new();
    resolver.add_source(Box::new(first));
    resolver.add_source(Box::new(second));
    let shader: SHCD = resolver.parsed("good.shcd").unwrap();
    assert_eq!(shader.format, "DX11");
    // The first source has the file but it does not parse; the second is not consulted.
    match resolver.parsed::<SHCD>("broken.shcd") {
        Err(Error::FileParsingFailed { path }) => assert_eq!(path, "broken.shcd"),
        _ => panic!("expected FileParsingFailed"),
    }
    match resolver.parsed::<SHCD>("missing.shcd") {
        Err(Error::FileNotFound { path }) => assert_eq!(path, "missing.shcd"),
        _ => panic!("expected FileNotFound"),
    }
}

#[test]
fn generic_parsing_of_one_resource() {
    let mut resource = MemoryResource::new(vec![("s.shcd", shader_bytes()), ("x", b"junk".to_vec())]);
    let shader: SHCD = generic_parsed(&mut resource, "s.shcd").unwrap();
    assert_eq!(shader.bytecode, vec![9, 8, 7, 6]);
    assert!(matches!(
        generic_parsed::<MemoryResource, SHCD>(&mut resource, "x"),
        Err(Error::FileParsingFailed { .. })
    ));
    assert!(matches!(
        generic_parsed::<MemoryResource, SHCD>(&mut resource, "y"),
        Err(Error::FileNotFound { .. })
    ));
    assert_eq!(resource.platform(), Platform::Win32);
}

#[test]
fn parsing_what_was_read() {
    assert!(matches!(
        parse_found::<SHCD>(Platform::Win32, None, "p"),
        Err(Error::FileNotFound { .. })
    ));
    assert!(matches!(
        parse_found::<SHCD>(Platform::Win32, Some(vec![1, 2, 3]), "p"),
        Err(Error::FileParsingFailed { .. })
    ));
    let shader = parse_found::<SHCD>(Platform::Win32, Some(shader_bytes()), "p").unwrap();
    assert_eq!(shader.version, 1);
    // Read big-endian, the shader's offset lies past the end.
    assert!(parse_found::<SHCD>(Platform::PS3, Some(shader_bytes()), "p").is_err());
}

#[test]
fn parsing_uses_the_platform_of_the_resource() {
    // The shader reads little-endian only; a PS3 resource reads it big-endian and fails.
    let mut ps3 = MemoryResource::new(vec![("s.shcd", shader_bytes())]);
    ps3.platform = Platform::PS3;
    assert!(matches!(
        generic_parsed::<MemoryResource, SHCD>(&mut ps3, "s.shcd"),
        Err(Error::FileParsingFailed { .. })
    ));
    let mut resolver = ResourceResolver::new();
    resolver.add_source(Box::new(ps3));
    assert!(matches!(resolver.parsed::<SHCD>("s.shcd"), Err(Error::FileParsingFailed { .. })));
}
