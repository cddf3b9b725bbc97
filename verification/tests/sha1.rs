use physis::sha1::{Digest, Sha1};

#[test]
fn sha1_abc() {
    let s = Sha1::from(b"abc");
    assert_eq!(s.hexdigest(), "a9993e364706816aba3e25717850c26c9cd0d89d");
}

#[test]
fn sha1_empty() {
    let s = Sha1::new();
    assert_eq!(s.hexdigest(), "da39a3ee5e6b4b0d3255bfef95601890afd80709");
}

#[test]
fn sha1_two_blocks() {
    let s = Sha1::from(b"abcdbcdecdefdefgefghfghighijhijkijkljklmklmnlmnomnopnopq");
    assert_eq!(s.hexdigest(), "84983e441c3bd26ebaae4aa1f95129e5e54670f1");
}

#[test]
fn sha1_streaming_equals_one_shot() {
    let data: Vec<u8> = (0..1000u32).map(|i| (i * 7 + 3) as u8).collect();
    let one = Sha1::from(&data);
    let mut parts = Sha1::new();
    parts.update(&data[..1]);
    parts.update(&data[1..63]);
    parts.update(&data[63..64]);
    parts.update(&data[64..200]);
    parts.update(&data[200..]);
    assert_eq!(one.digest().bytes(), parts.digest().bytes());
    assert_eq!(one.hexdigest(), parts.hexdigest());
}

#[test]
fn sha1_million_a() {
    let mut s = Sha1::new();
    let chunk = [b'a'; 1000];
    for _ in 0..1000 {
        s.update(&chunk);
    }
    assert_eq!(s.hexdigest(), "34aa973cd4c4daa4f61eeb2bdbad27316534016f");
}

#[test]
fn digest_bytes_are_big_endian() {
    let d = Sha1::from(b"abc").digest();
    let b = d.bytes();
    assert_eq!(b[0], 0xa9);
    assert_eq!(b[1], 0x99);
    assert_eq!(b[19], 0x9d);
}

#[test]
fn digest_text_round_trip() {
    let d = Sha1::from(b"abc").digest();
    let text = d.to_string();
    let back = Digest::from_str(&text).unwrap();
    assert_eq!(back.bytes(), d.bytes());
}

#[test]
fn digest_from_str_accepts_upper_case_and_plus() {
    let d = Digest::from_str("A9993E364706816ABA3E25717850C26C9CD0D89D").unwrap();
    assert_eq!(d.to_string(), "a9993e364706816aba3e25717850c26c9cd0d89d");
    let p = Digest::from_str("+9993e36+706816a+a3e2571+850c26c+cd0d89d").unwrap();
    assert_eq!(p.to_string(), "09993e360706816a0a3e25710850c26c0cd0d89d");
}

#[test]
fn digest_from_str_rejects() {
    assert!(Digest::from_str("abc").is_err());
    assert!(Digest::from_str("g9993e364706816aba3e25717850c26c9cd0d89d").is_err());
    assert!(Digest::from_str("-9993e364706816aba3e25717850c26c9cd0d89d").is_err());
}

#[test]
fn default_hash_is_fresh() {
    assert_eq!(Sha1::default().hexdigest(), Sha1::new().hexdigest());
    assert_eq!(
        Sha1::default().hexdigest(),
        "da39a3ee5e6b4b0d3255bfef95601890afd80709"
    );
}

#[test]
fn hexdigest_is_the_text_of_the_digest() {
    let s = Sha1::from(b"abc");
    assert_eq!(s.hexdigest(), s.digest().to_string());
    assert_eq!(s.hexdigest(), "a9993e364706816aba3e25717850c26c9cd0d89d");
    let from_bytes: String = s.digest().bytes().iter().map(|b| format!("{:02x}", b)).collect();
    assert_eq!(from_bytes, s.digest().to_string());
}

#[test]
fn update_in_parts_gives_the_digest_of_the_whole() {
    let mut parts = Sha1::new();
    parts.update(b"The quick brown fox ");
    parts.update(b"jumps over the lazy dog");
    let whole = Sha1::from(b"The quick brown fox jumps over the lazy dog");
    assert_eq!(parts.hexdigest(), whole.hexdigest());
    assert_eq!(whole.hexdigest(), "2fd4e1c67a2d28fced849ee1bb76e7391b93eb12");
}
