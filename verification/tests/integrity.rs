use filerep::hash::{digests_equal, hash_bytes, StreamHasher};

#[test]
fn digest_matches_reference_implementation() {
    for data in [&b""[..], &b"x"[..], &b"hello world"[..], &[0u8; 4096][..]] {
        let ours = hash_bytes(data);
        let reference = blake3::hash(data);
        assert_eq!(&ours, reference.as_bytes());
    }
}

#[test]
fn empty_content_hashes_to_digest_of_empty_input() {
    let ours = hash_bytes(b"");
    assert_eq!(&ours, blake3::hash(b"").as_bytes());
}

#[test]
fn streaming_equals_one_shot() {
    let data: Vec<u8> = (0..100_000u32).map(|i| (i % 251) as u8).collect();
    let one_shot = hash_bytes(&data);
    let mut h = StreamHasher::new();
    for chunk in data.chunks(7001) {
        h.update(chunk);
    }
    assert_eq!(h.finalize(), one_shot);
}

#[test]
fn different_content_different_digest() {
    let a = hash_bytes(b"abc");
    let b = hash_bytes(b"abd");
    assert_ne!(a, b);
}

#[test]
fn digests_equal_decides_byte_for_byte() {
    let a = [5u8; 32];
    let mut b = [5u8; 32];
    assert!(digests_equal(&a, &b));
    b[31] = 6;
    assert!(!digests_equal(&a, &b));
    let mut c = [5u8; 32];
    c[0] = 4;
    assert!(!digests_equal(&a, &c));
}
