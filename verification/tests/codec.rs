use filerep::codec::{
    decode_u16_be, decode_u64_be, encode_header, encode_u16_be, encode_u64_be, CodecError,
    FrameHeader,
};

#[test]
fn u16_round_trip() {
    for v in [0u16, 1, 255, 256, 5001, 65534, 65535] {
        let b = encode_u16_be(v);
        assert_eq!(decode_u16_be(&b), v);
    }
}

#[test]
fn u16_layout_is_big_endian() {
    assert_eq!(encode_u16_be(0x1234), [0x12, 0x34]);
    assert_eq!(decode_u16_be(&[0x12, 0x34]), 0x1234);
}

#[test]
fn u64_round_trip() {
    for v in [0u64, 1, 255, 256, 1 << 32, u64::MAX - 1, u64::MAX] {
        let b = encode_u64_be(v);
        assert_eq!(decode_u64_be(&b), v);
    }
}

#[test]
fn u64_layout_is_big_endian() {
    assert_eq!(
        encode_u64_be(0x0102030405060708),
        [1, 2, 3, 4, 5, 6, 7, 8]
    );
    assert_eq!(decode_u64_be(&[1, 2, 3, 4, 5, 6, 7, 8]), 0x0102030405060708);
}

#[test]
fn header_layout() {
    let name = b"dir/file.txt".to_vec();
    let checksum = [0xabu8; 32];
    let h = encode_header(&name, 9, &checksum).unwrap();
    assert_eq!(h.len(), 2 + name.len() + 8 + 32);
    assert_eq!(&h[0..2], &[0, 12]);
    assert_eq!(&h[2..14], b"dir/file.txt");
    assert_eq!(&h[14..22], &[0, 0, 0, 0, 0, 0, 0, 9]);
    assert_eq!(&h[22..54], &[0xab; 32]);
}

#[test]
fn header_via_frame_header_matches() {
    let f = FrameHeader {
        name: b"a.bin".to_vec(),
        size: 3,
        checksum: [7u8; 32],
    };
    let direct = encode_header(&f.name, f.size, &f.checksum).unwrap();
    assert_eq!(f.wire_bytes(), direct);
}

#[test]
fn name_length_boundary() {
    let checksum = [0u8; 32];
    let longest = vec![b'x'; 65535];
    let h = encode_header(&longest, 0, &checksum).unwrap();
    assert_eq!(h.len(), 2 + 65535 + 8 + 32);
    assert_eq!(&h[0..2], &[0xff, 0xff]);

    let too_long = vec![b'x'; 65536];
    assert_eq!(
        encode_header(&too_long, 0, &checksum),
        Err(CodecError::NameTooLong)
    );
}
