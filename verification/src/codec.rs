//! Wire format of one transfer frame: a 16-bit big-endian name-length
//! prefix, the name bytes, a 64-bit big-endian payload size, a 32-byte
//! digest, and then exactly `size` payload bytes with no delimiter.
use vstd::prelude::*;

verus! {

/// Longest relative name the 16-bit length prefix can carry.
pub const MAX_NAME_LEN: usize = 65535;

/// Width of the digest field on the wire.
pub const CHECKSUM_LEN: usize = 32;

/// The single answer byte for a frame that was verified and published.
pub const ACK_OK: u8 = 1;

/// The single answer byte for a frame whose digest did not match.
pub const ACK_REJECTED: u8 = 0;

/// Big-endian bytes of a 16-bit value.
pub open spec fn be_u16(v: u16) -> Seq<u8> {
    seq![(v >> 8) as u8, (v & 0xff) as u8]
}

/// The 16-bit value spelled by two big-endian bytes.
pub open spec fn be_u16_val(b: Seq<u8>) -> u16
    recommends
        b.len() == 2,
{
    (b[0] as u16) << 8 | (b[1] as u16)
}

/// Big-endian bytes of a 64-bit value.
pub open spec fn be_u64(v: u64) -> Seq<u8> {
    seq![
        (v >> 56) as u8,
        ((v >> 48) & 0xff) as u8,
        ((v >> 40) & 0xff) as u8,
        ((v >> 32) & 0xff) as u8,
        ((v >> 24) & 0xff) as u8,
        ((v >> 16) & 0xff) as u8,
        ((v >> 8) & 0xff) as u8,
        (v & 0xff) as u8,
    ]
}

/// The 64-bit value spelled by eight big-endian bytes.
pub open spec fn be_u64_val(b: Seq<u8>) -> u64
    recommends
        b.len() == 8,
{
    (b[0] as u64) << 56 | (b[1] as u64) << 48 | (b[2] as u64) << 40 | (b[3] as u64) << 32
        | (b[4] as u64) << 24 | (b[5] as u64) << 16 | (b[6] as u64) << 8 | (b[7] as u64)
}

/// Header bytes of a frame: length prefix, name, size, digest, in order,
/// with no padding. The payload follows immediately after.
pub open spec fn header_bytes(name: Seq<u8>, size: u64, checksum: Seq<u8>) -> Seq<u8>
    recommends
        name.len() <= MAX_NAME_LEN,
        checksum.len() == CHECKSUM_LEN,
{
    be_u16(name.len() as u16) + name + be_u64(size) + checksum
}

/// What a decoder makes of a byte stream that starts with a complete
/// header: the name, the declared payload size, the digest, and the bytes
/// that follow the header. `None` when the stream is too short to hold
/// the whole header.
pub open spec fn parse_header(b: Seq<u8>) -> Option<(Seq<u8>, u64, Seq<u8>, Seq<u8>)> {
    if b.len() < 2 {
        None
    } else {
        let nlen = be_u16_val(b.subrange(0, 2)) as int;
        if b.len() < 2 + nlen + 8 + 32 {
            None
        } else {
            let name = b.subrange(2, 2 + nlen);
            let size = be_u64_val(b.subrange(2 + nlen, 2 + nlen + 8));
            let chk = b.subrange(2 + nlen + 8, 2 + nlen + 40);
            let rest = b.subrange(2 + nlen + 40, b.len() as int);
            Some((name, size, chk, rest))
        }
    }
}

/// Writes the two big-endian bytes of a 16-bit value.
pub fn encode_u16_be(v: u16) -> (r: [u8; 2])
    ensures
        r@ == be_u16(v),
{
    let r = [(v >> 8) as u8, (v & 0xff) as u8];
    proof {
        assert(r@ =~= be_u16(v));
    }
    r
}

/// Reads the 16-bit value spelled by two big-endian bytes. Every two-byte
/// string is the encoding of the value read: decoding loses nothing.
pub fn decode_u16_be(b: &[u8; 2]) -> (r: u16)
    ensures
        r == be_u16_val(b@),
        be_u16(r) == b@,
{
    let r = (b[0] as u16) << 8 | (b[1] as u16);
    proof {
        let b0 = b@[0];
        let b1 = b@[1];
        assert(((((b0 as u16) << 8 | (b1 as u16)) >> 8) as u8) == b0 && ((((b0 as u16) << 8 | (
        b1 as u16)) & 0xff) as u8) == b1) by (bit_vector);
        assert(be_u16(r) =~= b@);
    }
    r
}

/// Writes the eight big-endian bytes of a 64-bit value.
pub fn encode_u64_be(v: u64) -> (r: [u8; 8])
    ensures
        r@ == be_u64(v),
{
    let r = [
        (v >> 56) as u8,
        ((v >> 48) & 0xff) as u8,
        ((v >> 40) & 0xff) as u8,
        ((v >> 32) & 0xff) as u8,
        ((v >> 24) & 0xff) as u8,
        ((v >> 16) & 0xff) as u8,
        ((v >> 8) & 0xff) as u8,
        (v & 0xff) as u8,
    ];
    proof {
        assert(r@ =~= be_u64(v));
    }
    r
}

/// Reads the 64-bit value spelled by eight big-endian bytes. Every
/// eight-byte string is the encoding of the value read.
pub fn decode_u64_be(b: &[u8; 8]) -> (r: u64)
    ensures
        r == be_u64_val(b@),
        be_u64(r) == b@,
{
    let r = (b[0] as u64) << 56 | (b[1] as u64) << 48 | (b[2] as u64) << 40 | (b[3] as u64) << 32
        | (b[4] as u64) << 24 | (b[5] as u64) << 16 | (b[6] as u64) << 8 | (b[7] as u64);
    proof {
        let v = (b@[0] as u64) << 56 | (b@[1] as u64) << 48 | (b@[2] as u64) << 40 | (
        b@[3] as u64) << 32 | (b@[4] as u64) << 24 | (b@[5] as u64) << 16 | (b@[6] as u64) << 8 | (
        b@[7] as u64);
        let b0 = b@[0];
        let b1 = b@[1];
        let b2 = b@[2];
        let b3 = b@[3];
        let b4 = b@[4];
        let b5 = b@[5];
        let b6 = b@[6];
        let b7 = b@[7];
        assert({
            let v = (b0 as u64) << 56 | (b1 as u64) << 48 | (b2 as u64) << 40 | (b3 as u64) << 32
                | (b4 as u64) << 24 | (b5 as u64) << 16 | (b6 as u64) << 8 | (b7 as u64);
            ((v >> 56) as u8) == b0 && (((v >> 48) & 0xff) as u8) == b1 && (((v >> 40)
                & 0xff) as u8) == b2 && (((v >> 32) & 0xff) as u8) == b3 && (((v >> 24)
                & 0xff) as u8) == b4 && (((v >> 16) & 0xff) as u8) == b5 && (((v >> 8)
                & 0xff) as u8) == b6 && ((v & 0xff) as u8) == b7
        }) by (bit_vector);
        assert(be_u64(r) =~= b@);
    }
    r
}

/// Frames with a name longer than the length prefix can carry are refused
/// at encode time.
#[derive(Clone, Copy, Debug, PartialEq, Eq, Structural)]
pub enum CodecError {
    NameTooLong,
}

/// Serializes the header of one frame. Fails exactly when the name does
/// not fit the 16-bit length prefix.
pub fn encode_header(name: &Vec<u8>, size: u64, checksum: &[u8; 32]) -> (r: Result<
    Vec<u8>,
    CodecError,
>)
    ensures
        match r {
            Ok(h) => name@.len() <= MAX_NAME_LEN && h@ == header_bytes(name@, size, checksum@),
            Err(e) => name@.len() > MAX_NAME_LEN && e == CodecError::NameTooLong,
        },
{
    if name.len() > MAX_NAME_LEN {
        return Err(CodecError::NameTooLong);
    }
    let mut h: Vec<u8> = Vec::new();
    let len_bytes = encode_u16_be(name.len() as u16);
    h.push(len_bytes[0]);
    h.push(len_bytes[1]);
    proof {
        assert(h@ =~= be_u16(name@.len() as u16));
    }
    let mut i: usize = 0;
    while i < name.len()
        invariant
            i <= name@.len(),
            name@.len() <= MAX_NAME_LEN,
            h@ == be_u16(name@.len() as u16) + name@.subrange(0, i as int),
        decreases name@.len() - i,
    {
        h.push(name[i]);
        i += 1;
        proof {
            assert(h@ =~= be_u16(name@.len() as u16) + name@.subrange(0, i as int));
        }
    }
    proof {
        assert(name@.subrange(0, name@.len() as int) =~= name@);
    }
    let size_bytes = encode_u64_be(size);
    let mut j: usize = 0;
    while j < 8
        invariant
            j <= 8,
            size_bytes@ == be_u64(size),
            h@ == be_u16(name@.len() as u16) + name@ + be_u64(size).subrange(0, j as int),
        decreases 8 - j,
    {
        h.push(size_bytes[j]);
        j += 1;
        proof {
            assert(h@ =~= be_u16(name@.len() as u16) + name@ + be_u64(size).subrange(0, j as int));
        }
    }
    proof {
        assert(be_u64(size).subrange(0, 8) =~= be_u64(size));
    }
    let mut k: usize = 0;
    while k < 32
        invariant
            k <= 32,
            h@ == be_u16(name@.len() as u16) + name@ + be_u64(size) + checksum@.subrange(
                0,
                k as int,
            ),
        decreases 32 - k,
    {
        h.push(checksum[k]);
        k += 1;
        proof {
            assert(h@ =~= be_u16(name@.len() as u16) + name@ + be_u64(size) + checksum@.subrange(
                0,
                k as int,
            ));
        }
    }
    proof {
        assert(checksum@.subrange(0, 32) =~= checksum@);
        assert(h@ =~= header_bytes(name@, size, checksum@));
    }
    Ok(h)
}

/// The header of one frame: everything that precedes the payload on the
/// wire. The payload itself is streamed after these bytes, exactly
/// `size` of it.
pub struct FrameHeader {
    /// Relative name of the file, at most `MAX_NAME_LEN` bytes.
    pub name: Vec<u8>,
    /// Exact byte length of the payload that follows the header.
    pub size: u64,
    /// Digest of the whole payload, computed before transmission.
    pub checksum: [u8; 32],
}

impl FrameHeader {
    /// The name fits the 16-bit length prefix.
    pub open spec fn wf(&self) -> bool {
        self.name@.len() <= MAX_NAME_LEN
    }

    /// The header's bytes on the wire.
    pub open spec fn wire(&self) -> Seq<u8> {
        header_bytes(self.name@, self.size, self.checksum@)
    }

    /// Serializes the header.
    pub fn wire_bytes(&self) -> (r: Vec<u8>)
        requires
            self.wf(),
        ensures
            r@ == self.wire(),
    {
        encode_header(&self.name, self.size, &self.checksum).unwrap()
    }
}

/// Decoding undoes encoding: a stream that starts with the header written
/// for `(name, size, checksum)` parses back to exactly those fields, and
/// the decoder's leftover is exactly what followed the header.
pub proof fn lemma_header_round_trip(name: Seq<u8>, size: u64, checksum: Seq<u8>, rest: Seq<u8>)
    requires
        name.len() <= MAX_NAME_LEN,
        checksum.len() == CHECKSUM_LEN,
    ensures
        parse_header(header_bytes(name, size, checksum) + rest) == Some(
            (name, size, checksum, rest),
        ),
{
    let h = header_bytes(name, size, checksum) + rest;
    let nlen16 = name.len() as u16;
    assert(h.subrange(0, 2) =~= be_u16(nlen16));
    let b0 = be_u16(nlen16)[0];
    let b1 = be_u16(nlen16)[1];
    assert({
        let v: u16 = nlen16;
        ((((v >> 8) as u8) as u16) << 8 | (((v & 0xff) as u8) as u16)) == v
    }) by (bit_vector);
    assert(be_u16_val(h.subrange(0, 2)) == nlen16);
    let nlen = name.len() as int;
    assert(h.len() >= 2 + nlen + 8 + 32);
    assert(h.subrange(2, 2 + nlen) =~= name);
    assert(h.subrange(2 + nlen, 2 + nlen + 8) =~= be_u64(size));
    lemma_be_u64_round_trip(size);
    assert(h.subrange(2 + nlen + 8, 2 + nlen + 40) =~= checksum);
    assert(h.subrange(2 + nlen + 40, h.len() as int) =~= rest);
}

/// Eight-byte big-endian encoding loses nothing.
pub proof fn lemma_be_u64_round_trip(v: u64)
    ensures
        be_u64_val(be_u64(v)) == v,
{
    assert({
        let b0 = (v >> 56) as u8;
        let b1 = ((v >> 48) & 0xff) as u8;
        let b2 = ((v >> 40) & 0xff) as u8;
        let b3 = ((v >> 32) & 0xff) as u8;
        let b4 = ((v >> 24) & 0xff) as u8;
        let b5 = ((v >> 16) & 0xff) as u8;
        let b6 = ((v >> 8) & 0xff) as u8;
        let b7 = (v & 0xff) as u8;
        ((b0 as u64) << 56 | (b1 as u64) << 48 | (b2 as u64) << 40 | (b3 as u64) << 32 | (
        b4 as u64) << 24 | (b5 as u64) << 16 | (b6 as u64) << 8 | (b7 as u64)) == v
    }) by (bit_vector);
}


/// The header encoding is unambiguous: two frame streams that agree on
/// their bytes agree on every header field and on everything that
/// follows — a receiver aligned on a frame boundary can never confuse
/// one frame's fields for another's.
pub proof fn lemma_header_unambiguous(
    name1: Seq<u8>,
    size1: u64,
    checksum1: Seq<u8>,
    rest1: Seq<u8>,
    name2: Seq<u8>,
    size2: u64,
    checksum2: Seq<u8>,
    rest2: Seq<u8>,
)
    requires
        name1.len() <= MAX_NAME_LEN,
        checksum1.len() == CHECKSUM_LEN,
        name2.len() <= MAX_NAME_LEN,
        checksum2.len() == CHECKSUM_LEN,
        header_bytes(name1, size1, checksum1) + rest1 == header_bytes(name2, size2, checksum2)
            + rest2,
    ensures
        name1 == name2,
        size1 == size2,
        checksum1 == checksum2,
        rest1 == rest2,
{
    lemma_header_round_trip(name1, size1, checksum1, rest1);
    lemma_header_round_trip(name2, size2, checksum2, rest2);
}

} // verus!
