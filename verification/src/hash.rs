//! The integrity digest: a fixed-width cryptographic summary of a file's
//! whole content, computed before transmission and recomputed on
//! receipt. The digest function itself lives in the blake3 crate; here
//! it is a name, `digest_of`, that the sender's and the receiver's
//! contracts share, so that "the received bytes hash to the transmitted
//! checksum" is one statement on both sides of the wire.
use vstd::prelude::*;

verus! {

/// The digest of a byte string: 32 bytes, a function of the input bytes
/// alone — the same on every host and in every process.
pub uninterp spec fn digest_of(data: Seq<u8>) -> Seq<u8>;

#[verifier::external_type_specification]
#[verifier::external_body]
pub struct ExHasher(blake3::Hasher);

/// An incremental digest computation. `fed()` is the byte string fed so
/// far; the digest of a payload too large to hold in one buffer is
/// computed chunk by chunk through it.
pub struct StreamHasher {
    inner: blake3::Hasher,
    input: Ghost<Seq<u8>>,
}

impl StreamHasher {
    /// The bytes fed so far.
    pub closed spec fn fed(&self) -> Seq<u8> {
        self.input@
    }

    /// Relies on blake3::Hasher::new: a fresh hasher over no input.
    #[verifier::external_body]
    pub fn new() -> (h: StreamHasher)
        ensures
            h.fed() == Seq::<u8>::empty(),
    {
        StreamHasher { inner: blake3::Hasher::new(), input: Ghost(Seq::empty()) }
    }

    /// Relies on blake3::Hasher::update: appends the chunk to the hashed
    /// input, exactly as if the whole input had been fed at once.
    #[verifier::external_body]
    pub fn update(&mut self, chunk: &[u8])
        ensures
            final(self).fed() == old(self).fed() + chunk@,
    {
        self.inner.update(chunk);
    }

    /// Relies on blake3::Hasher::finalize: the 32-byte digest of the
    /// bytes fed so far, a function of those bytes alone.
    #[verifier::external_body]
    pub fn finalize(&self) -> (r: [u8; 32])
        ensures
            r@ == digest_of(self.fed()),
    {
        *self.inner.finalize().as_bytes()
    }
}

/// Byte-for-byte comparison of two digests, as the receiver's verify
/// step demands.
pub fn digests_equal(a: &[u8; 32], b: &[u8; 32]) -> (r: bool)
    ensures
        r == (a@ == b@),
{
    let mut i: usize = 0;
    while i < 32
        invariant
            i <= 32,
            forall|j: int| 0 <= j < i ==> a@[j] == b@[j],
        decreases 32 - i,
    {
        if a[i] != b[i] {
            return false;
        }
        i += 1;
    }
    proof {
        assert(a@ =~= b@);
    }
    true
}

/// The digest of a whole byte string in one call. Stateless: the same
/// content always yields the same digest, including the empty content.
pub fn hash_bytes(data: &[u8]) -> (r: [u8; 32])
    ensures
        r@ == digest_of(data@),
{
    let mut h = StreamHasher::new();
    h.update(data);
    proof {
        assert(h.fed() =~= data@);
    }
    h.finalize()
}

} // verus!
