//! The receiver session: one instance per accepted connection, looping
//! await-header, receive-payload, verify, publish. The surrounding
//! process does the socket reads and the file writes; the session holds
//! every decision — whether a name may be used, when the payload is
//! complete, whether the digest matches, what to publish and which
//! answer byte to send — and a model of the destination directory, the
//! map `published()`, which the contracts below pin down: it never
//! changes while a transfer is in flight, and a verified frame appears
//! in it complete, in one step.
use vstd::prelude::*;
use crate::codec::ACK_OK;
use crate::codec::ACK_REJECTED;
use crate::codec::MAX_NAME_LEN;
use crate::hash::digest_of;
use crate::hash::digests_equal;
use crate::hash::StreamHasher;
use crate::paths::name_is_safe;
use crate::paths::safe_name;

verus! {

/// Where a session stands.
#[derive(Clone, Copy, Debug, PartialEq, Eq, Structural)]
pub enum RecvPhase {
    /// Between frames, waiting for the next header; a clean peer close
    /// here is a normal end of session.
    AwaitHeader,
    /// Mid-frame: header accepted, payload bytes still owed.
    ReceivePayload,
    /// Terminal: the peer closed or the stream failed.
    Closed,
}

/// A protocol-level fault in a frame, detected before any file I/O.
#[derive(Clone, Copy, Debug, PartialEq, Eq, Structural)]
pub enum ProtoError {
    /// The name is empty, absolute, or holds a `..` segment: it could
    /// escape the destination root and is refused.
    UnsafeName,
}

/// How one complete frame ended.
#[derive(Clone, Copy, Debug, PartialEq, Eq, Structural)]
pub enum FrameOutcome {
    /// Digest matched: the file is published under its final name.
    Published,
    /// Digest mismatch: the partial file is discarded, nothing appears
    /// under the final name.
    Rejected,
}

/// What one verified frame does to the destination directory: a payload
/// whose digest equals the transmitted checksum replaces whatever the
/// name held before — last writer wins — and any other payload leaves
/// the directory untouched.
pub open spec fn publish_effect(
    dir: Map<Seq<u8>, Seq<u8>>,
    name: Seq<u8>,
    payload: Seq<u8>,
    checksum: Seq<u8>,
) -> Map<Seq<u8>, Seq<u8>> {
    if digest_of(payload) == checksum {
        dir.insert(name, payload)
    } else {
        dir
    }
}

/// One receiver session and its model of the destination directory.
pub struct ReceiverSession {
    phase: RecvPhase,
    name: Vec<u8>,
    size: u64,
    checksum: [u8; 32],
    received: u64,
    hasher: StreamHasher,
    dir: Ghost<Map<Seq<u8>, Seq<u8>>>,
    temp: Ghost<bool>,
}

impl ReceiverSession {
    /// Where the session stands.
    pub closed spec fn phase(&self) -> RecvPhase {
        self.phase
    }

    /// The files this session has published: final name to complete
    /// content.
    pub closed spec fn published(&self) -> Map<Seq<u8>, Seq<u8>> {
        self.dir@
    }

    /// Whether a temporary `.part` file of an in-flight transfer exists.
    pub closed spec fn temp_exists(&self) -> bool {
        self.temp@
    }

    /// The in-flight frame's name.
    pub closed spec fn frame_name(&self) -> Seq<u8> {
        self.name@
    }

    /// The in-flight frame's declared payload size.
    pub closed spec fn frame_size(&self) -> u64 {
        self.size
    }

    /// The in-flight frame's transmitted checksum.
    pub closed spec fn frame_checksum(&self) -> Seq<u8> {
        self.checksum@
    }

    /// The payload bytes received so far for the in-flight frame.
    pub closed spec fn payload(&self) -> Seq<u8> {
        self.hasher.fed()
    }

    /// The session invariant: between frames and after close no
    /// temporary file exists; mid-frame the name has been vetted, the
    /// byte count matches what was fed to the digest, and no more than
    /// the declared size has been accepted.
    pub closed spec fn wf(&self) -> bool {
        match self.phase {
            RecvPhase::AwaitHeader => !self.temp@ && self.received == 0,
            RecvPhase::ReceivePayload => {
                &&& self.temp@
                &&& safe_name(self.name@)
                &&& self.name@.len() <= MAX_NAME_LEN
                &&& self.received == self.hasher.fed().len()
                &&& self.received <= self.size
            },
            RecvPhase::Closed => !self.temp@,
        }
    }

    /// A fresh session for one accepted connection: between frames,
    /// nothing published yet, no temporary file.
    pub fn new() -> (s: ReceiverSession)
        ensures
            s.wf(),
            s.phase() == RecvPhase::AwaitHeader,
            s.published() == Map::<Seq<u8>, Seq<u8>>::empty(),
            !s.temp_exists(),
    {
        ReceiverSession {
            phase: RecvPhase::AwaitHeader,
            name: Vec::new(),
            size: 0,
            checksum: [0; 32],
            received: 0,
            hasher: StreamHasher::new(),
            dir: Ghost(Map::empty()),
            temp: Ghost(false),
        }
    }

    /// Accepts a decoded header. A name that could escape the
    /// destination root is refused before any file I/O and the session
    /// stays between frames; otherwise the transfer begins: the caller
    /// creates the missing parent directories and opens the temporary
    /// `.part` file, truncating any stale partial, and then streams the
    /// payload in through `accept_chunk`. Nothing becomes visible under
    /// any final name either way.
    pub fn begin_frame(&mut self, name: Vec<u8>, size: u64, checksum: [u8; 32]) -> (r: Result<
        (),
        ProtoError,
    >)
        requires
            old(self).wf(),
            old(self).phase() == RecvPhase::AwaitHeader,
            name@.len() <= MAX_NAME_LEN,
        ensures
            final(self).wf(),
            final(self).published() == old(self).published(),
            match r {
                Ok(_) => {
                    &&& safe_name(name@)
                    &&& final(self).phase() == RecvPhase::ReceivePayload
                    &&& final(self).frame_name() == name@
                    &&& final(self).frame_size() == size
                    &&& final(self).frame_checksum() == checksum@
                    &&& final(self).payload() == Seq::<u8>::empty()
                    &&& final(self).temp_exists()
                },
                Err(e) => {
                    &&& !safe_name(name@)
                    &&& e == ProtoError::UnsafeName
                    &&& final(self).phase() == RecvPhase::AwaitHeader
                    &&& !final(self).temp_exists()
                },
            },
    {
        if !name_is_safe(name.as_slice()) {
            return Err(ProtoError::UnsafeName);
        }
        self.name = name;
        self.size = size;
        self.checksum = checksum;
        self.received = 0;
        self.hasher = StreamHasher::new();
        self.phase = RecvPhase::ReceivePayload;
        self.temp = Ghost(true);
        Ok(())
    }

    /// Takes the next payload chunk: the caller writes the same bytes to
    /// the temporary file. The published directory does not change — a
    /// transfer in flight is never visible under a final name.
    pub fn accept_chunk(&mut self, chunk: &[u8])
        requires
            old(self).wf(),
            old(self).phase() == RecvPhase::ReceivePayload,
            old(self).payload().len() + chunk@.len() <= old(self).frame_size(),
        ensures
            final(self).wf(),
            final(self).phase() == RecvPhase::ReceivePayload,
            final(self).frame_name() == old(self).frame_name(),
            final(self).frame_size() == old(self).frame_size(),
            final(self).frame_checksum() == old(self).frame_checksum(),
            final(self).payload() == old(self).payload() + chunk@,
            final(self).published() == old(self).published(),
            final(self).temp_exists(),
    {
        self.hasher.update(chunk);
        self.received = self.received + chunk.len() as u64;
    }

    /// How many payload bytes are still owed; the caller reads the wire
    /// in chunks no larger than this.
    pub fn remaining(&self) -> (r: u64)
        requires
            self.wf(),
            self.phase() == RecvPhase::ReceivePayload,
        ensures
            r == self.frame_size() - self.payload().len(),
    {
        self.size - self.received
    }

    /// Ends one complete frame: verifies the digest of the received
    /// payload against the transmitted checksum, byte for byte, and
    /// decides. On a match the caller atomically renames the flushed
    /// temporary file to the final name — the only step that makes
    /// anything visible, and it publishes the complete payload, silently
    /// replacing a file of the same name. On a mismatch the caller
    /// deletes the temporary file and nothing is published. The answer
    /// byte for the sender comes with the outcome, and the session is
    /// back between frames with no temporary file either way.
    pub fn finish_frame(&mut self) -> (res: (FrameOutcome, u8))
        requires
            old(self).wf(),
            old(self).phase() == RecvPhase::ReceivePayload,
            old(self).payload().len() == old(self).frame_size(),
        ensures
            final(self).wf(),
            final(self).phase() == RecvPhase::AwaitHeader,
            !final(self).temp_exists(),
            res.0 == FrameOutcome::Published <==> digest_of(old(self).payload()) == old(
                self,
            ).frame_checksum(),
            res.1 == (if res.0 == FrameOutcome::Published {
                ACK_OK
            } else {
                ACK_REJECTED
            }),
            final(self).published() == publish_effect(
                old(self).published(),
                old(self).frame_name(),
                old(self).payload(),
                old(self).frame_checksum(),
            ),
    {
        let ghost dir0 = self.dir@;
        let ghost nm = self.name@;
        let ghost pl = self.hasher.fed();
        let digest = self.hasher.finalize();
        let ok = digests_equal(&digest, &self.checksum);
        self.phase = RecvPhase::AwaitHeader;
        self.received = 0;
        self.hasher = StreamHasher::new();
        self.temp = Ghost(false);
        if ok {
            self.dir = Ghost(dir0.insert(nm, pl));
            (FrameOutcome::Published, ACK_OK)
        } else {
            (FrameOutcome::Rejected, ACK_REJECTED)
        }
    }

    /// Tears the session down on a mid-frame stream error — a close
    /// before the owed payload arrived, a short read, a write fault.
    /// The caller deletes the temporary file; the in-flight transfer is
    /// failed and nothing of it is ever published.
    pub fn abort(&mut self)
        requires
            old(self).wf(),
            old(self).phase() == RecvPhase::ReceivePayload,
        ensures
            final(self).wf(),
            final(self).phase() == RecvPhase::Closed,
            !final(self).temp_exists(),
            final(self).published() == old(self).published(),
    {
        self.phase = RecvPhase::Closed;
        self.temp = Ghost(false);
    }

    /// Ends the session cleanly: the peer closed before any byte of a
    /// new header, which is a normal end, not an error.
    pub fn end_session(&mut self)
        requires
            old(self).wf(),
            old(self).phase() == RecvPhase::AwaitHeader,
        ensures
            final(self).wf(),
            final(self).phase() == RecvPhase::Closed,
            !final(self).temp_exists(),
            final(self).published() == old(self).published(),
    {
        self.phase = RecvPhase::Closed;
    }
}

/// Round-trip integrity at the directory model: a payload that arrives
/// exactly as sent, under the checksum the sender computed from it, is
/// published byte-identical to the sent content — for every content,
/// the empty one included.
pub proof fn lemma_round_trip_publish(dir: Map<Seq<u8>, Seq<u8>>, name: Seq<u8>, content: Seq<u8>)
    ensures
        publish_effect(dir, name, content, digest_of(content)) == dir.insert(name, content),
{
}

/// Corruption detection at the directory model: if what arrived hashes
/// differently from what was sent — as any altered payload byte that
/// changes the digest does — the frame is rejected and nothing appears
/// under the final name.
pub proof fn lemma_corruption_detected(
    dir: Map<Seq<u8>, Seq<u8>>,
    name: Seq<u8>,
    sent: Seq<u8>,
    got: Seq<u8>,
)
    requires
        digest_of(got) != digest_of(sent),
    ensures
        publish_effect(dir, name, got, digest_of(sent)) == dir,
{
}

/// Atomic visibility at the directory model: one frame either leaves the
/// directory unchanged or puts the complete payload under its name in a
/// single step, and no other name is touched — a reader polling the
/// directory sees a file absent, then instantly complete, never partial.
pub proof fn lemma_atomic_publish(
    dir: Map<Seq<u8>, Seq<u8>>,
    name: Seq<u8>,
    payload: Seq<u8>,
    checksum: Seq<u8>,
)
    ensures
        publish_effect(dir, name, payload, checksum) == dir || publish_effect(
            dir,
            name,
            payload,
            checksum,
        ) == dir.insert(name, payload),
        publish_effect(dir, name, payload, checksum).remove(name) == dir.remove(name),
{
    if digest_of(payload) == checksum {
        assert(dir.insert(name, payload).remove(name) =~= dir.remove(name));
    }
}

/// Idempotent republish at the directory model: delivering the same
/// `(name, content)` frame twice leaves the directory exactly as one
/// delivery does.
pub proof fn lemma_idempotent_republish(
    dir: Map<Seq<u8>, Seq<u8>>,
    name: Seq<u8>,
    payload: Seq<u8>,
    checksum: Seq<u8>,
)
    ensures
        publish_effect(publish_effect(dir, name, payload, checksum), name, payload, checksum)
            == publish_effect(dir, name, payload, checksum),
{
    if digest_of(payload) == checksum {
        assert(dir.insert(name, payload).insert(name, payload) =~= dir.insert(name, payload));
    }
}

} // verus!
