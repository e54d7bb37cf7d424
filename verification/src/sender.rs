//! Sender-side decisions: how one attempt's outcome drives the single
//! transparent retry, how the ACK byte is classified, and how the
//! connection-establishment loop reacts to a failed attempt. The
//! surrounding process performs the socket work and feeds the outcomes
//! back in; every decision taken on them is stated here.
use vstd::prelude::*;
use crate::codec::ACK_OK;
use crate::codec::FrameHeader;
use crate::codec::MAX_NAME_LEN;
use crate::hash::digest_of;
use crate::hash::hash_bytes;

verus! {

/// Delay before the next connection attempt to an unreachable
/// destination, in milliseconds.
pub const RECONNECT_BACKOFF_MS: u64 = 500;

/// Why a send failed after the built-in retry was spent.
#[derive(Clone, Copy, Debug, PartialEq, Eq, Structural)]
pub enum SendError {
    /// The name does not fit the 16-bit length prefix.
    NameTooLong,
    /// The frame was delivered but the receiver answered with a NACK.
    Rejected,
    /// The connection broke while writing the frame or reading the ACK.
    ConnectionLost,
    /// The source file could not be opened or read at this attempt: a
    /// per-file fault, surfaced to the operator, fatal to nothing else.
    SourceUnreadable,
}

/// What one wire attempt for one file came to.
#[derive(Clone, Copy, Debug, PartialEq, Eq, Structural)]
pub enum AttemptOutcome {
    /// Frame written and the receiver answered with the ACK byte.
    Delivered,
    /// Frame written but the receiver answered with a NACK.
    Rejected,
    /// The connection broke before an answer arrived.
    ConnectionLost,
}

/// What the manager does next with a file after one attempt.
#[derive(Clone, Copy, Debug, PartialEq, Eq, Structural)]
pub enum SendStep {
    /// The file was delivered; nothing more to do.
    Done,
    /// Reconnect, re-read the file, rebuild the frame (name, size and
    /// digest recomputed from the current content) and send it once more.
    ReconnectAndResend,
    /// Both attempts failed; report the failure to the dispatcher.
    Failed(SendError),
}

/// Builds the frame header for one file as read at this attempt: the
/// size is the exact byte length of the content and the checksum is the
/// digest of that content, computed before anything is written to the
/// wire. A retry must build a fresh header from the file's current
/// content; nothing here is kept across attempts. Fails exactly when the
/// name does not fit the 16-bit length prefix.
pub fn build_frame(name: Vec<u8>, content: &[u8]) -> (r: Result<FrameHeader, SendError>)
    ensures
        match r {
            Ok(f) => name@.len() <= MAX_NAME_LEN && f.wf() && f.name@ == name@ && f.size
                == content@.len() && f.checksum@ == digest_of(content@),
            Err(e) => name@.len() > MAX_NAME_LEN && e == SendError::NameTooLong,
        },
{
    if name.len() > MAX_NAME_LEN {
        return Err(SendError::NameTooLong);
    }
    let checksum = hash_bytes(content);
    let size = content.len() as u64;
    Ok(FrameHeader { name, size, checksum })
}

/// Classifies the single answer byte read after a frame: exactly the ACK
/// byte means the receiver published the file; every other byte is a
/// rejection.
pub fn classify_ack(ack: u8) -> (r: AttemptOutcome)
    ensures
        ack == ACK_OK ==> r == AttemptOutcome::Delivered,
        ack != ACK_OK ==> r == AttemptOutcome::Rejected,
{
    if ack == ACK_OK {
        AttemptOutcome::Delivered
    } else {
        AttemptOutcome::Rejected
    }
}

/// The one-shot retry policy: a first failed attempt, of either kind, is
/// retried once over a fresh connection; a second failure is reported and
/// nothing is retried further. Success ends the send at once.
pub fn retry_decision(first_attempt: bool, outcome: AttemptOutcome) -> (s: SendStep)
    ensures
        outcome == AttemptOutcome::Delivered ==> s == SendStep::Done,
        outcome != AttemptOutcome::Delivered && first_attempt ==> s == SendStep::ReconnectAndResend,
        outcome == AttemptOutcome::Rejected && !first_attempt ==> s == SendStep::Failed(
            SendError::Rejected,
        ),
        outcome == AttemptOutcome::ConnectionLost && !first_attempt ==> s == SendStep::Failed(
            SendError::ConnectionLost,
        ),
{
    match outcome {
        AttemptOutcome::Delivered => SendStep::Done,
        AttemptOutcome::Rejected => {
            if first_attempt {
                SendStep::ReconnectAndResend
            } else {
                SendStep::Failed(SendError::Rejected)
            }
        },
        AttemptOutcome::ConnectionLost => {
            if first_attempt {
                SendStep::ReconnectAndResend
            } else {
                SendStep::Failed(SendError::ConnectionLost)
            }
        },
    }
}

/// What one connection attempt came to.
#[derive(Clone, Copy, Debug, PartialEq, Eq, Structural)]
pub enum ConnectOutcome {
    /// A socket was opened, send-coalescing disabled, and the peer
    /// accepted the connection.
    Connected,
    /// Opening, configuring or connecting the socket failed.
    Unreachable,
}

/// What the establishment loop does after one attempt.
#[derive(Clone, Copy, Debug, PartialEq, Eq, Structural)]
pub enum ConnectAction {
    /// Hand the fresh connection to the send path.
    UseConnection,
    /// Wait `RECONNECT_BACKOFF_MS` and try again.
    BackoffAndRetry,
}

/// What the establishment loop does with one attempt's outcome: a
/// successful attempt ends the loop, any failure waits out the backoff
/// and tries again. There is no third action: an unreachable destination
/// is retried indefinitely and never aborts the process.
pub open spec fn connect_action_of(outcome: ConnectOutcome) -> ConnectAction {
    if outcome == ConnectOutcome::Connected {
        ConnectAction::UseConnection
    } else {
        ConnectAction::BackoffAndRetry
    }
}

/// The establishment loop's only decision, as `connect_action_of` states
/// it.
pub fn connect_decision(outcome: ConnectOutcome) -> (a: ConnectAction)
    ensures
        a == connect_action_of(outcome),
        a == ConnectAction::UseConnection <==> outcome == ConnectOutcome::Connected,
{
    match outcome {
        ConnectOutcome::Connected => ConnectAction::UseConnection,
        ConnectOutcome::Unreachable => ConnectAction::BackoffAndRetry,
    }
}

/// Reconnect resilience: over any run of attempts in which the
/// destination is unreachable `k` times and then becomes reachable, the
/// establishment loop backs off after each failed attempt — it never
/// abandons the send and never takes any third action — and hands the
/// connection over exactly at the first successful attempt.
pub proof fn lemma_reconnect_resilience(outcomes: Seq<ConnectOutcome>, k: int)
    requires
        0 <= k < outcomes.len(),
        outcomes[k] == ConnectOutcome::Connected,
        forall|i: int| 0 <= i < k ==> outcomes[i] == ConnectOutcome::Unreachable,
    ensures
        forall|i: int|
            0 <= i < k ==> connect_action_of(outcomes[i]) == ConnectAction::BackoffAndRetry,
        connect_action_of(outcomes[k]) == ConnectAction::UseConnection,
{
}

} // verus!
