use filerep::dispatch::summarize_fanout;
use filerep::hash::hash_bytes;
use filerep::sender::{
    build_frame, classify_ack, connect_decision, retry_decision, AttemptOutcome, ConnectAction,
    ConnectOutcome, SendError, SendStep, RECONNECT_BACKOFF_MS,
};

#[test]
fn ack_byte_classification() {
    assert_eq!(classify_ack(1), AttemptOutcome::Delivered);
    assert_eq!(classify_ack(0), AttemptOutcome::Rejected);
    // Any byte other than the ACK is a rejection.
    assert_eq!(classify_ack(2), AttemptOutcome::Rejected);
    assert_eq!(classify_ack(255), AttemptOutcome::Rejected);
}

#[test]
fn one_transparent_retry_then_failure_propagates() {
    // Success ends the send at once.
    assert_eq!(
        retry_decision(true, AttemptOutcome::Delivered),
        SendStep::Done
    );
    assert_eq!(
        retry_decision(false, AttemptOutcome::Delivered),
        SendStep::Done
    );
    // A first failure of either kind is retried over a fresh connection.
    assert_eq!(
        retry_decision(true, AttemptOutcome::ConnectionLost),
        SendStep::ReconnectAndResend
    );
    assert_eq!(
        retry_decision(true, AttemptOutcome::Rejected),
        SendStep::ReconnectAndResend
    );
    // A second failure is reported, not retried again.
    assert_eq!(
        retry_decision(false, AttemptOutcome::ConnectionLost),
        SendStep::Failed(SendError::ConnectionLost)
    );
    assert_eq!(
        retry_decision(false, AttemptOutcome::Rejected),
        SendStep::Failed(SendError::Rejected)
    );
}

#[test]
fn reconnect_backs_off_until_reachable() {
    // The receiver is unreachable for three attempts, then accepts.
    let outcomes = [
        ConnectOutcome::Unreachable,
        ConnectOutcome::Unreachable,
        ConnectOutcome::Unreachable,
        ConnectOutcome::Connected,
    ];
    let mut backoffs = 0u32;
    let mut connected = false;
    for o in outcomes {
        match connect_decision(o) {
            ConnectAction::BackoffAndRetry => backoffs += 1,
            ConnectAction::UseConnection => {
                connected = true;
                break;
            }
        }
    }
    assert!(connected);
    assert_eq!(backoffs, 3);
    assert_eq!(RECONNECT_BACKOFF_MS, 500);
}

#[test]
fn fanout_marks_each_destination_independently() {
    // Two destinations, the first unreachable: the reachable one is
    // still delivered and a failure is recorded for the other.
    let results = vec![Err(SendError::ConnectionLost), Ok(())];
    assert_eq!(summarize_fanout(&results), vec![false, true]);

    let results = vec![
        Ok(()),
        Err(SendError::Rejected),
        Ok(()),
        Err(SendError::ConnectionLost),
    ];
    assert_eq!(summarize_fanout(&results), vec![true, false, true, false]);

    let none: Vec<Result<(), SendError>> = Vec::new();
    assert_eq!(summarize_fanout(&none), Vec::<bool>::new());
}

#[test]
fn build_frame_computes_size_and_digest() {
    let content = b"file body";
    let f = build_frame(b"n".to_vec(), content).unwrap();
    assert_eq!(f.size, content.len() as u64);
    assert_eq!(f.checksum, hash_bytes(content));
    assert_eq!(f.name, b"n");
}

#[test]
fn build_frame_refuses_overlong_name() {
    let name = vec![b'y'; 65536];
    assert!(matches!(
        build_frame(name, b"x"),
        Err(SendError::NameTooLong)
    ));
    let name = vec![b'y'; 65535];
    assert!(build_frame(name, b"x").is_ok());
}
