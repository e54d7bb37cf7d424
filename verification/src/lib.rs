//! Verified core of a file-replication pipeline: a length-prefixed wire
//! format with a whole-file digest, a receiver session that verifies and
//! atomically publishes each transfer, a sender that retries once over a
//! reconnecting link, and the fan-out and watch decisions around them.
pub mod codec;
pub mod dispatch;
pub mod hash;
pub mod paths;
pub mod receiver;
pub mod sender;
pub mod watch;
