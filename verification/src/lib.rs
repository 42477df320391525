//! Client-side state machine, codec and timing policy for a sharded
//! real-time gateway connection.
//!
//! The crate models one "shard": a logical connection to a partition of a
//! remote event stream. It decodes inbound wire messages into typed events,
//! feeds them to a connection state machine that decides how to react
//! (heartbeat, identify, resume, reconnect), and encodes the frames that
//! must be sent back. All transport I/O is left to the caller: the library
//! works on plain values and tells the caller what to send and where to
//! connect.

pub mod codec;
pub mod dispatch;
pub mod error;
pub mod event;
pub mod guild;
pub mod intents;
pub mod json;
pub mod shard;
pub mod user;
