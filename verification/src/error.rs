//! The error taxonomy of the gateway client.

use vstd::prelude::*;

verus! {

/// The close signal of the transport channel: an optional numeric code and
/// a human-readable reason.
#[derive(Debug, Clone, PartialEq, Eq)]
pub struct CloseFrame {
    /// The close code the remote end sent, if any.
    pub code: u16,
    /// The textual reason the remote end sent.
    pub reason: String,
}

/// Everything that can go wrong between the transport and the state
/// machine.
#[derive(Debug, PartialEq, Eq)]
pub enum Error {
    /// The transport layer itself failed (I/O, TLS, framing). Raised by the
    /// caller that owns the socket, never by the library.
    Transport,
    /// A binary frame did not inflate to UTF-8 text.
    Compression,
    /// A frame held no well-formed envelope: malformed JSON, a missing or
    /// non-numeric opcode, an unknown opcode or event name, or a payload of
    /// the wrong shape.
    Decode,
    /// The remote end closed the channel, with the close frame it sent, if
    /// any. This is a failure of the connection, not an empty read.
    Closed(Option<CloseFrame>),
    /// A resume was requested before any session id was ever captured.
    NoSessionToResume,
}

} // verus!
