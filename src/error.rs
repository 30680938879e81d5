use vstd::prelude::*;

verus! {

/// Wire input that breaks the protocol; it ends the session.
#[derive(PartialEq, Eq, Structural, Clone, Copy, Debug)]
pub enum ProtocolError {
    /// The stream did not open with a handshake frame.
    BadHandshake,
    /// A frame carried a tag that names no clipboard object.
    UnknownTag,
    /// A frame declared a length above the accepted ceiling.
    OversizedFrame,
    /// The input ended inside a frame.
    Truncated,
    /// A text frame carried bytes that are not well-formed UTF-8.
    InvalidText,
}

/// Why a session or the process around it stopped.
#[derive(PartialEq, Eq, Structural, Clone, Copy, Debug)]
pub enum SessionError {
    /// The OS clipboard could not be read or written.
    ClipboardUnavailable,
    /// The peer broke the wire protocol.
    Protocol(ProtocolError),
    /// The peer presented a secret other than the configured one.
    AuthFailed,
    /// The transport failed.
    Io,
    /// The handshake or the discovery wait ran past its deadline.
    Timeout,
    /// The command line or the environment could not be understood.
    Config,
}

} // verus!
