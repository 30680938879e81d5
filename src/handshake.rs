use vstd::prelude::*;
use crate::codec::{be_bytes, be_value, frame_spec, lemma_be_value_of_bytes, read_u64_be, write_frame};
use crate::error::{ProtocolError, SessionError};
use crate::object::{bytes_equal, HANDSHAKE_TAG};
use crate::utf8::{is_utf8, utf8_valid};

verus! {

/// The longest secret a handshake may carry (4 KiB).
pub const MAX_SECRET_LEN: u64 = 4096;

/// The frame a client writes first: the handshake tag, the secret's
/// big-endian length and the secret. A secret over the limit is a
/// configuration error and nothing is written.
pub fn client_hello(secret: &[u8]) -> (r: Result<Vec<u8>, SessionError>)
    ensures
        secret@.len() <= MAX_SECRET_LEN ==> (r matches Ok(b) && b@ == frame_spec(
            HANDSHAKE_TAG,
            secret@,
        )),
        secret@.len() > MAX_SECRET_LEN ==> r == Err::<Vec<u8>, SessionError>(
            SessionError::Config,
        ),
{
    if secret.len() as u64 > MAX_SECRET_LEN {
        return Err(SessionError::Config);
    }
    let mut out: Vec<u8> = Vec::new();
    write_frame(HANDSHAKE_TAG, secret, &mut out);
    assert(out@ =~= frame_spec(HANDSHAKE_TAG, secret@));
    Ok(out)
}

/// Where the server side of a handshake stands.
#[derive(PartialEq, Eq, Structural, Clone, Copy, Debug)]
pub enum HandshakeStage {
    /// Waiting for the one-byte kind.
    Kind,
    /// Waiting for the eight-byte secret length.
    Length,
    /// Waiting for a secret of `len` bytes.
    Secret { len: u64 },
    /// The peer presented the configured secret.
    Accepted,
    /// The session ends with this error.
    Rejected(SessionError),
}

/// How many bytes the server reads next at `stage`.
pub open spec fn wanted_spec(stage: HandshakeStage) -> u64 {
    match stage {
        HandshakeStage::Kind => 1,
        HandshakeStage::Length => 8,
        HandshakeStage::Secret { len } => len,
        HandshakeStage::Accepted => 0,
        HandshakeStage::Rejected(_) => 0,
    }
}

/// The stage after `chunk` was read at `stage`, with `key` the configured
/// secret.
pub open spec fn step_spec(stage: HandshakeStage, key: Seq<u8>, chunk: Seq<u8>) -> HandshakeStage {
    match stage {
        HandshakeStage::Kind => if chunk.len() != 1 {
            HandshakeStage::Rejected(SessionError::Protocol(ProtocolError::Truncated))
        } else if chunk[0] != HANDSHAKE_TAG {
            HandshakeStage::Rejected(SessionError::Protocol(ProtocolError::BadHandshake))
        } else {
            HandshakeStage::Length
        },
        HandshakeStage::Length => if chunk.len() != 8 {
            HandshakeStage::Rejected(SessionError::Protocol(ProtocolError::Truncated))
        } else if be_value(chunk) > MAX_SECRET_LEN {
            HandshakeStage::Rejected(SessionError::Protocol(ProtocolError::OversizedFrame))
        } else {
            HandshakeStage::Secret { len: be_value(chunk) }
        },
        HandshakeStage::Secret { len } => if chunk.len() != len {
            HandshakeStage::Rejected(SessionError::Protocol(ProtocolError::Truncated))
        } else if !utf8_valid(chunk) {
            HandshakeStage::Rejected(SessionError::Protocol(ProtocolError::InvalidText))
        } else if chunk == key {
            HandshakeStage::Accepted
        } else {
            HandshakeStage::Rejected(SessionError::AuthFailed)
        },
        HandshakeStage::Accepted => stage,
        HandshakeStage::Rejected(_) => stage,
    }
}

/// The server side of a handshake: it asks for the bytes to read next and
/// judges them against the configured secret.
pub struct ServerHandshake {
    key: Vec<u8>,
    stage: HandshakeStage,
}

impl ServerHandshake {
    /// The configured secret.
    pub closed spec fn key_spec(&self) -> Seq<u8> {
        self.key@
    }

    /// The current stage.
    pub closed spec fn stage_spec(&self) -> HandshakeStage {
        self.stage
    }

    /// A handshake that waits for the kind byte and expects `key`.
    pub fn new(key: Vec<u8>) -> (r: ServerHandshake)
        ensures
            r.key_spec() == key@,
            r.stage_spec() == HandshakeStage::Kind,
    {
        ServerHandshake { key, stage: HandshakeStage::Kind }
    }

    /// The current stage.
    pub fn stage(&self) -> (r: HandshakeStage)
        ensures
            r == self.stage_spec(),
    {
        self.stage
    }

    /// How many bytes to read next; zero once the handshake is decided.
    pub fn wanted(&self) -> (r: u64)
        ensures
            r == wanted_spec(self.stage_spec()),
    {
        match self.stage {
            HandshakeStage::Kind => 1,
            HandshakeStage::Length => 8,
            HandshakeStage::Secret { len } => len,
            HandshakeStage::Accepted => 0,
            HandshakeStage::Rejected(_) => 0,
        }
    }

    /// Takes the bytes that were read and returns the new stage.
    pub fn feed(&mut self, chunk: &[u8]) -> (r: HandshakeStage)
        ensures
            r == final(self).stage_spec(),
            final(self).key_spec() == old(self).key_spec(),
            final(self).stage_spec() == step_spec(
                old(self).stage_spec(),
                old(self).key_spec(),
                chunk@,
            ),
    {
        let next = match self.stage {
            HandshakeStage::Kind => if chunk.len() != 1 {
                HandshakeStage::Rejected(SessionError::Protocol(ProtocolError::Truncated))
            } else if chunk[0] != HANDSHAKE_TAG {
                HandshakeStage::Rejected(SessionError::Protocol(ProtocolError::BadHandshake))
            } else {
                HandshakeStage::Length
            },
            HandshakeStage::Length => if chunk.len() != 8 {
                HandshakeStage::Rejected(SessionError::Protocol(ProtocolError::Truncated))
            } else {
                let len: u64 = read_u64_be(chunk, 0);
                assert(chunk@.subrange(0, 8) =~= chunk@);
                if len > MAX_SECRET_LEN {
                    HandshakeStage::Rejected(SessionError::Protocol(ProtocolError::OversizedFrame))
                } else {
                    HandshakeStage::Secret { len }
                }
            },
            HandshakeStage::Secret { len } => if chunk.len() as u64 != len {
                HandshakeStage::Rejected(SessionError::Protocol(ProtocolError::Truncated))
            } else if !is_utf8(chunk) {
                HandshakeStage::Rejected(SessionError::Protocol(ProtocolError::InvalidText))
            } else if bytes_equal(chunk, self.key.as_slice()) {
                HandshakeStage::Accepted
            } else {
                HandshakeStage::Rejected(SessionError::AuthFailed)
            },
            HandshakeStage::Accepted => HandshakeStage::Accepted,
            HandshakeStage::Rejected(e) => HandshakeStage::Rejected(e),
        };
        self.stage = next;
        next
    }
}

/// A stream whose first byte is not the handshake tag is refused with
/// `BadHandshake` on that byte alone: nothing more is read from it.
pub proof fn lemma_handshake_rejection(key: Seq<u8>, first: Seq<u8>)
    requires
        first.len() == 1,
        first[0] != HANDSHAKE_TAG,
    ensures
        step_spec(HandshakeStage::Kind, key, first) == HandshakeStage::Rejected(
            SessionError::Protocol(ProtocolError::BadHandshake),
        ),
        wanted_spec(step_spec(HandshakeStage::Kind, key, first)) == 0,
{
}

/// A server that reads a client's hello with a UTF-8 secret in the pieces it
/// asks for accepts it exactly when the client's secret is its own, and
/// otherwise refuses it with `AuthFailed`.
pub proof fn lemma_hello_judged(key: Seq<u8>, secret: Seq<u8>)
    requires
        secret.len() <= MAX_SECRET_LEN,
        utf8_valid(secret),
    ensures
        ({
            let hello = frame_spec(HANDSHAKE_TAG, secret);
            let s1 = step_spec(HandshakeStage::Kind, key, hello.subrange(0, 1));
            let s2 = step_spec(s1, key, hello.subrange(1, 9));
            let s3 = step_spec(s2, key, hello.subrange(9, 9 + wanted_spec(s2)));
            &&& wanted_spec(HandshakeStage::Kind) == 1
            &&& wanted_spec(s1) == 8
            &&& wanted_spec(s2) == secret.len()
            &&& 9 + wanted_spec(s2) == hello.len()
            &&& (secret == key ==> s3 == HandshakeStage::Accepted)
            &&& (secret != key ==> s3 == HandshakeStage::Rejected(SessionError::AuthFailed))
        }),
{
    let hello = frame_spec(HANDSHAKE_TAG, secret);
    let n: u64 = secret.len() as u64;
    lemma_be_value_of_bytes(n);
    assert(hello.subrange(1, 9) =~= be_bytes(n));
    assert(hello.subrange(9, 9 + n) =~= secret);
}

} // verus!
