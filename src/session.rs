use vstd::prelude::*;
use crate::adapter::{observe_spec, ClipboardState};
use crate::codec::{decode_payload, encode_spec, FrameHeader};
use crate::error::{ProtocolError, SessionError};
use crate::object::{is_object_tag, object_of, ClipboardObject, ObjectView};
use crate::utf8::utf8_valid;

verus! {

/// The secret used when neither the environment nor the command line gives one.
pub open spec fn default_key() -> Seq<char> {
    "clipshare"@
}

/// The secret in force: the environment's value overrides the command
/// line's, which overrides the built-in default.
pub fn resolve_key(env: Option<String>, flag: Option<String>) -> (r: String)
    ensures
        r@ == match (env, flag) {
            (Some(e), _) => e@,
            (None, Some(f)) => f@,
            (None, None) => default_key(),
        },
{
    match env {
        Some(e) => e,
        None => match flag {
            Some(f) => f,
            None => "clipshare".to_owned(),
        },
    }
}

/// The part a process plays in a session.
pub enum Role {
    /// Listen on `port` (zero: a port the OS chooses) and accept peers.
    Server { port: u16 },
    /// Dial the server at `addr`.
    Client { addr: String },
}

/// The role for the given options: client when a remote address is given,
/// server otherwise.
pub fn select_role(url: Option<String>, port: Option<u16>) -> (r: Role)
    ensures
        match url {
            Some(u) => r matches Role::Client { addr } && addr@ == u@,
            None => r matches Role::Server { port: p } && p == match port {
                Some(q) => q,
                None => 0u16,
            },
        },
{
    match url {
        Some(addr) => Role::Client { addr },
        None => Role::Server {
            port: match port {
                Some(q) => q,
                None => 0,
            },
        },
    }
}

/// The frames the send loop writes for what it observed.
pub open spec fn outgoing_spec(o: Option<ObjectView>) -> Option<Seq<u8>> {
    match o {
        Some(v) => Some(encode_spec(v)),
        None => None,
    }
}

/// One step of the send loop: takes a read of the OS clipboard and returns
/// the frame to write when it is a change.
pub fn outgoing_frame(state: &mut ClipboardState, current: ClipboardObject) -> (r: Option<Vec<u8>>)
    ensures
        match outgoing_spec(observe_spec(old(state).last_spec(), current@)) {
            Some(f) => r matches Some(b) && b@ == f,
            None => r is None,
        },
        final(state).last_spec() == Some(current@),
{
    match state.observe(current) {
        Some(o) => Some(o.to_frame()),
        None => None,
    }
}

/// One step of the receive loop: takes a frame's header and payload and
/// returns the object to write to the OS clipboard, recorded first so that
/// the write is not sent back.
pub fn incoming_object(state: &mut ClipboardState, header: FrameHeader, payload: Vec<u8>) -> (r:
    Result<ClipboardObject, ProtocolError>)
    ensures
        !is_object_tag(header.tag) ==> r == Err::<ClipboardObject, ProtocolError>(
            ProtocolError::UnknownTag,
        ) && final(state).last_spec() == old(state).last_spec(),
        is_object_tag(header.tag) && payload@.len() != header.len ==> r == Err::<
            ClipboardObject,
            ProtocolError,
        >(ProtocolError::Truncated) && final(state).last_spec() == old(state).last_spec(),
        is_object_tag(header.tag) && payload@.len() == header.len && !utf8_valid(payload@) ==> r
            == Err::<ClipboardObject, ProtocolError>(ProtocolError::InvalidText) && final(state).last_spec()
            == old(state).last_spec(),
        is_object_tag(header.tag) && payload@.len() == header.len && utf8_valid(payload@) ==> (
        r matches Ok(o) && o@ == object_of(header.tag, payload@) && final(state).last_spec()
            == Some(o@)),
{
    match decode_payload(header, payload) {
        Ok(o) => {
            state.record_copy(&o);
            Ok(o)
        },
        Err(e) => Err(e),
    }
}

/// The process's exit status after it stopped with `r`: zero on a normal
/// end, two for a configuration error, one for any other failure.
pub fn exit_status(r: Result<(), SessionError>) -> (s: i32)
    ensures
        s == match r {
            Ok(()) => 0i32,
            Err(SessionError::Config) => 2i32,
            Err(_) => 1i32,
        },
{
    match r {
        Ok(()) => 0,
        Err(SessionError::Config) => 2,
        Err(_) => 1,
    }
}

} // verus!
