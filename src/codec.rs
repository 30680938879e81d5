use vstd::prelude::*;
use crate::error::ProtocolError;
use crate::object::{ClipboardObject, ObjectView, is_object_tag, object_of, TEXT_TAG};
use crate::utf8::{is_utf8, utf8_valid};

verus! {

/// Bytes in a frame header: the tag and the big-endian `u64` length.
pub const HEADER_LEN: usize = 9;

/// The largest payload length a receiver accepts (256 MiB).
pub const MAX_FRAME_LEN: u64 = 268435456;

/// The eight big-endian bytes of `n`.
pub open spec fn be_bytes(n: u64) -> Seq<u8> {
    seq![
        (n >> 56u64) as u8,
        (n >> 48u64) as u8,
        (n >> 40u64) as u8,
        (n >> 32u64) as u8,
        (n >> 24u64) as u8,
        (n >> 16u64) as u8,
        (n >> 8u64) as u8,
        n as u8,
    ]
}

/// The number whose big-endian bytes are the first eight of `b`.
pub open spec fn be_value(b: Seq<u8>) -> u64
    recommends
        b.len() >= 8,
{
    ((b[0] as u64) << 56u64) | ((b[1] as u64) << 48u64) | ((b[2] as u64) << 40u64) | ((
    b[3] as u64) << 32u64) | ((b[4] as u64) << 24u64) | ((b[5] as u64) << 16u64) | ((
    b[6] as u64) << 8u64) | (b[7] as u64)
}

/// Reading back the big-endian bytes of a number gives the number.
pub proof fn lemma_be_value_of_bytes(n: u64)
    ensures
        be_value(be_bytes(n)) == n,
{
    let b = be_bytes(n);
    let (b0, b1, b2, b3) = (b[0], b[1], b[2], b[3]);
    let (b4, b5, b6, b7) = (b[4], b[5], b[6], b[7]);
    assert(((b0 as u64) << 56u64) | ((b1 as u64) << 48u64) | ((b2 as u64) << 40u64) | ((
    b3 as u64) << 32u64) | ((b4 as u64) << 24u64) | ((b5 as u64) << 16u64) | ((b6 as u64)
        << 8u64) | (b7 as u64) == n) by (bit_vector)
        requires
            b0 == (n >> 56u64) as u8,
            b1 == (n >> 48u64) as u8,
            b2 == (n >> 40u64) as u8,
            b3 == (n >> 32u64) as u8,
            b4 == (n >> 24u64) as u8,
            b5 == (n >> 16u64) as u8,
            b6 == (n >> 8u64) as u8,
            b7 == n as u8,
    ;
}

/// The bytes of one frame: tag, big-endian payload length, payload.
pub open spec fn frame_spec(tag: u8, payload: Seq<u8>) -> Seq<u8> {
    seq![tag] + be_bytes(payload.len() as u64) + payload
}

/// The frame that carries an object.
pub open spec fn encode_spec(o: ObjectView) -> Seq<u8> {
    frame_spec(o.tag(), o.payload())
}

/// The tag and declared payload length at the start of a frame.
#[derive(PartialEq, Eq, Structural, Clone, Copy, Debug)]
pub struct FrameHeader {
    pub tag: u8,
    pub len: u64,
}

/// The length field of the header at the start of `b`.
pub open spec fn declared_len(b: Seq<u8>) -> u64 {
    be_value(b.subrange(1, 9))
}

/// What the first nine bytes of `b` say, or why they are refused.
pub open spec fn header_spec(b: Seq<u8>) -> Result<FrameHeader, ProtocolError> {
    if b.len() < HEADER_LEN {
        Err(ProtocolError::Truncated)
    } else if !is_object_tag(b[0]) {
        Err(ProtocolError::UnknownTag)
    } else if declared_len(b) > MAX_FRAME_LEN {
        Err(ProtocolError::OversizedFrame)
    } else {
        Ok(FrameHeader { tag: b[0], len: declared_len(b) })
    }
}

/// The object at the start of `b` with the number of bytes its frame takes,
/// or why none can be read there.
pub open spec fn decode_spec(b: Seq<u8>) -> Result<(ObjectView, int), ProtocolError> {
    match header_spec(b) {
        Err(e) => Err(e),
        Ok(h) => if b.len() < HEADER_LEN + h.len {
            Err(ProtocolError::Truncated)
        } else if !utf8_valid(b.subrange(9, 9 + h.len)) {
            Err(ProtocolError::InvalidText)
        } else {
            Ok((object_of(h.tag, b.subrange(9, 9 + h.len)), 9 + h.len))
        },
    }
}

/// Appends the big-endian bytes of `n` to `out`.
pub fn write_u64_be(n: u64, out: &mut Vec<u8>)
    ensures
        final(out)@ == old(out)@ + be_bytes(n),
{
    out.push((n >> 56u64) as u8);
    out.push((n >> 48u64) as u8);
    out.push((n >> 40u64) as u8);
    out.push((n >> 32u64) as u8);
    out.push((n >> 24u64) as u8);
    out.push((n >> 16u64) as u8);
    out.push((n >> 8u64) as u8);
    out.push(n as u8);
    assert(final(out)@ =~= old(out)@ + be_bytes(n));
}

/// Reads a big-endian `u64` from the eight bytes of `b` that start at `at`.
pub fn read_u64_be(b: &[u8], at: usize) -> (r: u64)
    requires
        at + 8 <= b@.len(),
    ensures
        r == be_value(b@.subrange(at as int, at + 8)),
{
    ((b[at] as u64) << 56u64) | ((b[at + 1] as u64) << 48u64) | ((b[at + 2] as u64) << 40u64)
        | ((b[at + 3] as u64) << 32u64) | ((b[at + 4] as u64) << 24u64) | ((b[at + 5] as u64)
        << 16u64) | ((b[at + 6] as u64) << 8u64) | (b[at + 7] as u64)
}

/// Appends `b[start..end]` to `out`.
pub fn append_range(b: &[u8], start: usize, end: usize, out: &mut Vec<u8>)
    requires
        start <= end <= b@.len(),
    ensures
        final(out)@ == old(out)@ + b@.subrange(start as int, end as int),
{
    let mut i: usize = start;
    while i < end
        invariant
            start <= i <= end <= b@.len(),
            out@ == old(out)@ + b@.subrange(start as int, i as int),
        decreases end - i,
    {
        out.push(b[i]);
        assert(b@.subrange(start as int, i + 1) == b@.subrange(start as int, i as int).push(
            b@[i as int],
        ));
        i = i + 1;
    }
}

/// Appends to `out` the frame made of `tag` and `payload`.
pub fn write_frame(tag: u8, payload: &[u8], out: &mut Vec<u8>)
    ensures
        final(out)@ == old(out)@ + frame_spec(tag, payload@),
{
    out.push(tag);
    write_u64_be(payload.len() as u64, out);
    append_range(payload, 0, payload.len(), out);
    assert(payload@.subrange(0, payload@.len() as int) == payload@);
    assert(final(out)@ =~= old(out)@ + frame_spec(tag, payload@));
}

/// Reads the header at the start of `b`.
pub fn decode_header(b: &[u8]) -> (r: Result<FrameHeader, ProtocolError>)
    ensures
        r == header_spec(b@),
{
    if b.len() < HEADER_LEN {
        return Err(ProtocolError::Truncated);
    }
    if b[0] != TEXT_TAG {
        return Err(ProtocolError::UnknownTag);
    }
    let len: u64 = read_u64_be(b, 1);
    if len > MAX_FRAME_LEN {
        return Err(ProtocolError::OversizedFrame);
    }
    Ok(FrameHeader { tag: b[0], len })
}

/// The object that a header read by `decode_header` and the payload read
/// after it stand for.
pub fn decode_payload(header: FrameHeader, payload: Vec<u8>) -> (r: Result<
    ClipboardObject,
    ProtocolError,
>)
    ensures
        !is_object_tag(header.tag) ==> r == Err::<ClipboardObject, ProtocolError>(
            ProtocolError::UnknownTag,
        ),
        is_object_tag(header.tag) && payload@.len() != header.len ==> r == Err::<
            ClipboardObject,
            ProtocolError,
        >(ProtocolError::Truncated),
        is_object_tag(header.tag) && payload@.len() == header.len && !utf8_valid(payload@) ==> r
            == Err::<ClipboardObject, ProtocolError>(ProtocolError::InvalidText),
        is_object_tag(header.tag) && payload@.len() == header.len && utf8_valid(payload@) ==> (
        r matches Ok(o) && o@ == object_of(header.tag, payload@)),
{
    if header.tag != TEXT_TAG {
        return Err(ProtocolError::UnknownTag);
    }
    if payload.len() as u64 != header.len {
        return Err(ProtocolError::Truncated);
    }
    if !is_utf8(payload.as_slice()) {
        return Err(ProtocolError::InvalidText);
    }
    Ok(ClipboardObject::Text(payload))
}

/// Every object whose payload is well-formed UTF-8 within the ceiling reads
/// back from its own frame, and the whole frame is consumed.
pub proof fn lemma_frame_round_trip(o: ObjectView)
    requires
        o.payload().len() <= MAX_FRAME_LEN,
        utf8_valid(o.payload()),
    ensures
        decode_spec(encode_spec(o)) == Ok::<(ObjectView, int), ProtocolError>(
            (o, encode_spec(o).len() as int),
        ),
{
    let b = encode_spec(o);
    let n: u64 = o.payload().len() as u64;
    lemma_be_value_of_bytes(n);
    assert(b.subrange(1, 9) =~= be_bytes(n));
    assert(b.subrange(9, 9 + n) =~= o.payload());
}

/// A frame that declares the length `L` takes exactly `9 + L` bytes: its
/// header is read from the first nine, its payload from the `L` after them,
/// and whatever follows is left alone.
pub proof fn lemma_length_fidelity(b: Seq<u8>, rest: Seq<u8>)
    requires
        decode_spec(b) is Ok,
    ensures
        ({
            let (o, n) = decode_spec(b)->Ok_0;
            &&& n == HEADER_LEN + declared_len(b)
            &&& n <= b.len()
            &&& header_spec(b.subrange(0, 9)) == Ok::<FrameHeader, ProtocolError>(
                FrameHeader { tag: b[0], len: declared_len(b) },
            )
            &&& o == object_of(b[0], b.subrange(9, n))
            &&& decode_spec(b.subrange(0, n) + rest) == decode_spec(b)
        }),
{
    let n: int = decode_spec(b)->Ok_0.1;
    let c = b.subrange(0, n) + rest;
    assert(b.subrange(0, 9).subrange(1, 9) =~= b.subrange(1, 9));
    assert(c.subrange(1, 9) =~= b.subrange(1, 9));
    assert(c.subrange(9, n) =~= b.subrange(9, n));
}

impl ClipboardObject {
    /// Appends this object's frame to `out`.
    pub fn write(&self, out: &mut Vec<u8>)
        ensures
            final(out)@ == old(out)@ + encode_spec(self@),
    {
        write_frame(self.tag(), self.payload(), out);
    }

    /// This object's frame.
    pub fn to_frame(&self) -> (r: Vec<u8>)
        ensures
            r@ == encode_spec(self@),
    {
        let mut out: Vec<u8> = Vec::new();
        self.write(&mut out);
        assert(out@ =~= encode_spec(self@));
        out
    }

    /// Reads the frame at the start of `b`: the object and the number of bytes
    /// the frame takes, or why none can be read there.
    pub fn from_bytes(b: &[u8]) -> (r: Result<(ClipboardObject, usize), ProtocolError>)
        ensures
            match (r, decode_spec(b@)) {
                (Ok((o, n)), Ok((v, m))) => o@ == v && n == m,
                (Err(e), Err(f)) => e == f,
                _ => false,
            },
    {
        let h = match decode_header(b) {
            Ok(h) => h,
            Err(e) => return Err(e),
        };
        let len: usize = h.len as usize;
        if b.len() - HEADER_LEN < len {
            return Err(ProtocolError::Truncated);
        }
        let mut payload: Vec<u8> = Vec::new();
        append_range(b, HEADER_LEN, HEADER_LEN + len, &mut payload);
        assert(payload@ =~= b@.subrange(9, 9 + h.len));
        match decode_payload(h, payload) {
            Ok(o) => Ok((o, HEADER_LEN + len)),
            Err(e) => Err(e),
        }
    }
}

} // verus!
