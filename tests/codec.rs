use clipshare::codec::{
    decode_header, decode_payload, read_u64_be, write_u64_be, FrameHeader, HEADER_LEN,
    MAX_FRAME_LEN,
};
use clipshare::error::ProtocolError;
use clipshare::object::{ClipboardObject, TEXT_TAG};

fn text(s: &str) -> ClipboardObject {
    ClipboardObject::Text(s.as_bytes().to_vec())
}

#[test]
fn text_frame_layout() {
    let f = text("hello").to_frame();
    assert_eq!(f, vec![1, 0, 0, 0, 0, 0, 0, 0, 5, b'h', b'e', b'l', b'l', b'o']);
}

#[test]
fn frame_round_trip_text() {
    let o = text("hello");
    let f = o.to_frame();
    let (back, n) = ClipboardObject::from_bytes(&f).unwrap();
    assert_eq!(back, o);
    assert_eq!(n, f.len());
}

#[test]
fn frame_round_trip_empty() {
    let o = ClipboardObject::empty_text();
    let f = o.to_frame();
    assert_eq!(f.len(), HEADER_LEN);
    assert_eq!(ClipboardObject::from_bytes(&f), Ok((o, 9)));
}

#[test]
fn frame_round_trip_non_ascii() {
    let o = text("héllo wörld ✓");
    let f = o.to_frame();
    assert_eq!(ClipboardObject::from_bytes(&f), Ok((o, f.len())));
}

#[test]
fn length_fidelity_leaves_following_bytes() {
    let mut f = text("abc").to_frame();
    text("xyz").write(&mut f);
    let (first, n) = ClipboardObject::from_bytes(&f).unwrap();
    assert_eq!(first, text("abc"));
    assert_eq!(n, 12);
    let (second, m) = ClipboardObject::from_bytes(&f[n..]).unwrap();
    assert_eq!(second, text("xyz"));
    assert_eq!(m, 12);
}

#[test]
fn oversized_frame_rejected_on_header() {
    // declared length 2^40
    let h = [1u8, 0, 0, 1, 0, 0, 0, 0, 0];
    assert_eq!(decode_header(&h), Err(ProtocolError::OversizedFrame));
    assert_eq!(ClipboardObject::from_bytes(&h), Err(ProtocolError::OversizedFrame));
}

#[test]
fn ceiling_itself_is_accepted() {
    let mut h = vec![TEXT_TAG];
    write_u64_be(MAX_FRAME_LEN, &mut h);
    assert_eq!(decode_header(&h), Ok(FrameHeader { tag: TEXT_TAG, len: MAX_FRAME_LEN }));
    let mut over = vec![TEXT_TAG];
    write_u64_be(MAX_FRAME_LEN + 1, &mut over);
    assert_eq!(decode_header(&over), Err(ProtocolError::OversizedFrame));
}

#[test]
fn unknown_tag_rejected() {
    let h = [7u8, 0, 0, 0, 0, 0, 0, 0, 0];
    assert_eq!(decode_header(&h), Err(ProtocolError::UnknownTag));
    let hs = [0u8, 0, 0, 0, 0, 0, 0, 0, 0];
    assert_eq!(decode_header(&hs), Err(ProtocolError::UnknownTag));
}

#[test]
fn truncated_input_rejected() {
    assert_eq!(decode_header(&[1, 0, 0]), Err(ProtocolError::Truncated));
    assert_eq!(ClipboardObject::from_bytes(&[]), Err(ProtocolError::Truncated));
    let f = text("hello").to_frame();
    assert_eq!(ClipboardObject::from_bytes(&f[..12]), Err(ProtocolError::Truncated));
}

#[test]
fn payload_decoding() {
    let h = FrameHeader { tag: TEXT_TAG, len: 2 };
    assert_eq!(decode_payload(h, b"ok".to_vec()), Ok(text("ok")));
    assert_eq!(decode_payload(h, b"o".to_vec()), Err(ProtocolError::Truncated));
    let bad = FrameHeader { tag: 9, len: 2 };
    assert_eq!(decode_payload(bad, b"ok".to_vec()), Err(ProtocolError::UnknownTag));
}

#[test]
fn big_endian_length() {
    let mut b = Vec::new();
    write_u64_be(0x0102030405060708, &mut b);
    assert_eq!(b, vec![1, 2, 3, 4, 5, 6, 7, 8]);
    assert_eq!(read_u64_be(&b, 0), 0x0102030405060708);
    let c = [9u8, 0, 0, 0, 0, 0, 0, 1, 0];
    assert_eq!(read_u64_be(&c, 1), 256);
}

#[test]
fn object_accessors() {
    let o = text("hi");
    assert_eq!(o.tag(), 1);
    assert_eq!(o.payload(), b"hi");
    assert_eq!(o.duplicate(), o);
    assert_ne!(o, text("ho"));
}

#[test]
fn text_frame_with_invalid_utf8_rejected() {
    let f = [1u8, 0, 0, 0, 0, 0, 0, 0, 1, 0xFF];
    assert_eq!(ClipboardObject::from_bytes(&f), Err(ProtocolError::InvalidText));
    let h = decode_header(&f[..9]).unwrap();
    assert_eq!(decode_payload(h, vec![0xFF]), Err(ProtocolError::InvalidText));
}
