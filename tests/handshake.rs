use clipshare::error::{ProtocolError, SessionError};
use clipshare::handshake::{client_hello, HandshakeStage, ServerHandshake, MAX_SECRET_LEN};

fn run(server: &mut ServerHandshake, stream: &[u8]) -> (HandshakeStage, usize) {
    let mut at = 0usize;
    loop {
        if matches!(server.stage(), HandshakeStage::Accepted | HandshakeStage::Rejected(_)) {
            return (server.stage(), at);
        }
        let end = (at + server.wanted() as usize).min(stream.len());
        server.feed(&stream[at..end]);
        at = end;
    }
}

#[test]
fn hello_layout() {
    let h = client_hello(b"s3cret").unwrap();
    assert_eq!(h, vec![0, 0, 0, 0, 0, 0, 0, 0, 6, b's', b'3', b'c', b'r', b'e', b't']);
}

#[test]
fn matching_secret_accepted() {
    let h = client_hello(b"s3cret").unwrap();
    let mut s = ServerHandshake::new(b"s3cret".to_vec());
    assert_eq!(s.wanted(), 1);
    assert_eq!(run(&mut s, &h), (HandshakeStage::Accepted, h.len()));
    assert_eq!(s.wanted(), 0);
}

#[test]
fn wrong_secret_rejected() {
    let h = client_hello(b"wrong").unwrap();
    let mut s = ServerHandshake::new(b"s3cret".to_vec());
    assert_eq!(run(&mut s, &h).0, HandshakeStage::Rejected(SessionError::AuthFailed));
    assert_eq!(s.wanted(), 0);
}

#[test]
fn bad_first_byte_reads_nothing_more() {
    for first in 1u8..=255 {
        let mut s = ServerHandshake::new(b"s3cret".to_vec());
        let stage = s.feed(&[first]);
        assert_eq!(stage, HandshakeStage::Rejected(SessionError::Protocol(ProtocolError::BadHandshake)));
        assert_eq!(s.wanted(), 0);
    }
}

#[test]
fn oversized_secret_length_rejected() {
    let mut s = ServerHandshake::new(b"k".to_vec());
    assert_eq!(s.feed(&[0]), HandshakeStage::Length);
    assert_eq!(s.wanted(), 8);
    let stage = s.feed(&[0, 0, 0, 0, 0, 0, 0x10, 0x01]);
    assert_eq!(stage, HandshakeStage::Rejected(SessionError::Protocol(ProtocolError::OversizedFrame)));
}

#[test]
fn short_reads_rejected() {
    let mut s = ServerHandshake::new(b"k".to_vec());
    assert_eq!(s.feed(&[]), HandshakeStage::Rejected(SessionError::Protocol(ProtocolError::Truncated)));
    let mut t = ServerHandshake::new(b"key".to_vec());
    t.feed(&[0]);
    assert_eq!(t.feed(&[0, 0, 0, 0, 0, 0, 0, 3]), HandshakeStage::Secret { len: 3 });
    assert_eq!(t.wanted(), 3);
    assert_eq!(t.feed(b"ke"), HandshakeStage::Rejected(SessionError::Protocol(ProtocolError::Truncated)));
}

#[test]
fn secret_limit() {
    let at_limit = vec![b'a'; MAX_SECRET_LEN as usize];
    let h = client_hello(&at_limit).unwrap();
    let mut s = ServerHandshake::new(at_limit.clone());
    assert_eq!(run(&mut s, &h).0, HandshakeStage::Accepted);
    let over = vec![b'a'; MAX_SECRET_LEN as usize + 1];
    assert_eq!(client_hello(&over), Err(SessionError::Config));
}

#[test]
fn empty_secret() {
    let h = client_hello(b"").unwrap();
    assert_eq!(h.len(), 9);
    let mut s = ServerHandshake::new(Vec::new());
    assert_eq!(s.feed(&h[..1]), HandshakeStage::Length);
    assert_eq!(s.feed(&h[1..9]), HandshakeStage::Secret { len: 0 });
    assert_eq!(s.feed(&[]), HandshakeStage::Accepted);
}

#[test]
fn non_utf8_secret_rejected() {
    let mut s = ServerHandshake::new(b"k".to_vec());
    s.feed(&[0]);
    s.feed(&[0, 0, 0, 0, 0, 0, 0, 1]);
    assert_eq!(s.feed(&[0xFF]), HandshakeStage::Rejected(SessionError::Protocol(ProtocolError::InvalidText)));
    assert_eq!(s.wanted(), 0);
}
