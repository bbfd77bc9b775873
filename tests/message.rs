use lightning_net::message::frame_payload_len;
use lightning_net::{NetworkMessage, NodeError};

#[test]
fn ping_frame_layout() {
    let bytes = NetworkMessage::Ping { nonce: 42 }.encode();
    assert_eq!(bytes, vec![0, 0, 0, 0, 8, 0, 0, 0, 0, 0, 0, 0, 42]);
}

#[test]
fn ping_is_answered_with_same_nonce() {
    let frame = NetworkMessage::Ping { nonce: 42 }.encode();
    let got = NetworkMessage::decode(&frame).unwrap();
    let reply = got.reply_to().unwrap();
    assert_eq!(reply, NetworkMessage::Pong { nonce: 42 });
    assert_eq!(reply.encode(), vec![1, 0, 0, 0, 8, 0, 0, 0, 0, 0, 0, 0, 42]);
}

#[test]
fn only_ping_gets_a_reply() {
    assert_eq!(NetworkMessage::Pong { nonce: 1 }.reply_to(), None);
}

#[test]
fn advertisement_round_trip() {
    let m = NetworkMessage::PeerAdvertisement {
        node_id: b"n1".to_vec(),
        address: b"10.0.0.1:9000".to_vec(),
        role: b"Exit".to_vec(),
    };
    assert!(m.fits_frame());
    let bytes = m.encode();
    assert_eq!(bytes[0], 2);
    assert_eq!(&bytes[1..5], &[0, 0, 0, 31]);
    assert_eq!(&bytes[5..11], &[0, 0, 0, 2, b'n', b'1']);
    assert_eq!(frame_payload_len(&bytes), Some(31));
    assert_eq!(NetworkMessage::decode(&bytes), Ok(m));
}

#[test]
fn unknown_tag_is_decode_error() {
    let bytes = vec![9, 0, 0, 0, 0];
    assert_eq!(NetworkMessage::decode(&bytes), Err(NodeError::DecodeError));
}

#[test]
fn wrong_length_is_decode_error() {
    let mut bytes = NetworkMessage::Ping { nonce: 7 }.encode();
    bytes.pop();
    assert_eq!(NetworkMessage::decode(&bytes), Err(NodeError::DecodeError));
    assert_eq!(NetworkMessage::decode(&[0, 0, 0]), Err(NodeError::DecodeError));
    assert_eq!(frame_payload_len(&[0, 0, 0]), None);
}

#[test]
fn trailing_advertisement_bytes_are_decode_error() {
    let bytes = vec![2, 0, 0, 0, 13, 0, 0, 0, 0, 0, 0, 0, 0, 0, 0, 0, 0, 7];
    assert_eq!(NetworkMessage::decode(&bytes), Err(NodeError::DecodeError));
}
