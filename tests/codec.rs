use treasure_island_client::message::{Message, MESSAGE_ACTION_SEND_USERNAME};
use treasure_island_client::shared_state::InboundFrame;

#[test]
fn new_message_has_zero_payload() {
    let m = Message::new(7);
    assert_eq!(m.action, 7);
    assert_eq!(m.data, [0u8; 32]);
}

#[test]
fn set_data_replaces_payload() {
    let mut m = Message::new(3);
    let mut data = [0u8; 32];
    data[0] = 9;
    data[31] = 4;
    m.set_data(data);
    assert_eq!(m.action, 3);
    assert_eq!(m.data, data);
}

#[test]
fn encode_writes_action_then_payload() {
    let mut m = Message::new(5);
    let mut data = [0u8; 32];
    for (i, b) in data.iter_mut().enumerate() {
        *b = i as u8 + 100;
    }
    m.set_data(data);
    let bytes = m.encode();
    assert_eq!(bytes.len(), 33);
    assert_eq!(bytes[0], 5);
    assert_eq!(&bytes[1..], &data[..]);
}

#[test]
fn username_message_is_padded() {
    let m = Message::from_username(b"username");
    assert_eq!(m.action, MESSAGE_ACTION_SEND_USERNAME);
    assert_eq!(&m.data[..8], b"username");
    assert!(m.data[8..].iter().all(|b| *b == 0));
}

#[test]
fn username_round_trip_through_wire() {
    let name = b"PLAYERONE";
    let sent = Message::from_username(name);
    let bytes = sent.encode();
    let back = Message::decode(&bytes);
    assert_eq!(back.action, 1);
    assert_eq!(&back.data[..name.len()], &name[..]);
    assert!(back.data[name.len()..].iter().all(|b| *b == 0));
}

#[test]
fn encode_of_decode_gives_back_the_bytes() {
    let bytes: Vec<u8> = (0..33u8).map(|i| i.wrapping_mul(37)).collect();
    let m = Message::decode(&bytes);
    assert_eq!(m.action, bytes[0]);
    assert_eq!(m.encode(), bytes);
}

#[test]
fn full_length_username_fills_payload() {
    let name = [b'Z'; 32];
    let m = Message::from_username(&name);
    assert_eq!(m.data, name);
    assert_eq!(m.encode()[1..], name[..]);
}

#[test]
fn inbound_frame_decode_splits_tag_and_data() {
    let mut bytes = vec![0u8; 401];
    bytes[0] = 1;
    for i in 0..400 {
        bytes[i + 1] = (i % 4) as u8;
    }
    let f = InboundFrame::decode(&bytes);
    assert_eq!(f.action, 1);
    assert_eq!(&f.data[..], &bytes[1..]);
}
