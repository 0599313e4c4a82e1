use sway_update::error::ResponseDeserializeError;
use sway_update::event::{Event, EventType};
use sway_update::frame::{decode_header, encode_frame, RawHeader, HEADER_LENGTH};
use sway_update::message::{Message, MessageType};

fn header(len: u32, tag: u32) -> Vec<u8> {
    let mut h = b"i3-ipc".to_vec();
    h.extend_from_slice(&len.to_ne_bytes());
    h.extend_from_slice(&tag.to_ne_bytes());
    h
}

#[test]
fn encode_frame_lays_out_header_then_payload() {
    let f = encode_frame(2, b"[\"window\"]");
    let mut expected = header(10, 2);
    expected.extend_from_slice(b"[\"window\"]");
    assert_eq!(f, expected);
    assert_eq!(HEADER_LENGTH, 14);
}

#[test]
fn encode_frame_of_empty_payload_is_header_only() {
    assert_eq!(encode_frame(1, b""), header(0, 1));
}

#[test]
fn decode_header_reads_length_and_tag() {
    let h = header(1234, 0x8000_0003);
    let r = decode_header(&h).unwrap();
    assert_eq!(r, RawHeader { payload_len: 1234, tag: 0x8000_0003 });
}

#[test]
fn header_round_trips_through_decode_and_encode() {
    for (len, tag) in [(0u32, 0u32), (7, 100), (300, 0x8000_0015), (65536, 12)] {
        let h = header(len, tag);
        let r = decode_header(&h).unwrap();
        assert_eq!(r.payload_len, len);
        assert_eq!(r.tag, tag);
        let again = encode_frame(r.tag, &vec![0u8; r.payload_len as usize]);
        assert_eq!(&again[0..HEADER_LENGTH], &h[..]);
    }
}

#[test]
fn bad_magic_is_rejected_whatever_follows() {
    let mut h = header(5, 1);
    h[0] = b'x';
    h[1] = b'x';
    match decode_header(&h) {
        Err(ResponseDeserializeError::InvalidMagicString(s)) => assert_eq!(s, "xx-ipc"),
        other => panic!("unexpected {other:?}"),
    }
    let mut h = header(0, 0xdead_beef);
    h[5] = b'C';
    match decode_header(&h) {
        Err(ResponseDeserializeError::InvalidMagicString(s)) => assert_eq!(s, "i3-ipC"),
        other => panic!("unexpected {other:?}"),
    }
}

#[test]
fn bad_magic_text_is_lossy() {
    let mut h = header(0, 0);
    h[0] = 0xff;
    match decode_header(&h) {
        Err(ResponseDeserializeError::InvalidMagicString(s)) => assert_eq!(s, "\u{fffd}3-ipc"),
        other => panic!("unexpected {other:?}"),
    }
}

#[test]
fn message_tags_are_fixed() {
    assert_eq!(MessageType::RunCommands.tag(), 0);
    assert_eq!(MessageType::GetWorkspaces.tag(), 1);
    assert_eq!(MessageType::Subscribe.tag(), 2);
    assert_eq!(MessageType::GetBindingState.tag(), 12);
    assert_eq!(MessageType::GetInputs.tag(), 100);
    assert_eq!(MessageType::GetSeats.tag(), 101);
    assert_eq!(MessageType::from_u32(101), Some(MessageType::GetSeats));
    assert_eq!(MessageType::from_u32(11), Some(MessageType::Sync));
    assert_eq!(MessageType::from_u32(13), None);
    assert_eq!(MessageType::from_u32(0x8000_0000), None);
}

#[test]
fn event_tags_are_fixed() {
    assert_eq!(EventType::Workspace.tag(), 0x8000_0000);
    assert_eq!(EventType::Shutdown.tag(), 0x8000_0006);
    assert_eq!(EventType::Input.tag(), 0x8000_0015);
    assert_eq!(EventType::from_u32(0x8000_0002), Some(EventType::Mode));
    assert_eq!(EventType::from_u32(0x8000_0014), Some(EventType::BarStateUpdate));
    assert_eq!(EventType::from_u32(0x8000_0001), None);
    assert_eq!(EventType::from_u32(1), None);
}

#[test]
fn as_bytes_is_native_order_tag() {
    assert_eq!(MessageType::GetInputs.as_bytes(), 100u32.to_ne_bytes());
    assert_eq!(MessageType::Subscribe.bytes(), 2u32.to_ne_bytes().to_vec());
}

#[test]
fn unknown_reply_tag_is_invalid_message_type() {
    let h = decode_header(&header(3, 42)).unwrap();
    match Message::check_header(h) {
        Err(ResponseDeserializeError::InvalidMessageType(t)) => assert_eq!(t, 42),
        other => panic!("unexpected {other:?}"),
    }
    let h = decode_header(&header(3, 0x8000_0006)).unwrap();
    assert!(matches!(Message::check_header(h), Err(ResponseDeserializeError::InvalidMessageType(0x8000_0006))));
}

#[test]
fn unknown_event_tag_is_invalid_event_type() {
    let h = decode_header(&header(3, 0x8000_0001)).unwrap();
    match Event::check_header(h) {
        Err(ResponseDeserializeError::InvalidEventType(t)) => assert_eq!(t, 0x8000_0001),
        other => panic!("unexpected {other:?}"),
    }
    let h = decode_header(&header(3, 1)).unwrap();
    assert!(matches!(Event::check_header(h), Err(ResponseDeserializeError::InvalidEventType(1))));
}

#[test]
fn known_tags_are_accepted_with_length() {
    let h = decode_header(&header(9, 1)).unwrap();
    let m = Message::check_header(h).unwrap();
    assert_eq!(m.message_type, MessageType::GetWorkspaces);
    assert_eq!(m.payload_len, 9);
    let h = decode_header(&header(4, 0x8000_0003)).unwrap();
    let e = Event::check_header(h).unwrap();
    assert_eq!(e.event_type, EventType::Window);
    assert_eq!(e.payload_len, 4);
}

#[test]
fn payload_is_decoded_lossily() {
    let m = Message::from_payload(MessageType::GetTree, b"{\"a\":1}");
    assert_eq!(m.message_type, MessageType::GetTree);
    assert_eq!(m.payload, "{\"a\":1}");
    let e = Event::from_payload(EventType::Tick, &[b'o', 0xc3, b'k']);
    assert_eq!(e.event_type, EventType::Tick);
    assert_eq!(e.payload, "o\u{fffd}k");
}
