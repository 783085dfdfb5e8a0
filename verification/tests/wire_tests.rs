use mq_ipc::codec::padded_payload;
use mq_ipc::samples::{MotorStateBits, PairMsg};
use mq_ipc::wire::{
    mirror_msg, mirror_packet, mirror_packet_bytes, WirePacket, IPC_TX_TOPIC_NAME,
    WIRE_MAX_PAYLOAD, WIRE_MAX_TOPIC, WIRE_MIRROR_TAG, WIRE_PACKET_SIZE,
};

#[test]
fn internal_topic_name_is_fixed() {
    assert_eq!(IPC_TX_TOPIC_NAME, "/ipc_tx");
}

#[test]
fn mirrored_motor_state_frame() {
    // Mirror bound to "/motor/state", publishing {position: 1.0,
    // velocity: 2.0, torque: 0.42}: the frame names the topic and its data
    // prefix is the 12-byte encoding of that value.
    let v = MotorStateBits {
        position_bits: 1.0f32.to_bits(),
        velocity_bits: 2.0f32.to_bits(),
        torque_bits: 0.42f32.to_bits(),
    };
    let pkt = mirror_packet("/motor/state", &v);

    assert_eq!(pkt.topic_name(), "/motor/state");
    assert_eq!(pkt.topic_len as usize, "/motor/state".len());
    assert_eq!(pkt.reserved, 0);
    assert_eq!(pkt.payload_len, 12);

    let mut expected = Vec::new();
    expected.extend_from_slice(&1.0f32.to_le_bytes());
    expected.extend_from_slice(&2.0f32.to_le_bytes());
    expected.extend_from_slice(&0.42f32.to_le_bytes());
    assert_eq!(&pkt.data[0..12], &expected[..]);
    assert!(pkt.data[12..].iter().all(|&b| b == 0));
    assert!(pkt.topic[12..].iter().all(|&b| b == 0));
}

#[test]
fn long_topic_names_are_truncated() {
    let long_name: String = std::iter::repeat('x').take(70).collect();
    let pkt = mirror_packet_bytes(&long_name, &[1, 2, 3]);
    assert_eq!(pkt.topic_len as usize, WIRE_MAX_TOPIC);
    assert!(pkt.topic.iter().all(|&b| b == b'x'));
}

#[test]
fn long_payloads_are_truncated() {
    let big = [9u8; 200];
    let pkt = mirror_packet_bytes("/t", &big);
    assert_eq!(pkt.payload_len as usize, WIRE_MAX_PAYLOAD);
    assert!(pkt.data.iter().all(|&b| b == 9));
}

#[test]
fn invalid_utf8_topic_decodes_to_empty_string() {
    let mut topic = vec![0u8; WIRE_MAX_TOPIC];
    topic[0] = 0xFF;
    topic[1] = 0xFE;
    let pkt = WirePacket {
        payload_len: 0,
        topic_len: 2,
        reserved: 0,
        topic,
        data: vec![0u8; WIRE_MAX_PAYLOAD],
    };
    assert_eq!(pkt.topic_name(), "");
}

#[test]
fn topic_name_clamps_a_bad_length() {
    let pkt = WirePacket {
        payload_len: 0,
        topic_len: 200,
        reserved: 0,
        topic: vec![b'a'; WIRE_MAX_TOPIC],
        data: vec![0u8; WIRE_MAX_PAYLOAD],
    };
    assert_eq!(pkt.topic_name().len(), WIRE_MAX_TOPIC);
}

#[test]
fn packet_byte_form_is_bit_exact() {
    let v = PairMsg { a: 10, b: 20 };
    let pkt = mirror_packet("/t1", &v);
    let bytes = pkt.encode_bytes();
    assert_eq!(bytes.len(), WIRE_PACKET_SIZE);
    assert_eq!(&bytes[0..2], &[8, 0], "payload_len, little-endian");
    assert_eq!(bytes[2], 3, "topic_len");
    assert_eq!(bytes[3], 0, "reserved");
    assert_eq!(&bytes[4..7], b"/t1");
    assert!(bytes[7..68].iter().all(|&b| b == 0));
    assert_eq!(&bytes[68..76], &[10, 0, 0, 0, 20, 0, 0, 0]);
    assert!(bytes[76..].iter().all(|&b| b == 0));
}

#[test]
fn packet_byte_form_round_trips() {
    let v = PairMsg { a: 0xAABB_CCDD, b: 5 };
    let pkt = mirror_packet("/round/trip", &v);
    let bytes = pkt.encode_bytes();
    let back = WirePacket::decode_bytes(&bytes);
    assert_eq!(back, pkt);
}

#[test]
fn mirror_emits_one_frame_on_the_internal_topic() {
    // One successful mirror publish: one message, mirror-tagged, carrying
    // one frame whose topic decodes to the configured local name.
    let v = PairMsg { a: 10, b: 20 };
    let m = mirror_msg("/t1", &v);
    assert_eq!(m.hdr.msg_type, WIRE_MIRROR_TAG);
    assert_eq!(m.hdr.len as usize, WIRE_PACKET_SIZE);

    let frame_bytes = padded_payload(&m, WIRE_PACKET_SIZE);
    let frame = WirePacket::decode_bytes(&frame_bytes);
    assert_eq!(frame.topic_name(), "/t1");
    assert_eq!(frame.payload_len, 8);
    assert_eq!(&frame.data[0..8], &[10, 0, 0, 0, 20, 0, 0, 0]);
}
