use bytes::BytesMut;
use mqtt_codec::v4::wire::parse_remaining_length;
use mqtt_codec::v4::{
    ConnAckPacket, ConnectPacket, ConnectReturnCode, MqttCodec, MqttDecoder, Packet, PingReqPacket,
    PubAckPacket, PublishPacket, QoS, SubscribePacket,
};
use mqtt_codec::{Decoder, Encoder, MqttError};

fn encode(p: Packet) -> Result<Vec<u8>, MqttError> {
    let mut codec = MqttCodec::new();
    let mut buf = BytesMut::new();
    codec.encode(p, &mut buf)?;
    Ok(buf.to_vec())
}

#[test]
fn encodes_exact_bytes() {
    assert_eq!(encode(Packet::PingReq(PingReqPacket)).unwrap(), vec![0xC0, 0x00]);
    assert_eq!(
        encode(Packet::PubAck(PubAckPacket { packet_id: 0x1234 })).unwrap(),
        vec![0x40, 0x02, 0x12, 0x34]
    );
    assert_eq!(
        encode(Packet::ConnAck(ConnAckPacket::accepted(true))).unwrap(),
        vec![0x20, 0x02, 0x01, 0x00]
    );
    let publish = PublishPacket {
        topic_name: "a/b".to_string(),
        packet_id: Some(10),
        payload: b"hi".to_vec(),
        qos: QoS::AtLeastOnce,
        duplicate: true,
        retain: true,
    };
    assert_eq!(
        encode(Packet::Publish(publish)).unwrap(),
        vec![0x3B, 0x09, 0x00, 0x03, b'a', b'/', b'b', 0x00, 0x0A, b'h', b'i']
    );
    let sub = SubscribePacket::new(7, "x/#", QoS::ExactlyOnce);
    assert_eq!(
        encode(Packet::Subscribe(sub)).unwrap(),
        vec![0x82, 0x08, 0x00, 0x07, 0x00, 0x03, b'x', b'/', b'#', 0x02]
    );
    let connect = ConnectPacket {
        client_id: "c".to_string(),
        keep_alive: 60,
        ..Default::default()
    };
    assert_eq!(
        encode(Packet::Connect(connect)).unwrap(),
        vec![0x10, 0x0D, 0x00, 0x04, b'M', b'Q', b'T', b'T', 0x04, 0x02, 0x00, 0x3C, 0x00, 0x01, b'c']
    );
}

#[test]
fn encoder_refuses_invalid_packets() {
    let bad = PublishPacket {
        topic_name: "a/+".to_string(),
        packet_id: None,
        payload: Vec::new(),
        qos: QoS::AtMostOnce,
        duplicate: false,
        retain: false,
    };
    assert!(matches!(encode(Packet::Publish(bad)), Err(MqttError::InvalidTopicName { .. })));
    assert!(matches!(
        encode(Packet::PubAck(PubAckPacket { packet_id: 0 })),
        Err(MqttError::ProtocolViolation { .. })
    ));
    let long_user = ConnectPacket {
        client_id: "c".to_string(),
        username_flag: true,
        username: Some("u".repeat(70_000)),
        ..Default::default()
    };
    assert!(matches!(encode(Packet::Connect(long_user)), Err(MqttError::MalformedPacket { .. })));
    let mut codec = MqttCodec::new();
    let mut buf = BytesMut::from(&b"keep"[..]);
    assert!(codec.encode(Packet::PubAck(PubAckPacket { packet_id: 0 }), &mut buf).is_err());
    assert_eq!(&buf[..], b"keep");
}

#[test]
fn large_payload_uses_multi_byte_length() {
    let payload = vec![7u8; 200];
    let publish = PublishPacket::new("t", payload.clone());
    let bytes = encode(Packet::Publish(publish)).unwrap();
    // 3 bytes of topic field plus 200 payload bytes: 203 = 0xCB 0x01.
    assert_eq!(&bytes[..3], &[0x30, 0xCB, 0x01]);
    let mut buf = BytesMut::from(&bytes[..]);
    match MqttDecoder::new().decode(&mut buf).unwrap().unwrap() {
        Packet::Publish(p) => assert_eq!(p.payload, payload),
        other => panic!("unexpected {:?}", other),
    }
    assert!(buf.is_empty());
}

#[test]
fn remaining_length_values() {
    assert_eq!(parse_remaining_length(&[0x00]).unwrap(), (0, 1));
    assert_eq!(parse_remaining_length(&[0x7F]).unwrap(), (127, 1));
    assert_eq!(parse_remaining_length(&[0x80, 0x01]).unwrap(), (128, 2));
    assert_eq!(parse_remaining_length(&[0xFF, 0xFF, 0xFF, 0x7F]).unwrap(), (268_435_455, 4));
    assert_eq!(parse_remaining_length(&[0x80]).unwrap(), (0, 0));
    assert!(matches!(
        parse_remaining_length(&[0xFF, 0xFF, 0xFF, 0xFF, 0x01]),
        Err(MqttError::InvalidRemainingLength { .. })
    ));
}

#[test]
fn decoder_waits_for_whole_frame() {
    let mut decoder = MqttDecoder::new();
    let mut buf = BytesMut::from(&[0x40u8][..]);
    assert!(decoder.decode(&mut buf).unwrap().is_none());
    let mut buf = BytesMut::from(&[0x40u8, 0x02, 0x00][..]);
    assert!(decoder.decode(&mut buf).unwrap().is_none());
    assert_eq!(buf.len(), 3);
}

#[test]
fn decoder_rejects_bad_headers_without_consuming() {
    let mut decoder = MqttDecoder::new();
    let mut buf = BytesMut::from(&[0x00u8, 0x00][..]);
    assert!(matches!(decoder.decode(&mut buf), Err(MqttError::MalformedPacket { .. })));
    assert_eq!(buf.len(), 2);
    let mut buf = BytesMut::from(&[0xF0u8, 0x00][..]);
    assert!(decoder.decode(&mut buf).is_err());
    let mut buf = BytesMut::from(&[0x41u8, 0x02, 0x00, 0x01][..]);
    assert!(matches!(decoder.decode(&mut buf), Err(MqttError::ProtocolViolation { .. })));
    assert_eq!(buf.len(), 4);
    let mut buf = BytesMut::from(&[0x36u8, 0x00][..]);
    assert!(matches!(decoder.decode(&mut buf), Err(MqttError::ProtocolViolation { .. })));
}

#[test]
fn decoder_reports_body_errors_after_consuming_frame() {
    let mut decoder = MqttDecoder::new();
    // CONNACK with an unknown return code, then a PINGRESP.
    let mut buf = BytesMut::from(&[0x20u8, 0x02, 0x00, 0x09, 0xD0, 0x00][..]);
    assert!(matches!(decoder.decode(&mut buf), Err(MqttError::InvalidReturnCode { code: 9 })));
    assert_eq!(&buf[..], &[0xD0, 0x00]);
    assert!(matches!(decoder.decode(&mut buf).unwrap(), Some(Packet::PingResp(_))));
    // PUBACK with identifier 0.
    let mut buf = BytesMut::from(&[0x40u8, 0x02, 0x00, 0x00][..]);
    assert!(matches!(decoder.decode(&mut buf), Err(MqttError::ProtocolViolation { .. })));
    assert!(buf.is_empty());
    // CONNACK refusing with Session Present set.
    let mut buf = BytesMut::from(&[0x20u8, 0x02, 0x01, 0x05][..]);
    assert!(decoder.decode(&mut buf).is_err());
    // PUBLISH whose topic is not UTF-8.
    let mut buf = BytesMut::from(&[0x30u8, 0x03, 0x00, 0x01, 0xFF][..]);
    assert!(matches!(decoder.decode(&mut buf), Err(MqttError::Utf8Error(_))));
    // SUBSCRIBE without topics.
    let mut buf = BytesMut::from(&[0x82u8, 0x02, 0x00, 0x01][..]);
    assert!(matches!(decoder.decode(&mut buf), Err(MqttError::ProtocolViolation { .. })));
    // CONNACK body cut short.
    let mut buf = BytesMut::from(&[0x20u8, 0x01, 0x00][..]);
    assert!(matches!(
        decoder.decode(&mut buf),
        Err(MqttError::IncompletePacket { expected: 2, actual: 1 })
    ));
}

#[test]
fn decoder_reads_connack_fields() {
    let mut decoder = MqttDecoder::new();
    let mut buf = BytesMut::from(&[0x20u8, 0x02, 0x00, 0x04][..]);
    match decoder.decode(&mut buf).unwrap().unwrap() {
        Packet::ConnAck(a) => {
            assert!(!a.session_present);
            assert_eq!(a.return_code, ConnectReturnCode::BadUserNameOrPassword);
        }
        other => panic!("unexpected {:?}", other),
    }
}

#[test]
fn decoder_error_messages() {
    let mut decoder = MqttDecoder::new();
    let mut buf = BytesMut::from(&[0xF0u8, 0x00][..]);
    match decoder.decode(&mut buf) {
        Err(MqttError::MalformedPacket { message }) => assert_eq!(message, "Invalid packet type: 15"),
        other => panic!("unexpected result {:?}", other),
    }
    // PUBLISH with QoS 3 in the fixed header flags.
    let mut buf = BytesMut::from(&[0x36u8, 0x03, 0x00, 0x01, b'a'][..]);
    match decoder.decode(&mut buf) {
        Err(MqttError::ProtocolViolation { message, packet_type }) => {
            assert_eq!(message, "PUBLISH QoS value 3 is reserved");
            assert_eq!(packet_type, Some(3));
        }
        other => panic!("unexpected result {:?}", other),
    }
    // SUBSCRIBE asking for QoS 3.
    let mut buf = BytesMut::from(&[0x82u8, 0x06, 0x00, 0x01, 0x00, 0x01, b'a', 0x03][..]);
    match decoder.decode(&mut buf) {
        Err(MqttError::ProtocolViolation { message, packet_type }) => {
            assert_eq!(message, "Invalid QoS in SUBSCRIBE: Invalid QoS value: must be 0, 1, or 2");
            assert_eq!(packet_type, Some(8));
        }
        other => panic!("unexpected result {:?}", other),
    }
}

#[test]
fn decoder_waits_for_cut_short_remaining_length() {
    let mut decoder = MqttDecoder::new();
    let mut buf = BytesMut::from(&[0xC0u8, 0x80][..]);
    assert!(decoder.decode(&mut buf).unwrap().is_none());
    assert_eq!(&buf[..], &[0xC0, 0x80]);
    let mut buf = BytesMut::from(&[0x30u8, 0xFF, 0xFF][..]);
    assert!(decoder.decode(&mut buf).unwrap().is_none());
    assert_eq!(buf.len(), 3);
    // Once the length byte arrives, the PINGREQ is decoded.
    let mut buf = BytesMut::from(&[0xC0u8, 0x00][..]);
    assert!(matches!(decoder.decode(&mut buf).unwrap(), Some(Packet::PingReq(_))));
    assert!(buf.is_empty());
}
