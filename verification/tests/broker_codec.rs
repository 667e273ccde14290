use bytes::{Buf, BytesMut};
use mqtt_codec::broker::connack_v5::{ConnAck, ConnectReturnCode};
use mqtt_codec::broker::header::{FixedHeader, Header};
use mqtt_codec::broker::settings::RaftConfig;
use mqtt_codec::broker::v3::{
    decode_mqtt, process_v3, read_header, Codec, CodecV3, ConnAck as ConnAckV3, ConnectAckCode,
    ConnectPacket, Packet, PingReq,
};
use mqtt_codec::broker::{DecodeError, PacketType};
use mqtt_codec::Decoder;

#[test]
fn decode_fixed_header_general_test() {
    for expected_packet_type in [PacketType::PINGREQ, PacketType::PINGRESP].iter() {
        let mut buffer = BytesMut::from(&[(*expected_packet_type as u8) << 4, 0x02][..]);
        let (header, size) = Header::from(&mut buffer).unwrap();
        assert_eq!(header.packet_type, *expected_packet_type);
        assert_eq!(size, 1);
        assert!(buffer.is_empty());

        let mut test = BytesMut::from("aaaaaaaa");
        assert_eq!(test.len(), 8);
        test.get_u8();
        assert_eq!(test.len(), 7);
    }
}

#[test]
fn test_codec() {
    // msg len 6 msg: 313233
    let data: Vec<u8> = vec![0x30, 0x06, 0x00, 0x01, 0x31, 0x31, 0x32, 0x33];
    let mut buffer = BytesMut::with_capacity(8);
    buffer.extend_from_slice(&data);

    let (header, size) = Header::from(&mut buffer).unwrap();
    assert_eq!(header.packet_type, PacketType::PUBLISH);
    assert_eq!(size, 1);
    assert_eq!(&buffer[..], &data[2..]);
}

#[test]
fn header_new_takes_the_high_nibble() {
    assert_eq!(Header::new(0x10).unwrap().packet_type, PacketType::CONNECT);
    assert_eq!(Header::new(0xE0).unwrap().packet_type, PacketType::DISCONNECT);
    assert_eq!(Header::new(0xFF).unwrap().packet_type, PacketType::AUTH);
    assert_eq!(Header::new(0x0F).unwrap().packet_type, PacketType::RESERVED);
}

#[test]
fn fixed_header_is_empty() {
    assert_eq!(FixedHeader::new(), FixedHeader {});
}

#[test]
fn read_header_needs_more_bytes() {
    let mut offset = 0usize;
    let mut empty = BytesMut::new();
    assert_eq!(read_header(&mut empty, &mut offset), Ok(None));

    // Remaining Length 5, but only one body byte buffered.
    let mut short = BytesMut::from(&[0x10, 0x05, 0x00][..]);
    assert_eq!(read_header(&mut short, &mut offset), Ok(None));
    assert_eq!(offset, 0);
    assert_eq!(&short[..], &[0x10, 0x05, 0x00]);

    // The length itself is cut off after a continuation byte.
    let mut cut = BytesMut::from(&[0x10, 0x80][..]);
    assert_eq!(read_header(&mut cut, &mut offset), Ok(None));

    // Offset past the end of the buffer.
    let mut offset_far = 7usize;
    let mut buf = BytesMut::from(&[0x10, 0x00][..]);
    assert_eq!(read_header(&mut buf, &mut offset_far), Ok(None));
    assert_eq!(offset_far, 7);
}

#[test]
fn read_header_rejects_five_length_bytes() {
    let mut offset = 0usize;
    let mut buf = BytesMut::from(&[0x10, 0x80, 0x80, 0x80, 0x80, 0x01][..]);
    assert_eq!(read_header(&mut buf, &mut offset), Err(DecodeError::InvalidPacketType));
    assert_eq!(offset, 0);

    let mut at_offset = 2usize;
    let mut buf2 = BytesMut::from(&[0xAA, 0xBB, 0x10, 0xFF, 0xFF, 0xFF, 0xFF][..]);
    assert_eq!(read_header(&mut buf2, &mut at_offset), Err(DecodeError::InvalidPacketType));
    assert_eq!(at_offset, 2);
}

fn is_stock_connect(p: &Packet) -> bool {
    match p {
        Packet::Connect(c) => {
            *c == ConnectPacket {
                protocol_name: String::new(),
                clean_start: true,
                keep_alive: 2048,
                client_id: String::new(),
                user_name: None,
                password: None,
            }
        }
        _ => false,
    }
}

#[test]
fn decode_mqtt_reads_a_stock_connect() {
    let mut empty = BytesMut::new();
    assert_eq!(decode_mqtt(&mut empty), Ok(None));

    let mut buf = BytesMut::from(&[0x10, 0x02, 0x00, 0x00][..]);
    let packet = decode_mqtt(&mut buf).unwrap().unwrap();
    assert!(is_stock_connect(&packet));
    assert!(buf.is_empty());
}

#[test]
fn codecs_decode_like_decode_mqtt() {
    let mut codec = Codec::new();
    let mut buf = BytesMut::from(&[0x01][..]);
    assert!(is_stock_connect(&codec.decode(&mut buf).unwrap().unwrap()));
    assert!(buf.is_empty());
    assert_eq!(codec.decode(&mut buf), Ok(None));

    let mut codec3 = CodecV3::new();
    let mut buf3 = BytesMut::from(&b"MQIsdp"[..]);
    assert!(is_stock_connect(&codec3.decode(&mut buf3).unwrap().unwrap()));
    assert!(buf3.is_empty());
}

#[test]
fn process_v3_accepts_connect_only() {
    let mut buf = BytesMut::from(&[0x10][..]);
    let connect = decode_mqtt(&mut buf).unwrap().unwrap();
    assert_eq!(
        process_v3(&connect),
        Some(Packet::ConnAck(ConnAckV3 { session_present: true, code: ConnectAckCode::Success }))
    );
    assert_eq!(process_v3(&Packet::PingReq(PingReq {})), None);
    let ack = Packet::ConnAck(ConnAckV3 { session_present: false, code: ConnectAckCode::Success });
    assert_eq!(process_v3(&ack), None);
}

#[test]
fn connect_return_code_values_roundtrip() {
    let cases = [
        (ConnectReturnCode::Success, 0u8),
        (ConnectReturnCode::UnspecifiedError, 128),
        (ConnectReturnCode::MalformedPacket, 129),
        (ConnectReturnCode::NotAuthorized, 135),
        (ConnectReturnCode::BadAuthenticationMethod, 140),
        (ConnectReturnCode::TopicNameInvalid, 144),
        (ConnectReturnCode::PacketTooLarge, 149),
        (ConnectReturnCode::ConnectionRateExceeded, 159),
    ];
    for (code, value) in cases {
        assert_eq!(code.to_u8(), value);
        assert_eq!(ConnectReturnCode::from_u8(value), Ok(code));
    }
}

#[test]
fn connack_v5_holds_its_fields() {
    let ack = ConnAck { session_present: false, code: ConnectReturnCode::Banned, properties: None };
    assert_eq!(ack.code.to_u8(), 138);
    assert!(!ack.session_present);
}

#[test]
fn raft_config_holds_its_fields() {
    let cfg = RaftConfig {
        listener_addr: "127.0.0.1:7000".to_string(),
        worker: 2,
        nodes: vec!["127.0.0.1:7001".to_string()],
    };
    assert_eq!(cfg.clone(), cfg);
}

#[test]
fn header_read_header_leaves_everything() {
    let mut buf = BytesMut::from(&[0x30u8, 0x02, 0x00, 0x00][..]);
    let mut offset = 1usize;
    Header::read_header(&mut buf, &mut offset);
    assert_eq!(offset, 1);
    assert_eq!(&buf[..], &[0x30, 0x02, 0x00, 0x00]);
}
