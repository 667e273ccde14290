use bytes::BytesMut;
use mqtt_codec::broker::{
    read_version, ConnectAckCode, PacketType, ProtocolVersion, VersionCodec, DecodeError,
};

fn connect_codec() -> BytesMut {
    // Fixed header
    let header: Vec<u8> = vec![
        0b00010000, // CONNECT, reserved bits 0
        0b00010010, // remaining size is 18 bytes
    ];
    // Variable header
    let mut_header: Vec<u8> = vec![
        0b00000100, // protocol name length MSB
        0b00000100, // protocol name length LSB
        0x4D, 0x51, 0x54, 0x54, // "MQTT"
        0b00000100, // protocol level 4
        0b11000010, // connect flags
        0x00, 0x0A, // keep alive 10 seconds
    ];
    // payload
    let payload: Vec<u8> = vec![
        0b00000100, // client id length
        0x74, 0x65, 0x73, 0x74, // "test"
        0b00000100, // password length
        0x70, 0x61, 0x73, 0x73, // "pass"
    ];

    let mut bytes = BytesMut::with_capacity(1024);
    bytes.extend_from_slice(&header);
    bytes.extend_from_slice(&mut_header);
    bytes.extend_from_slice(&payload);
    bytes
}

#[test]
fn version_read_version() {
    let mut buf = connect_codec();
    let source_buf = buf.clone();
    let mut codec = VersionCodec;
    match codec.decode(&mut buf) {
        Ok(Some(v)) => {
            assert_eq!(v, ProtocolVersion::MQTT4);
        }
        other => panic!("unexpected result {:?}", other),
    }
    assert_eq!(source_buf, buf);
}

#[test]
fn read_version_levels() {
    let mut v5 = connect_codec().to_vec();
    v5[8] = 5;
    assert_eq!(read_version(&v5), Ok(Some(ProtocolVersion::MQTT5)));
    let mut v9 = connect_codec().to_vec();
    v9[8] = 9;
    assert_eq!(read_version(&v9), Err(DecodeError::InvalidPacketType));
    let mqisdp: Vec<u8> = vec![0x10, 0x10, 0x00, 0x06, 0x4D, 0x51, 0x49, 0x73, 0x64, 0x70, 0x03, 0x02];
    assert_eq!(read_version(&mqisdp), Ok(Some(ProtocolVersion::MQTT3)));
    let mqisdp_bad: Vec<u8> = vec![0x10, 0x10, 0x00, 0x06, 0x4D, 0x51, 0x49, 0x73, 0x64, 0x70, 0x04];
    assert_eq!(read_version(&mqisdp_bad), Err(DecodeError::InvalidPacketType));
    let http = b"GET / HTTP/1.1\r\n".to_vec();
    assert_eq!(read_version(&http), Err(DecodeError::BadTransport));
}

#[test]
fn broker_code_tables() {
    assert_eq!(ConnectAckCode::Success.to_u8(), 0);
    assert_eq!(ConnectAckCode::ServerUnavailable.to_u8(), 3);
    assert_eq!(ConnectAckCode::NotAuthorized.to_u8(), 5);
    assert_eq!(PacketType::from(0), PacketType::RESERVED);
    assert_eq!(PacketType::from(12), PacketType::PINGREQ);
    assert_eq!(PacketType::from(15), PacketType::AUTH);
}
