use mqtt_codec::client::error::ClientError;
use mqtt_codec::{ClientIdErrorReason, MqttError, TopicErrorReason, TopicFilterErrorReason};

#[test]
fn codec_errors_display_their_fields() {
    let cases: Vec<(MqttError, &str)> = vec![
        (
            MqttError::protocol_violation("bad", Some(1)),
            "Protocol violation: bad",
        ),
        (
            MqttError::invalid_client_id("", ClientIdErrorReason::EmptyWithNonCleanSession),
            "Invalid client ID '': empty client ID requires Clean Session = 1",
        ),
        (
            MqttError::invalid_topic_name("a/+", TopicErrorReason::ContainsWildcard),
            "Invalid topic name 'a/+': topic name cannot contain wildcards (+ or #)",
        ),
        (
            MqttError::invalid_topic_filter("a#", TopicFilterErrorReason::InvalidMultiLevelWildcard),
            "Invalid topic filter 'a#': multi-level wildcard (#) must be the last character",
        ),
        (MqttError::invalid_return_code(0x0A), "Invalid return code: 0x0A"),
        (
            MqttError::invalid_reason_code(0x87, "SubAck"),
            "Invalid reason code 0x87 for SubAck",
        ),
        (
            MqttError::invalid_property(0x26, "twice"),
            "Invalid property 0x26: twice",
        ),
        (MqttError::malformed("short"), "Malformed packet: short"),
        (
            MqttError::InvalidRemainingLength { length: 268435456 },
            "Invalid remaining length: 268435456",
        ),
        (
            MqttError::incomplete(4, 1),
            "Incomplete packet: expected 4 bytes, got 1",
        ),
        (
            MqttError::packet_too_large(300, 256),
            "Packet too large: 300 bytes exceeds maximum of 256 bytes",
        ),
        (MqttError::Other("plain".to_string()), "plain"),
    ];
    for (e, text) in cases {
        assert_eq!(e.description(), text);
    }
    let io = MqttError::Io(std::io::Error::new(std::io::ErrorKind::Other, "boom"));
    assert_eq!(io.description(), "I/O error: boom");
}

#[test]
fn client_errors_display_their_fields() {
    assert_eq!(ClientError::Timeout.description(), "operation timed out");
    assert_eq!(ClientError::Disconnected.description(), "client disconnected");
    assert_eq!(ClientError::ChannelClosed.description(), "internal channel closed");
    assert_eq!(ClientError::InvalidQoS(7).description(), "invalid QoS level: 7");
    assert_eq!(ClientError::Tls("handshake".to_string()).description(), "TLS error: handshake");
    assert_eq!(
        ClientError::ConnectionRefused { reason: "not authorized".to_string() }.description(),
        "connection refused: not authorized"
    );
    assert_eq!(
        ClientError::UnexpectedPacket("x".to_string()).description(),
        "unexpected packet: x"
    );
    assert_eq!(
        ClientError::Codec(MqttError::malformed("m")).description(),
        "codec error: Malformed packet: m"
    );
}
