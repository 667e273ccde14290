use mqtt_codec::v4::{
    ConnectPacketBuilder, PublishPacketBuilder, QoS, SubscribePacketBuilder,
    UnsubscribePacketBuilder,
};

#[test]
fn builder_test_connect_builder_basic() {
    let packet = ConnectPacketBuilder::new("test-client")
        .keep_alive(30)
        .clean_session(true)
        .build();

    assert_eq!(packet.client_id, "test-client");
    assert_eq!(packet.keep_alive, 30);
    assert!(packet.clean_session);
    assert!(!packet.will_flag);
    assert!(!packet.username_flag);
    assert!(!packet.password_flag);
}

#[test]
fn test_connect_builder_with_credentials() {
    let packet = ConnectPacketBuilder::new("test-client")
        .username("user")
        .password(b"pass".to_vec())
        .build();

    assert_eq!(packet.username, Some("user".to_string()));
    assert_eq!(packet.password, Some(b"pass".to_vec()));
    assert!(packet.username_flag);
    assert!(packet.password_flag);
}

#[test]
fn test_connect_builder_with_will() {
    let packet = ConnectPacketBuilder::new("test-client")
        .will("will/topic", b"will message".to_vec(), QoS::AtLeastOnce, true)
        .build();

    assert!(packet.will_flag);
    assert_eq!(packet.will_topic, Some("will/topic".to_string()));
    assert_eq!(packet.will_message, Some(b"will message".to_vec()));
    assert_eq!(packet.will_qos, QoS::AtLeastOnce);
    assert!(packet.will_retain);
}

#[test]
fn builder_test_publish_builder_basic() {
    let packet = PublishPacketBuilder::new("test/topic", b"payload".to_vec()).build();

    assert_eq!(packet.topic_name, "test/topic");
    assert_eq!(packet.payload, b"payload".to_vec());
    assert_eq!(packet.qos, QoS::AtMostOnce);
    assert!(packet.packet_id.is_none());
    assert!(!packet.duplicate);
    assert!(!packet.retain);
}

#[test]
fn test_publish_builder_qos1() {
    let packet = PublishPacketBuilder::new("test/topic", b"payload".to_vec())
        .qos(QoS::AtLeastOnce)
        .packet_id(42)
        .build();

    assert_eq!(packet.qos, QoS::AtLeastOnce);
    assert_eq!(packet.packet_id, Some(42));
}

#[test]
fn builder_test_subscribe_builder() {
    let packet = SubscribePacketBuilder::new(1)
        .topic("topic/one", QoS::AtMostOnce)
        .topic("topic/two", QoS::AtLeastOnce)
        .build()
        .unwrap();

    assert_eq!(packet.packet_id, 1);
    assert_eq!(packet.topics.len(), 2);
    assert_eq!(packet.topics[0], ("topic/one".to_string(), QoS::AtMostOnce));
    assert_eq!(
        packet.topics[1],
        ("topic/two".to_string(), QoS::AtLeastOnce)
    );
}

#[test]
fn builder_test_subscribe_builder_empty() {
    let packet = SubscribePacketBuilder::new(1).build();
    assert!(packet.is_none());
}

#[test]
fn builder_test_unsubscribe_builder() {
    let packet = UnsubscribePacketBuilder::new(1)
        .topic("topic/one")
        .topic("topic/two")
        .build()
        .unwrap();

    assert_eq!(packet.packet_id, 1);
    assert_eq!(packet.topics.len(), 2);
    assert_eq!(packet.topics[0], "topic/one");
    assert_eq!(packet.topics[1], "topic/two");
}

#[test]
fn builder_test_unsubscribe_builder_empty() {
    let packet = UnsubscribePacketBuilder::new(1).build();
    assert!(packet.is_none());
}

#[test]
fn built_connect_is_valid_and_defaults_hold() {
    let packet = ConnectPacketBuilder::new("c").build();
    assert_eq!(packet.protocol_name, "MQTT");
    assert_eq!(packet.protocol_level, 4);
    assert_eq!(packet.keep_alive, 60);
    assert!(packet.clean_session);
    assert!(mqtt_codec::v4::validate_connect_packet(&packet).is_ok());

    let retained = PublishPacketBuilder::new("t", Vec::new()).retain(true).build();
    assert!(retained.retain);
}
