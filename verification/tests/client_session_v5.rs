use mqtt_codec::client::config::{ClientConfig, LastWill};
use mqtt_codec::client::error::ClientError;
use mqtt_codec::client::event::Event;
use mqtt_codec::client::session_v5::{
    build_connect, connack_outcome, handle_packet, publish, subscribe, unsubscribe, ActionV5,
    SessionV5,
};
use mqtt_codec::v5::{
    ConnAckPacket, Packet, PingRespPacket, Properties, PubRecPacket, PubRelPacket, PublishPacket,
    QoS, ReasonCode, SubscribePacket,
};

fn incoming(qos: QoS, packet_id: Option<u16>) -> Packet {
    Packet::Publish(PublishPacket {
        topic_name: "t/1".to_string(),
        packet_id,
        payload: b"hello".to_vec(),
        qos,
        duplicate: false,
        retain: false,
        properties: Properties::new(),
    })
}

#[test]
fn v5_publish_qos0_has_no_identifier() {
    let mut s = SessionV5::new();
    match publish(&mut s, "a".to_string(), b"x".to_vec(), 0, false).unwrap() {
        ActionV5::Send(Packet::Publish(p)) => {
            assert_eq!(p.packet_id, None);
            assert_eq!(p.qos, QoS::AtMostOnce);
        }
        other => panic!("unexpected action {:?}", other),
    }
    assert_eq!(s.next_packet_id, 1);
}

#[test]
fn v5_publish_qos1_takes_the_next_identifier() {
    let mut s = SessionV5::new();
    match publish(&mut s, "a".to_string(), b"x".to_vec(), 1, true).unwrap() {
        ActionV5::Send(Packet::Publish(p)) => {
            assert_eq!(p.packet_id, Some(1));
            assert_eq!(p.qos, QoS::AtLeastOnce);
            assert!(p.retain);
        }
        other => panic!("unexpected action {:?}", other),
    }
    assert_eq!(s.next_packet_id, 2);
}

#[test]
fn v5_publish_invalid_qos_is_refused() {
    let mut s = SessionV5::new();
    assert!(matches!(
        publish(&mut s, "a".to_string(), Vec::new(), 3, false),
        Err(ClientError::InvalidQoS(3))
    ));
    assert_eq!(s.next_packet_id, 1);
}

#[test]
fn v5_subscribe_and_unsubscribe_send_one_packet() {
    let mut s = SessionV5::new();
    assert!(subscribe(&mut s, Vec::new()).unwrap().is_empty());
    let actions = subscribe(&mut s, vec![("a/+".to_string(), 1), ("b/#".to_string(), 2)]).unwrap();
    assert_eq!(actions.len(), 1);
    match &actions[0] {
        ActionV5::Send(Packet::Subscribe(SubscribePacket { packet_id, topics, .. })) => {
            assert_eq!(*packet_id, 1);
            assert_eq!(topics.len(), 2);
            assert_eq!(topics[1].topic_filter, "b/#");
            assert_eq!(topics[1].qos, QoS::ExactlyOnce);
        }
        other => panic!("unexpected action {:?}", other),
    }
    let actions = unsubscribe(&mut s, vec!["a/+".to_string()]);
    assert_eq!(actions.len(), 1);
    match &actions[0] {
        ActionV5::Send(Packet::Unsubscribe(u)) => {
            assert_eq!(u.packet_id, 2);
            assert_eq!(u.topics, vec!["a/+".to_string()]);
        }
        other => panic!("unexpected action {:?}", other),
    }
}

#[test]
fn v5_qos2_message_is_delivered_on_pubrel_once() {
    let mut s = SessionV5::new();
    let actions = handle_packet(&mut s, incoming(QoS::ExactlyOnce, Some(9))).unwrap();
    assert_eq!(actions.len(), 1);
    assert!(matches!(&actions[0], ActionV5::Send(Packet::PubRec(r)) if r.packet_id == 9));

    let rel = || {
        Packet::PubRel(PubRelPacket {
            packet_id: 9,
            reason_code: ReasonCode::Success,
            properties: Properties::new(),
        })
    };
    let actions = handle_packet(&mut s, rel()).unwrap();
    assert_eq!(actions.len(), 2);
    assert!(matches!(&actions[0], ActionV5::Send(Packet::PubComp(c)) if c.packet_id == 9));
    assert!(matches!(&actions[1], ActionV5::Emit(Event::Message { qos: 2, .. })));

    let again = handle_packet(&mut s, rel()).unwrap();
    assert_eq!(again.len(), 1);
}

#[test]
fn v5_pubrec_is_answered_with_pubrel() {
    let mut s = SessionV5::new();
    let rec = Packet::PubRec(PubRecPacket {
        packet_id: 4,
        reason_code: ReasonCode::Success,
        properties: Properties::new(),
    });
    let actions = handle_packet(&mut s, rec).unwrap();
    assert_eq!(actions.len(), 1);
    assert!(matches!(&actions[0], ActionV5::Send(Packet::PubRel(r)) if r.packet_id == 4));
}

#[test]
fn v5_refused_packets_name_the_reason() {
    let mut s = SessionV5::new();
    match handle_packet(&mut s, incoming(QoS::ExactlyOnce, None)) {
        Err(ClientError::UnexpectedPacket(m)) => assert_eq!(m, "QoS 2 PUBLISH missing packet id"),
        other => panic!("unexpected result {:?}", other),
    }
    let connack = Packet::ConnAck(ConnAckPacket {
        session_present: false,
        reason_code: ReasonCode::Success,
        properties: Properties::new(),
    });
    match handle_packet(&mut s, connack) {
        Err(ClientError::UnexpectedPacket(m)) => {
            assert_eq!(m, "unexpected packet from broker: ConnAck")
        }
        other => panic!("unexpected result {:?}", other),
    }
}

#[test]
fn v5_connack_outcome() {
    let ok = Packet::ConnAck(ConnAckPacket {
        session_present: true,
        reason_code: ReasonCode::Success,
        properties: Properties::new(),
    });
    assert!(connack_outcome(&ok).is_ok());

    let refused = Packet::ConnAck(ConnAckPacket {
        session_present: false,
        reason_code: ReasonCode::NotAuthorized,
        properties: Properties::new(),
    });
    match connack_outcome(&refused) {
        Err(ClientError::ConnectionRefused { reason }) => assert_eq!(reason, "CONNACK reason 0x87"),
        other => panic!("unexpected result {:?}", other),
    }

    match connack_outcome(&Packet::PingResp(PingRespPacket)) {
        Err(ClientError::UnexpectedPacket(m)) => assert_eq!(m, "expected CONNACK, got PingResp"),
        other => panic!("unexpected result {:?}", other),
    }
}

#[test]
fn v5_build_connect_uses_level_5() {
    let config = ClientConfig::new("127.0.0.1:1883", "c1").keep_alive(30);
    let p = build_connect(&config, "c1".to_string()).unwrap();
    assert_eq!(p.protocol_name, "MQTT");
    assert_eq!(p.protocol_level, 5);
    assert_eq!(p.keep_alive, 30);
    assert_eq!(p.client_id, "c1");
    assert!(p.clean_start);

    let will = LastWill {
        topic: "w".to_string(),
        message: b"bye".to_vec(),
        qos: 3,
        retain: false,
    };
    let bad = ClientConfig::new("127.0.0.1:1883", "c1").last_will(will);
    assert!(matches!(build_connect(&bad, "c1".to_string()), Err(ClientError::InvalidQoS(3))));
}
