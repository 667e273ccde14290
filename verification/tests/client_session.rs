use mqtt_codec::client::config::{
    backoff_delay, effective_client_id, next_ping_deadline, next_reconnect, ping_interval_ms,
    ClientConfig, LastWill, ProtocolVersion, ReconnectOptions, ReconnectStep, TlsOptions,
};
use mqtt_codec::client::error::ClientError;
use mqtt_codec::client::event::Event;
use mqtt_codec::client::inflight::InflightStage;
use mqtt_codec::client::session_v4::{
    build_connect, connack_outcome, handle_command, handle_packet, publish, retransmit_inflight,
    retry_due, should_resubscribe, subscribe, unsubscribe, Action,
};
use mqtt_codec::client::state::{Command, SessionState};
use mqtt_codec::v4::{
    ConnAckPacket, ConnectReturnCode, Packet, PingReqPacket, PingRespPacket, PubAckPacket, PubCompPacket, PubRecPacket,
    PubRelPacket, PublishPacket, QoS, SubAckPacket, SubAckReturnCode,
};

fn sent_publish(a: &Action) -> &PublishPacket {
    match a {
        Action::Send(Packet::Publish(p)) => p,
        other => panic!("expected PUBLISH, got {:?}", other),
    }
}

#[test]
fn publish_qos0_is_sent_without_identifier() {
    let mut state = SessionState::new(4);
    let actions = publish(&mut state, "a/b".to_string(), b"hi".to_vec(), 0, true, 10).unwrap();
    assert_eq!(actions.len(), 1);
    let p = sent_publish(&actions[0]);
    assert_eq!(p.packet_id, None);
    assert_eq!(p.qos, QoS::AtMostOnce);
    assert!(p.retain);
    assert_eq!(state.next_packet_id, 1);
}

#[test]
fn publish_invalid_qos_is_refused() {
    let mut state = SessionState::new(4);
    let res = publish(&mut state, "a".to_string(), Vec::new(), 3, false, 0);
    assert!(matches!(res, Err(ClientError::InvalidQoS(3))));
}

#[test]
fn publish_qos1_then_puback_releases_window() {
    let mut state = SessionState::new(1);
    let actions = publish(&mut state, "t".to_string(), b"1".to_vec(), 1, false, 0).unwrap();
    let p = sent_publish(&actions[0]);
    assert_eq!(p.packet_id, Some(1));
    assert_eq!(p.qos, QoS::AtLeastOnce);
    assert!(!p.duplicate);
    assert!(!state.inflight.has_capacity());

    // The window is full: the next publish is queued.
    let queued = publish(&mut state, "t2".to_string(), b"2".to_vec(), 2, false, 0).unwrap();
    assert!(queued.is_empty());

    // PUBACK frees the slot: the event is reported and the queued publish goes out.
    let actions = handle_packet(&mut state, Packet::PubAck(PubAckPacket { packet_id: 1 }), 5).unwrap();
    assert_eq!(actions.len(), 2);
    assert!(matches!(actions[0], Action::Emit(Event::PubAck { packet_id: 1 })));
    let p = sent_publish(&actions[1]);
    assert_eq!(p.packet_id, Some(2));
    assert_eq!(p.topic_name, "t2");
    assert_eq!(p.qos, QoS::ExactlyOnce);
    assert!(state.inflight.get(1).is_none());
    assert_eq!(state.inflight.get(2).unwrap().stage, InflightStage::Rec);
}

#[test]
fn unknown_puback_changes_nothing() {
    let mut state = SessionState::new(2);
    let actions = handle_packet(&mut state, Packet::PubAck(PubAckPacket { packet_id: 9 }), 0).unwrap();
    assert!(actions.is_empty());
}

#[test]
fn outbound_qos2_handshake() {
    let mut state = SessionState::new(2);
    publish(&mut state, "t".to_string(), b"x".to_vec(), 2, false, 0).unwrap();
    let actions = handle_packet(&mut state, Packet::PubRec(PubRecPacket { packet_id: 1 }), 7).unwrap();
    assert!(matches!(actions[0], Action::Send(Packet::PubRel(PubRelPacket { packet_id: 1 }))));
    let entry = state.inflight.get(1).unwrap();
    assert_eq!(entry.stage, InflightStage::Comp);
    assert_eq!(entry.sent_at, 7);
    let actions =
        handle_packet(&mut state, Packet::PubComp(PubCompPacket { packet_id: 1 }), 8).unwrap();
    assert!(matches!(actions[0], Action::Emit(Event::PubComp { packet_id: 1 })));
    assert!(state.inflight.get(1).is_none());
}

#[test]
fn inbound_qos2_is_delivered_once() {
    let mut state = SessionState::new(2);
    let publish = PublishPacket {
        topic_name: "in".to_string(),
        packet_id: Some(5),
        payload: b"m".to_vec(),
        qos: QoS::ExactlyOnce,
        duplicate: false,
        retain: false,
    };
    let actions = handle_packet(&mut state, Packet::Publish(publish), 0).unwrap();
    assert_eq!(actions.len(), 1);
    assert!(matches!(actions[0], Action::Send(Packet::PubRec(PubRecPacket { packet_id: 5 }))));

    let actions = handle_packet(&mut state, Packet::PubRel(PubRelPacket { packet_id: 5 }), 0).unwrap();
    assert_eq!(actions.len(), 2);
    assert!(matches!(actions[0], Action::Send(Packet::PubComp(PubCompPacket { packet_id: 5 }))));
    match &actions[1] {
        Action::Emit(Event::Message { topic, payload, qos, retain }) => {
            assert_eq!(topic, "in");
            assert_eq!(payload, &b"m".to_vec());
            assert_eq!(*qos, 2);
            assert!(!retain);
        }
        other => panic!("expected a message, got {:?}", other),
    }

    let actions = handle_packet(&mut state, Packet::PubRel(PubRelPacket { packet_id: 5 }), 0).unwrap();
    assert_eq!(actions.len(), 1);
}

#[test]
fn inbound_qos1_is_acknowledged_and_delivered() {
    let mut state = SessionState::new(2);
    let publish = PublishPacket {
        topic_name: "q1".to_string(),
        packet_id: Some(11),
        payload: b"z".to_vec(),
        qos: QoS::AtLeastOnce,
        duplicate: false,
        retain: true,
    };
    let actions = handle_packet(&mut state, Packet::Publish(publish), 0).unwrap();
    assert_eq!(actions.len(), 2);
    assert!(matches!(actions[0], Action::Send(Packet::PubAck(PubAckPacket { packet_id: 11 }))));
    assert!(matches!(actions[1], Action::Emit(Event::Message { qos: 1, retain: true, .. })));
}

#[test]
fn qos2_publish_without_identifier_is_unexpected() {
    let mut state = SessionState::new(2);
    let publish = PublishPacket {
        topic_name: "q2".to_string(),
        packet_id: None,
        payload: Vec::new(),
        qos: QoS::ExactlyOnce,
        duplicate: false,
        retain: false,
    };
    let res = handle_packet(&mut state, Packet::Publish(publish), 0);
    assert!(matches!(res, Err(ClientError::UnexpectedPacket(_))));
}

#[test]
fn suback_is_reported_with_codes() {
    let mut state = SessionState::new(2);
    let ack = SubAckPacket {
        packet_id: 3,
        return_codes: vec![SubAckReturnCode::SuccessQoS1, SubAckReturnCode::Failure],
    };
    let actions = handle_packet(&mut state, Packet::SubAck(ack), 0).unwrap();
    match &actions[0] {
        Action::Emit(Event::SubAck { packet_id, return_codes }) => {
            assert_eq!(*packet_id, 3);
            assert_eq!(return_codes, &vec![0x01, 0x80]);
        }
        other => panic!("expected SUBACK event, got {:?}", other),
    }
}

#[test]
fn connack_from_client_side_is_unexpected_later() {
    let mut state = SessionState::new(2);
    let res = handle_packet(
        &mut state,
        Packet::ConnAck(ConnAckPacket::accepted(false)),
        0,
    );
    assert!(matches!(res, Err(ClientError::UnexpectedPacket(_))));
}

#[test]
fn subscribe_remembers_and_unsubscribe_forgets() {
    let mut state = SessionState::new(2);
    let actions = subscribe(
        &mut state,
        vec![("a/+".to_string(), 1), ("b/#".to_string(), 2), ("a/+".to_string(), 0)],
    )
    .unwrap();
    match &actions[0] {
        Action::Send(Packet::Subscribe(s)) => {
            assert_eq!(s.packet_id, 1);
            assert_eq!(s.topics.len(), 3);
            assert_eq!(s.topics[2], ("a/+".to_string(), QoS::AtMostOnce));
        }
        other => panic!("expected SUBSCRIBE, got {:?}", other),
    }
    assert_eq!(state.subscriptions.len(), 2);
    assert!(state.subscriptions.contains(&("a/+".to_string(), 0)));
    let actions = unsubscribe(&mut state, vec!["a/+".to_string()]);
    assert!(matches!(&actions[0], Action::Send(Packet::Unsubscribe(u)) if u.packet_id == 2));
    assert_eq!(state.subscriptions, vec![("b/#".to_string(), 2)]);
    assert!(unsubscribe(&mut state, Vec::new()).is_empty());
}

#[test]
fn subscribe_with_bad_qos_is_refused() {
    let mut state = SessionState::new(2);
    let res = subscribe(&mut state, vec![("a".to_string(), 1), ("b".to_string(), 7)]);
    assert!(matches!(res, Err(ClientError::InvalidQoS(7))));
}

#[test]
fn packet_identifiers_wrap_and_skip_zero() {
    let mut state = SessionState::new(2);
    state.next_packet_id = u16::MAX;
    assert_eq!(state.alloc_packet_id(), u16::MAX);
    assert_eq!(state.alloc_packet_id(), 1);
}

#[test]
fn clean_start_keeps_offline_commands() {
    let mut state = SessionState::new(2);
    state.remember_subscription("x".to_string(), 1);
    state.queue_command(Command::Disconnect);
    state.alloc_packet_id();
    state.clear_for_clean_start();
    assert!(state.subscriptions.is_empty());
    assert_eq!(state.next_packet_id, 1);
    assert!(matches!(state.take_command(), Some(Command::Disconnect)));
    assert!(state.take_command().is_none());
}

#[test]
fn retry_resends_due_messages_as_duplicates() {
    let mut state = SessionState::new(4);
    publish(&mut state, "t".to_string(), b"1".to_vec(), 1, false, 0).unwrap();
    publish(&mut state, "u".to_string(), b"2".to_vec(), 2, false, 900).unwrap();
    let actions = retry_due(&mut state, 1_000, 500);
    assert_eq!(actions.len(), 1);
    let p = sent_publish(&actions[0]);
    assert_eq!(p.packet_id, Some(1));
    assert!(p.duplicate);
    assert_eq!(state.inflight.get(1).unwrap().sent_at, 1_000);
    assert_eq!(state.inflight.get(2).unwrap().sent_at, 900);
    let all = retransmit_inflight(&mut state, 2_000);
    assert_eq!(all.len(), 2);
}

#[test]
fn disconnect_command_ends_session() {
    let mut state = SessionState::new(4);
    let (actions, done) = handle_command(&mut state, Command::Disconnect, 0).unwrap();
    assert!(done);
    assert!(matches!(actions[0], Action::Send(Packet::Disconnect(_))));
}

#[test]
fn connack_outcomes() {
    assert!(matches!(
        connack_outcome(&Packet::ConnAck(ConnAckPacket::accepted(true))),
        Ok(true)
    ));
    assert!(matches!(
        connack_outcome(&Packet::ConnAck(ConnAckPacket::new(ConnectReturnCode::NotAuthorized, false))),
        Err(ClientError::ConnectionRefused { .. })
    ));
    assert!(matches!(
        connack_outcome(&Packet::PubAck(PubAckPacket { packet_id: 1 })),
        Err(ClientError::UnexpectedPacket(_))
    ));
}

#[test]
fn connect_packet_from_config() {
    let config = ClientConfig::new("h:1", "id")
        .keep_alive(30)
        .clean_session(false)
        .credentials("user", Some(b"pw".to_vec()))
        .last_will(LastWill {
            topic: "will/t".to_string(),
            message: b"bye".to_vec(),
            qos: 1,
            retain: true,
        });
    let c = build_connect(&config, "id".to_string()).unwrap();
    assert_eq!(c.protocol_name, "MQTT");
    assert_eq!(c.protocol_level, 4);
    assert_eq!(c.keep_alive, 30);
    assert!(!c.clean_session);
    assert!(c.will_flag && c.will_retain);
    assert_eq!(c.will_qos, QoS::AtLeastOnce);
    assert!(c.username_flag && c.password_flag);
    assert_eq!(c.username.as_deref(), Some("user"));
    assert_eq!(c.password, Some(b"pw".to_vec()));
    assert!(mqtt_codec::v4::validate_connect_packet(&c).is_ok());

    let bad = ClientConfig::new("h:1", "id").last_will(LastWill {
        topic: "w".to_string(),
        message: Vec::new(),
        qos: 3,
        retain: false,
    });
    assert!(matches!(build_connect(&bad, "id".to_string()), Err(ClientError::InvalidQoS(3))));
}

#[test]
fn protocol_version_names() {
    assert_eq!(ProtocolVersion::parse("V4"), Ok(ProtocolVersion::V4));
    assert_eq!(ProtocolVersion::parse("MQTT311"), Ok(ProtocolVersion::V4));
    assert_eq!(ProtocolVersion::parse("5.0"), Ok(ProtocolVersion::V5));
    assert_eq!(ProtocolVersion::parse("mqttv5"), Ok(ProtocolVersion::V5));
    assert!(ProtocolVersion::parse("v6").is_err());
    assert_eq!("v5".parse::<ProtocolVersion>(), Ok(ProtocolVersion::V5));
    assert_eq!(ProtocolVersion::V4.protocol_level(), 4);
    assert_eq!(ProtocolVersion::V5.protocol_level(), 5);
    assert_eq!(ProtocolVersion::V4.label(), "MQTT v3.1.1");
    assert_eq!(ProtocolVersion::V5.label(), "MQTT v5.0");
    assert_eq!(ProtocolVersion::default(), ProtocolVersion::V4);
}

#[test]
fn config_defaults_and_builders() {
    let c = ClientConfig::default();
    assert_eq!(c.broker_addr, "127.0.0.1:1883");
    assert_eq!(c.keep_alive, 60);
    assert_eq!(c.max_inflight, 16);
    assert_eq!(c.connect_timeout_ms, 5_000);
    assert_eq!(c.ack_timeout_ms, 30_000);
    assert_eq!(c.tls, TlsOptions::default());
    assert_eq!(c.reconnect, ReconnectOptions::default());
    let c = c.max_inflight(0).protocol_version(ProtocolVersion::V5);
    assert_eq!(c.max_inflight, 1);
    assert_eq!(c.protocol_version, ProtocolVersion::V5);
}

#[test]
fn backoff_doubles_up_to_the_cap() {
    let r = ReconnectOptions::default();
    assert_eq!(backoff_delay(&r, 0), 1_000);
    assert_eq!(backoff_delay(&r, 1), 1_000);
    assert_eq!(backoff_delay(&r, 2), 2_000);
    assert_eq!(backoff_delay(&r, 4), 8_000);
    assert_eq!(backoff_delay(&r, 7), 60_000);
    assert_eq!(backoff_delay(&r, u32::MAX), 60_000);
    let huge = ReconnectOptions { enabled: true, initial_delay_ms: u64::MAX / 2, max_delay_ms: u64::MAX, max_attempts: None };
    assert_eq!(backoff_delay(&huge, 3), u64::MAX);
}

#[test]
fn client_id_and_ping_timing() {
    assert_eq!(effective_client_id("abc", 42), "abc");
    assert_eq!(effective_client_id("", 4071), "mqtt-4071");
    assert_eq!(effective_client_id("", 0), "mqtt-0");
    assert_eq!(ping_interval_ms(0), None);
    assert_eq!(ping_interval_ms(60), Some(60_000));
    assert_eq!(next_ping_deadline(10, Some(5)), Some(15));
    assert_eq!(next_ping_deadline(u64::MAX - 1, Some(5)), Some(u64::MAX));
    assert_eq!(next_ping_deadline(10, None), None);
}

#[test]
fn refusals_name_the_packet() {
    let mut state = SessionState::new(2);
    let publish = PublishPacket {
        topic_name: "q2".to_string(),
        packet_id: None,
        payload: Vec::new(),
        qos: QoS::ExactlyOnce,
        duplicate: false,
        retain: false,
    };
    match handle_packet(&mut state, Packet::Publish(publish), 0) {
        Err(ClientError::UnexpectedPacket(m)) => assert_eq!(m, "QoS 2 PUBLISH missing packet id"),
        other => panic!("unexpected result {:?}", other),
    }
    match handle_packet(&mut state, Packet::PingReq(PingReqPacket), 0) {
        Err(ClientError::UnexpectedPacket(m)) => {
            assert_eq!(m, "unexpected packet from broker: PingReq")
        }
        other => panic!("unexpected result {:?}", other),
    }
    match connack_outcome(&Packet::PingResp(PingRespPacket)) {
        Err(ClientError::UnexpectedPacket(m)) => assert_eq!(m, "expected CONNACK, got PingResp"),
        other => panic!("unexpected result {:?}", other),
    }
    match connack_outcome(&Packet::ConnAck(ConnAckPacket::new(
        ConnectReturnCode::BadUserNameOrPassword,
        false,
    ))) {
        Err(ClientError::ConnectionRefused { reason }) => {
            assert_eq!(reason, ConnectReturnCode::BadUserNameOrPassword.description())
        }
        other => panic!("unexpected result {:?}", other),
    }
}

#[test]
fn unknown_protocol_version_message() {
    assert_eq!(
        ProtocolVersion::parse("V7"),
        Err("unknown protocol version 'v7' (use v4/3.1.1 or v5/5.0)".to_string())
    );
}

#[test]
fn reconnect_steps() {
    let off = ReconnectOptions { enabled: false, ..ReconnectOptions::default() };
    assert_eq!(next_reconnect(&off, 0), ReconnectStep::Disabled);

    let limited = ReconnectOptions {
        enabled: true,
        initial_delay_ms: 100,
        max_delay_ms: 1000,
        max_attempts: Some(3),
    };
    assert_eq!(next_reconnect(&limited, 0), ReconnectStep::Retry { attempt: 1, delay_ms: 100 });
    assert_eq!(next_reconnect(&limited, 1), ReconnectStep::Retry { attempt: 2, delay_ms: 200 });
    assert_eq!(next_reconnect(&limited, 2), ReconnectStep::Retry { attempt: 3, delay_ms: 400 });
    assert_eq!(next_reconnect(&limited, 3), ReconnectStep::Exhausted);

    let unlimited = ReconnectOptions { max_attempts: None, ..limited };
    assert_eq!(
        next_reconnect(&unlimited, 9),
        ReconnectStep::Retry { attempt: 10, delay_ms: 1000 }
    );
    assert_eq!(
        next_reconnect(&unlimited, u32::MAX),
        ReconnectStep::Retry { attempt: u32::MAX, delay_ms: 1000 }
    );
}

#[test]
fn resubscribe_after_handshake() {
    assert!(should_resubscribe(true, true));
    assert!(should_resubscribe(true, false));
    assert!(should_resubscribe(false, false));
    assert!(!should_resubscribe(false, true));
}
