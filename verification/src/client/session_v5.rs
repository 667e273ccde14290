//! The decisions of an MQTT v5.0 client session.
//!
//! The v5.0 session keeps a packet identifier counter and the incoming
//! QoS 2 messages awaiting PUBREL. As for v3.1.1, each function takes the
//! session and one command or packet, updates the session and returns the
//! actions to perform in order.

use std::collections::HashMap;

use vstd::prelude::*;

use super::error::ClientError;
use super::event::Event;
use super::state::{held_view, next_id, HeldMessage};
use crate::text::{hex_byte, hex_byte_text, join};
use crate::v5::packet::{
    packet_kind, packet_type_name, properties_empty, reason_code_value, Packet, Properties, PubAckPacket, PubCompPacket,
    PubRecPacket, PubRelPacket, PublishPacket, ReasonCode, SubscribePacket, SubscriptionOption,
    UnsubscribePacket,
};
use crate::v4::packet::{qos_from_value, QoS};

verus! {

broadcast use vstd::std_specs::hash::group_hash_axioms;

/// What the v5.0 session asks its caller to do.
#[derive(Debug)]
pub enum ActionV5 {
    /// Send a packet to the broker.
    Send(Packet),
    /// Report an event to the user.
    Emit(Event),
}

/// The state of a v5.0 session.
#[derive(Debug)]
pub struct SessionV5 {
    pub next_packet_id: u16,
    /// Incoming QoS 2 messages awaiting PUBREL.
    pub qos2_incoming: HashMap<u16, (String, Vec<u8>, bool)>,
}

impl SessionV5 {
    /// Identifiers are never 0.
    pub open spec fn wf(&self) -> bool {
        self.next_packet_id != 0
    }

    /// Incoming QoS 2 messages awaiting PUBREL, by packet identifier.
    pub open spec fn held(&self) -> Map<u16, HeldMessage> {
        self.qos2_incoming@.map_values(|m: (String, Vec<u8>, bool)| held_view(m))
    }

    /// A fresh session: identifiers start at 1 and nothing is held.
    pub fn new() -> (s: SessionV5)
        ensures
            s.wf(),
            s.next_packet_id == 1,
            s.held() == Map::<u16, HeldMessage>::empty(),
    {
        let s = SessionV5 { next_packet_id: 1, qos2_incoming: HashMap::new() };
        assert(s.held() =~= Map::<u16, HeldMessage>::empty());
        s
    }

    /// Takes the next packet identifier; identifiers run from 1 to 65535
    /// and wrap around to 1.
    pub fn alloc_packet_id(&mut self) -> (id: u16)
        requires
            old(self).wf(),
        ensures
            final(self).wf(),
            id == old(self).next_packet_id,
            id != 0,
            final(self).next_packet_id == next_id(id),
            final(self).held() == old(self).held(),
    {
        let id = self.next_packet_id;
        self.next_packet_id = if id == u16::MAX {
            1
        } else {
            id + 1
        };
        id
    }
}

/// Converts a QoS number, refusing one above 2.
fn parse_qos(qos: u8) -> (res: Result<QoS, ClientError>)
    ensures
        match qos_from_value(qos) {
            Some(q) => res matches Ok(r) && r == q,
            None => res matches Err(ClientError::InvalidQoS(v)) && v == qos,
        },
{
    match QoS::try_from(qos) {
        Ok(q) => Ok(q),
        Err(_) => Err(ClientError::InvalidQoS(qos)),
    }
}

/// Whether `a` sends the PUBLISH of a message, with no properties.
pub open spec fn sends_publish(
    a: ActionV5,
    topic: Seq<char>,
    payload: Seq<u8>,
    qos: QoS,
    retain: bool,
    packet_id: Option<u16>,
) -> bool {
    a matches ActionV5::Send(Packet::Publish(p)) && p.topic_name@ == topic && p.payload@ == payload
        && p.qos == qos && p.retain == retain && p.packet_id == packet_id && !p.duplicate
        && properties_empty(p.properties)
}

/// Handles a publish command: QoS 0 is sent without identifier, QoS 1 and
/// 2 with the next identifier; any other QoS is refused.
pub fn publish(state: &mut SessionV5, topic: String, payload: Vec<u8>, qos: u8, retain: bool) -> (res:
    Result<ActionV5, ClientError>)
    requires
        old(state).wf(),
    ensures
        final(state).wf(),
        final(state).held() == old(state).held(),
        qos > 2 ==> (res matches Err(ClientError::InvalidQoS(v)) && v == qos)
            && final(state).next_packet_id == old(state).next_packet_id,
        qos == 0 ==> (res matches Ok(a) && sends_publish(a, topic@, payload@, QoS::AtMostOnce, retain, None))
            && final(state).next_packet_id == old(state).next_packet_id,
        1 <= qos <= 2 ==> (res matches Ok(a) && sends_publish(
            a,
            topic@,
            payload@,
            qos_from_value(qos)->Some_0,
            retain,
            Some(old(state).next_packet_id),
        )) && final(state).next_packet_id == next_id(old(state).next_packet_id),
{
    let q = parse_qos(qos)?;
    let packet_id = if qos == 0 {
        None
    } else {
        Some(state.alloc_packet_id())
    };
    let packet = PublishPacket {
        topic_name: topic,
        packet_id,
        payload,
        qos: q,
        duplicate: false,
        retain,
        properties: Properties::new(),
    };
    Ok(ActionV5::Send(Packet::Publish(packet)))
}

/// A subscription option with default options: local messages, retain
/// flag as the broker sets it, retained messages sent on subscribe.
pub open spec fn default_option(o: SubscriptionOption, filter: Seq<char>, qos: QoS) -> bool {
    o.topic_filter@ == filter && o.qos == qos && !o.no_local && !o.retain_as_published
        && o.retain_handling == 0
}

/// Whether `a` is one SUBSCRIBE with identifier `id`, no properties and
/// the filters of `topics` with default options.
pub open spec fn sends_subscribe(a: Seq<ActionV5>, id: u16, topics: Seq<(String, u8)>) -> bool {
    a.len() == 1 && match a[0] {
        ActionV5::Send(Packet::Subscribe(s)) => {
            &&& s.packet_id == id
            &&& properties_empty(s.properties)
            &&& s.topics@.len() == topics.len()
            &&& forall|i: int|
                0 <= i < topics.len() ==> default_option(
                    #[trigger] s.topics@[i],
                    topics[i].0@,
                    qos_from_value(topics[i].1)->Some_0,
                )
        },
        _ => false,
    }
}

/// Whether `a` is one UNSUBSCRIBE with identifier `id`, no properties and
/// the filters `topics`.
pub open spec fn sends_unsubscribe(a: Seq<ActionV5>, id: u16, topics: Seq<String>) -> bool {
    a.len() == 1 && match a[0] {
        ActionV5::Send(Packet::Unsubscribe(u)) => u.packet_id == id && u.topics@ == topics
            && properties_empty(u.properties),
        _ => false,
    }
}

/// Handles a subscribe command: an empty list does nothing; otherwise one
/// SUBSCRIBE with the next identifier and default options is sent. A QoS
/// above 2 is refused after the identifier was taken.
#[verifier::loop_isolation(false)]
pub fn subscribe(state: &mut SessionV5, topics: Vec<(String, u8)>) -> (res: Result<
    Vec<ActionV5>,
    ClientError,
>)
    requires
        old(state).wf(),
    ensures
        final(state).wf(),
        final(state).held() == old(state).held(),
        topics@.len() == 0 ==> (res matches Ok(a) && a@.len() == 0) && final(state).next_packet_id
            == old(state).next_packet_id,
        topics@.len() > 0 ==> final(state).next_packet_id == next_id(old(state).next_packet_id),
        topics@.len() > 0 && (forall|i: int| 0 <= i < topics@.len() ==> #[trigger] topics@[i].1 <= 2)
            ==> (res matches Ok(a) && sends_subscribe(a@, old(state).next_packet_id, topics@)),
        topics@.len() > 0 && !(forall|i: int| 0 <= i < topics@.len() ==> #[trigger] topics@[i].1 <= 2)
            ==> (res matches Err(ClientError::InvalidQoS(v)) && v > 2),
{
    if topics.len() == 0 {
        return Ok(Vec::new());
    }
    let packet_id = state.alloc_packet_id();
    let mut options: Vec<SubscriptionOption> = Vec::new();
    let mut i: usize = 0;
    while i < topics.len()
        invariant
            i <= topics@.len(),
            options@.len() == i,
            forall|j: int| 0 <= j < i ==> #[trigger] topics@[j].1 <= 2,
            forall|j: int|
                0 <= j < i ==> default_option(
                    #[trigger] options@[j],
                    topics@[j].0@,
                    qos_from_value(topics@[j].1)->Some_0,
                ),
        decreases topics@.len() - i,
    {
        let q = match parse_qos(topics[i].1) {
            Ok(q) => q,
            Err(e) => {
                return Err(e);
            },
        };
        let ghost before = options@;
        options.push(
            SubscriptionOption {
                topic_filter: topics[i].0.clone(),
                qos: q,
                no_local: false,
                retain_as_published: false,
                retain_handling: 0,
            },
        );
        assert forall|j: int| 0 <= j < i + 1 implies default_option(
            #[trigger] options@[j],
            topics@[j].0@,
            qos_from_value(topics@[j].1)->Some_0,
        ) by {
            if j < i {
                assert(options@[j] == before[j]);
            }
        }
        i += 1;
    }
    let packet = SubscribePacket { packet_id, properties: Properties::new(), topics: options };
    let mut actions: Vec<ActionV5> = Vec::new();
    actions.push(ActionV5::Send(Packet::Subscribe(packet)));
    Ok(actions)
}

/// Handles an unsubscribe command: an empty list does nothing; otherwise
/// one UNSUBSCRIBE with the next identifier is sent.
pub fn unsubscribe(state: &mut SessionV5, topics: Vec<String>) -> (actions: Vec<ActionV5>)
    requires
        old(state).wf(),
    ensures
        final(state).wf(),
        final(state).held() == old(state).held(),
        topics@.len() == 0 ==> actions@.len() == 0 && final(state).next_packet_id
            == old(state).next_packet_id,
        topics@.len() > 0 ==> final(state).next_packet_id == next_id(old(state).next_packet_id)
            && sends_unsubscribe(actions@, old(state).next_packet_id, topics@),
{
    if topics.len() == 0 {
        return Vec::new();
    }
    let packet_id = state.alloc_packet_id();
    let packet = UnsubscribePacket { packet_id, properties: Properties::new(), topics };
    let mut actions: Vec<ActionV5> = Vec::new();
    actions.push(ActionV5::Send(Packet::Unsubscribe(packet)));
    actions
}

/// An acknowledgement packet with reason Success and no properties.
pub open spec fn success_ack(a: ActionV5, kind: u8, id: u16) -> bool {
    match a {
        ActionV5::Send(Packet::PubAck(p)) => kind == 4 && p.packet_id == id && p.reason_code
            == ReasonCode::Success && properties_empty(p.properties),
        ActionV5::Send(Packet::PubRec(p)) => kind == 5 && p.packet_id == id && p.reason_code
            == ReasonCode::Success && properties_empty(p.properties),
        ActionV5::Send(Packet::PubRel(p)) => kind == 6 && p.packet_id == id && p.reason_code
            == ReasonCode::Success && properties_empty(p.properties),
        ActionV5::Send(Packet::PubComp(p)) => kind == 7 && p.packet_id == id && p.reason_code
            == ReasonCode::Success && properties_empty(p.properties),
        _ => false,
    }
}

/// Whether `a` reports a message.
pub open spec fn emits_message(a: ActionV5, topic: Seq<char>, payload: Seq<u8>, qos: u8, retain: bool) -> bool {
    a matches ActionV5::Emit(Event::Message { topic: t, payload: p, qos: q, retain: r })
        && t@ == topic && p@ == payload && q == qos && r == retain
}

/// Whether the v5.0 client accepts a packet of this kind from the broker.
pub open spec fn expected_from_broker_v5(p: Packet) -> bool {
    match p {
        Packet::Connect(_) | Packet::ConnAck(_) | Packet::Subscribe(_) | Packet::Unsubscribe(_)
        | Packet::PingReq(_) => false,
        Packet::Publish(x) => !(x.qos == QoS::ExactlyOnce && x.packet_id is None),
        _ => true,
    }
}

/// The message of the refusal of a packet the client does not accept.
pub open spec fn refusal_text_v5(p: Packet) -> Seq<char> {
    if p is Publish {
        "QoS 2 PUBLISH missing packet id"@
    } else {
        "unexpected packet from broker: "@ + packet_type_name(packet_kind(p))
    }
}

/// The decision on a packet from the broker, when the packet is handled:
/// the actions and the held messages afterwards, related to those before.
pub open spec fn handled_v5(old_held: Map<u16, HeldMessage>, new_held: Map<u16, HeldMessage>, packet: Packet, a: Seq<ActionV5>) -> bool {
    match packet {
            Packet::Publish(x) => match x.qos {
                QoS::AtMostOnce => a.len() == 1 && emits_message(a[0], x.topic_name@, x.payload@, 0, x.retain)
                    && new_held == old_held,
                QoS::AtLeastOnce => new_held == old_held && match x.packet_id {
                    Some(id) => a.len() == 2 && success_ack(a[0], 4, id) && emits_message(
                        a[1],
                        x.topic_name@,
                        x.payload@,
                        1,
                        x.retain,
                    ),
                    None => a.len() == 1 && emits_message(a[0], x.topic_name@, x.payload@, 1, x.retain),
                },
                QoS::ExactlyOnce => a.len() == 1 && success_ack(a[0], 5, x.packet_id->Some_0)
                    && new_held == old_held.insert(
                    x.packet_id->Some_0,
                    HeldMessage { topic: x.topic_name@, payload: x.payload@, retain: x.retain },
                ),
            },
            Packet::PubRel(x) => new_held == old_held.remove(x.packet_id)
                && success_ack(a[0], 7, x.packet_id) && if old_held.contains_key(
                x.packet_id,
            ) {
                let m = old_held[x.packet_id];
                a.len() == 2 && emits_message(a[1], m.topic, m.payload, 2, m.retain)
            } else {
                a.len() == 1
            },
            Packet::PubRec(x) => a.len() == 1 && success_ack(a[0], 6, x.packet_id)
                && new_held == old_held,
            Packet::PubAck(x) => a.len() == 1 && (a[0] matches ActionV5::Emit(
                Event::PubAck { packet_id: id },
            ) && id == x.packet_id) && new_held == old_held,
            Packet::PubComp(x) => a.len() == 1 && (a[0] matches ActionV5::Emit(
                Event::PubComp { packet_id: id },
            ) && id == x.packet_id) && new_held == old_held,
            Packet::SubAck(x) => a.len() == 1 && (a[0] matches ActionV5::Emit(
                Event::SubAck { packet_id: id, return_codes: codes },
            ) && id == x.packet_id && codes@ == x.reason_codes@.map_values(
                |c: ReasonCode| reason_code_value(c),
            )) && new_held == old_held,
            Packet::UnsubAck(x) => a.len() == 1 && (a[0] matches ActionV5::Emit(
                Event::UnsubAck { packet_id: id },
            ) && id == x.packet_id) && new_held == old_held,
            _ => a.len() == 0 && new_held == old_held,
        }
}

/// Handles a packet from the broker: delivers messages (acknowledging
/// QoS 1, holding QoS 2 until PUBREL), answers PUBREC with PUBREL and
/// PUBREL with PUBCOMP, and reports acknowledgements. Packets a broker
/// does not send, and a QoS 2 PUBLISH without identifier, are refused and
/// change nothing.
pub fn handle_packet(state: &mut SessionV5, packet: Packet) -> (res: Result<
    Vec<ActionV5>,
    ClientError,
>)
    requires
        old(state).wf(),
    ensures
        final(state).wf(),
        final(state).next_packet_id == old(state).next_packet_id,
        !expected_from_broker_v5(packet) ==> (res matches Err(ClientError::UnexpectedPacket(m))
            && m@ == refusal_text_v5(packet)) && final(state).held() == old(state).held(),
        expected_from_broker_v5(packet) ==> (res matches Ok(a) && handled_v5(old(state).held(), final(state).held(), packet, a@)),
{
    let kind = packet.packet_type();
    let mut actions: Vec<ActionV5> = Vec::new();
    match packet {
        Packet::Publish(publish) => {
            match publish.qos {
                QoS::AtMostOnce => {
                    actions.push(
                        ActionV5::Emit(
                            Event::Message {
                                topic: publish.topic_name,
                                payload: publish.payload,
                                qos: 0,
                                retain: publish.retain,
                            },
                        ),
                    );
                },
                QoS::AtLeastOnce => {
                    if let Some(packet_id) = publish.packet_id {
                        actions.push(
                            ActionV5::Send(
                                Packet::PubAck(
                                    PubAckPacket {
                                        packet_id,
                                        reason_code: ReasonCode::Success,
                                        properties: Properties::new(),
                                    },
                                ),
                            ),
                        );
                    }
                    actions.push(
                        ActionV5::Emit(
                            Event::Message {
                                topic: publish.topic_name,
                                payload: publish.payload,
                                qos: 1,
                                retain: publish.retain,
                            },
                        ),
                    );
                },
                QoS::ExactlyOnce => {
                    let packet_id = match publish.packet_id {
                        Some(id) => id,
                        None => {
                            return Err(
                                ClientError::UnexpectedPacket(
                                    "QoS 2 PUBLISH missing packet id".to_owned(),
                                ),
                            );
                        },
                    };
                    let ghost h0 = state.held();
                    let ghost m = HeldMessage {
                        topic: publish.topic_name@,
                        payload: publish.payload@,
                        retain: publish.retain,
                    };
                    state.qos2_incoming.insert(
                        packet_id,
                        (publish.topic_name, publish.payload, publish.retain),
                    );
                    assert(state.held() =~= h0.insert(packet_id, m));
                    actions.push(
                        ActionV5::Send(
                            Packet::PubRec(
                                PubRecPacket {
                                    packet_id,
                                    reason_code: ReasonCode::Success,
                                    properties: Properties::new(),
                                },
                            ),
                        ),
                    );
                },
            }
        },
        Packet::PubAck(ack) => {
            actions.push(ActionV5::Emit(Event::PubAck { packet_id: ack.packet_id }));
        },
        Packet::PubRec(rec) => {
            actions.push(
                ActionV5::Send(
                    Packet::PubRel(
                        PubRelPacket {
                            packet_id: rec.packet_id,
                            reason_code: ReasonCode::Success,
                            properties: Properties::new(),
                        },
                    ),
                ),
            );
        },
        Packet::PubRel(rel) => {
            actions.push(
                ActionV5::Send(
                    Packet::PubComp(
                        PubCompPacket {
                            packet_id: rel.packet_id,
                            reason_code: ReasonCode::Success,
                            properties: Properties::new(),
                        },
                    ),
                ),
            );
            let ghost h0 = state.held();
            match state.qos2_incoming.remove(&rel.packet_id) {
                Some((topic, payload, retain)) => {
                    actions.push(ActionV5::Emit(Event::Message { topic, payload, qos: 2, retain }));
                },
                None => {},
            }
            assert(state.held() =~= h0.remove(rel.packet_id));
        },
        Packet::PubComp(comp) => {
            actions.push(ActionV5::Emit(Event::PubComp { packet_id: comp.packet_id }));
        },
        Packet::SubAck(ack) => {
            let mut codes: Vec<u8> = Vec::new();
            let mut i: usize = 0;
            while i < ack.reason_codes.len()
                invariant
                    i <= ack.reason_codes@.len(),
                    codes@ == ack.reason_codes@.take(i as int).map_values(
                        |c: ReasonCode| reason_code_value(c),
                    ),
                decreases ack.reason_codes@.len() - i,
            {
                codes.push(ack.reason_codes[i].as_u8());
                i += 1;
                assert(codes@ =~= ack.reason_codes@.take(i as int).map_values(
                    |c: ReasonCode| reason_code_value(c),
                ));
            }
            assert(ack.reason_codes@.take(i as int) =~= ack.reason_codes@);
            actions.push(
                ActionV5::Emit(Event::SubAck { packet_id: ack.packet_id, return_codes: codes }),
            );
        },
        Packet::UnsubAck(ack) => {
            actions.push(ActionV5::Emit(Event::UnsubAck { packet_id: ack.packet_id }));
        },
        Packet::PingResp(_) => {},
        Packet::Disconnect(_) => {},
        Packet::Auth(_) => {},
        _ => {
            return Err(
                ClientError::UnexpectedPacket(
                    join("unexpected packet from broker: ", kind.name()),
                ),
            );
        },
    }
    Ok(actions)
}

/// The outcome of the handshake on the broker's first packet: a CONNACK
/// with reason Success completes it; a CONNACK with another reason is a
/// refusal; any other packet is unexpected.
pub fn connack_outcome(packet: &Packet) -> (res: Result<(), ClientError>)
    ensures
        match packet {
            Packet::ConnAck(ack) => if ack.reason_code == ReasonCode::Success {
                res is Ok
            } else {
                res matches Err(ClientError::ConnectionRefused { reason })
                    && reason@ == "CONNACK reason 0x"@ + hex_byte(reason_code_value(ack.reason_code))
            },
            _ => res matches Err(ClientError::UnexpectedPacket(m)) && m@ == "expected CONNACK, got "@
                + packet_type_name(packet_kind(*packet)),
        },
{
    match packet {
        Packet::ConnAck(ack) => {
            if ack.reason_code == ReasonCode::Success {
                Ok(())
            } else {
                let code = hex_byte_text(ack.reason_code.as_u8());
                Err(ClientError::ConnectionRefused { reason: join("CONNACK reason 0x", code.as_str()) })
            }
        },
        _ => Err(
            ClientError::UnexpectedPacket(
                join("expected CONNACK, got ", packet.packet_type().name()),
            ),
        ),
    }
}

/// Whether `p` is the v5.0 CONNECT packet for a configuration: protocol
/// "MQTT" level 5, no properties, the configured keep alive and clean start
/// flag, the credentials and the last will (without will properties) when
/// configured.
pub open spec fn connect_for(p: crate::v5::packet::ConnectPacket, config: super::config::ClientConfig, client_id: Seq<char>) -> bool {
    &&& p.protocol_name@ == "MQTT"@
    &&& p.protocol_level == 5
    &&& p.clean_start == config.clean_session
    &&& p.keep_alive == config.keep_alive
    &&& properties_empty(p.properties)
    &&& p.client_id@ == client_id
    &&& p.will_properties is None
    &&& match config.last_will {
        Some(w) => p.will_flag && p.will_qos == qos_from_value(w.qos)->Some_0 && p.will_retain
            == w.retain && p.will_topic == Some(w.topic) && (p.will_message matches Some(m)
            && m@ == w.message@),
        None => !p.will_flag && p.will_qos == QoS::AtMostOnce && !p.will_retain
            && p.will_topic is None && p.will_message is None,
    }
    &&& match config.credentials {
        Some(c) => p.username_flag && p.username == Some(c.username) && p.password_flag == (
        c.password is Some) && match (c.password, p.password) {
            (Some(a), Some(b)) => a@ == b@,
            (None, None) => true,
            _ => false,
        },
        None => !p.username_flag && !p.password_flag && p.username is None && p.password is None,
    }
}

/// Builds the v5.0 CONNECT packet for a configuration. A last will with a
/// QoS above 2 is refused.
pub fn build_connect(config: &super::config::ClientConfig, client_id: String) -> (res: Result<
    crate::v5::packet::ConnectPacket,
    ClientError,
>)
    ensures
        match config.last_will {
            Some(w) if w.qos > 2 => res matches Err(ClientError::InvalidQoS(v)) && v == w.qos,
            _ => res matches Ok(p) && connect_for(p, *config, client_id@),
        },
{
    let (username, password) = match &config.credentials {
        Some(c) => (Some(c.username.clone()), match &c.password {
            Some(p) => Some(p.clone()),
            None => None,
        }),
        None => (None, None),
    };
    let (will_flag, will_qos, will_retain, will_topic, will_message) = match &config.last_will {
        Some(w) => {
            let q = parse_qos(w.qos)?;
            (true, q, w.retain, Some(w.topic.clone()), Some(w.message.clone()))
        },
        None => (false, QoS::AtMostOnce, false, None, None),
    };
    let password_flag = password.is_some();
    let username_flag = username.is_some();
    let packet = crate::v5::packet::ConnectPacket {
        protocol_name: "MQTT".to_owned(),
        protocol_level: 5,
        clean_start: config.clean_session,
        will_flag,
        will_qos,
        will_retain,
        password_flag,
        username_flag,
        keep_alive: config.keep_alive,
        properties: Properties::new(),
        client_id,
        will_topic,
        will_message,
        will_properties: None,
        username,
        password,
    };
    Ok(packet)
}

} // verus!
