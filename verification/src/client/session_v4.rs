//! The decisions of an MQTT v3.1.1 client session.
//!
//! Each function takes the session state and one command, packet or timer
//! tick, updates the state and returns the actions to perform in order:
//! packets to send and events to report. Performing the actions (writing
//! to the connection, delivering events) is left to the caller; the state
//! changes assume the packets are sent. Times are milliseconds on the
//! caller's monotonic clock.

use vstd::prelude::*;

use super::error::ClientError;
use super::event::{Event, EventView};
use super::inflight::{
    InflightPublish, InflightPublishView, InflightStage, PendingPublish, PendingPublishView,
};
use super::state::{next_id, SessionState};
use crate::text::join;
use crate::v4::packet::{
    packet_view_type, qos_from_value, qos_value, Packet, PacketType, PacketView, PublishPacket,
    PublishPacketView, QoS,
};

verus! {

broadcast use vstd::std_specs::hash::group_hash_axioms;

/// What the session asks its caller to do.
#[derive(Debug)]
pub enum Action {
    /// Send a packet to the broker.
    Send(Packet),
    /// Report an event to the user.
    Emit(Event),
}

/// The view of an action.
pub enum ActionView {
    Send(PacketView),
    Emit(EventView),
}

impl View for Action {
    type V = ActionView;

    open spec fn view(&self) -> ActionView {
        match self {
            Action::Send(p) => ActionView::Send(p@),
            Action::Emit(e) => ActionView::Emit(e@),
        }
    }
}

/// The views of a list of actions.
pub open spec fn actions_view(a: Seq<Action>) -> Seq<ActionView> {
    a.map_values(|x: Action| x@)
}

/// Converts a QoS number, refusing one above 2.
pub fn parse_qos(qos: u8) -> (res: Result<QoS, ClientError>)
    ensures
        match qos_from_value(qos) {
            Some(q) => res matches Ok(r) && r == q,
            None => res matches Err(ClientError::InvalidQoS(v)) && v == qos,
        },
{
    match QoS::try_from(qos) {
        Ok(q) => Ok(q),
        Err(_) => Err(ClientError::InvalidQoS(qos)),
    }
}

/// The QoS level of a QoS number from 0 to 2.
pub open spec fn qos_of(qos: u8) -> QoS {
    qos_from_value(qos)->Some_0
}

/// The stage a new outbound publish starts in: waiting for PUBACK at QoS 1,
/// for PUBREC at QoS 2.
pub open spec fn stage_for(qos: u8) -> InflightStage {
    if qos == 1 {
        InflightStage::Ack
    } else {
        InflightStage::Rec
    }
}

/// The PUBLISH packet of a message.
pub open spec fn publish_view(
    topic: Seq<char>,
    payload: Seq<u8>,
    qos: QoS,
    retain: bool,
    packet_id: Option<u16>,
    duplicate: bool,
) -> PacketView {
    PacketView::Publish(
        PublishPacketView { topic_name: topic, packet_id, payload, qos, duplicate, retain },
    )
}

/// The inflight entry of a message sent at `now` with a fresh identifier.
pub open spec fn new_entry(
    topic: Seq<char>,
    payload: Seq<u8>,
    qos: u8,
    retain: bool,
    now: u64,
) -> InflightPublishView {
    InflightPublishView { topic, payload, qos, retain, stage: stage_for(qos), sent_at: now }
}

/// The outcome of sending queued publishes while the window has room.
pub struct FlushOutcome {
    pub next: u16,
    pub entries: Map<u16, InflightPublishView>,
    pub queue: Seq<PendingPublishView>,
    pub actions: Seq<ActionView>,
}

/// Sending queued publishes: while the window has a free slot and the
/// queue is not empty, the oldest queued publish is sent with the next
/// identifier and enters the window.
pub open spec fn flush_spec(
    next: u16,
    entries: Map<u16, InflightPublishView>,
    queue: Seq<PendingPublishView>,
    cap: nat,
    now: u64,
) -> FlushOutcome
    decreases queue.len(),
{
    if entries.len() < cap && queue.len() > 0 {
        let p = queue[0];
        let rest = flush_spec(
            next_id(next),
            entries.insert(next, new_entry(p.topic, p.payload, p.qos, p.retain, now)),
            queue.drop_first(),
            cap,
            now,
        );
        FlushOutcome {
            actions: seq![
                ActionView::Send(
                    publish_view(p.topic, p.payload, qos_of(p.qos), p.retain, Some(next), false),
                ),
            ] + rest.actions,
            ..rest
        }
    } else {
        FlushOutcome { next, entries, queue, actions: Seq::empty() }
    }
}

/// Sends a QoS 1 or 2 message with the next identifier and records it in flight.
fn send_qos_publish(
    state: &mut SessionState,
    topic: String,
    payload: Vec<u8>,
    qos: u8,
    retain: bool,
    now: u64,
) -> (a: Action)
    requires
        old(state).wf(),
        old(state).inflight().spec_has_capacity(),
        1 <= qos <= 2,
    ensures
        final(state).wf(),
        a@ == ActionView::Send(
            publish_view(
                topic@,
                payload@,
                qos_of(qos),
                retain,
                Some(old(state).next_packet_id()),
                false,
            ),
        ),
        final(state).next_packet_id() == next_id(old(state).next_packet_id()),
        final(state).inflight().entries() == old(state).inflight().entries().insert(
            old(state).next_packet_id(),
            new_entry(topic@, payload@, qos, retain, now),
        ),
        final(state).inflight().queue() == old(state).inflight().queue(),
        final(state).inflight().capacity() == old(state).inflight().capacity(),
        final(state).subscriptions() == old(state).subscriptions(),
        final(state).qos2_incoming() == old(state).qos2_incoming(),
        final(state).pending_commands() == old(state).pending_commands(),
{
    let q = if qos == 1 {
        QoS::AtLeastOnce
    } else {
        QoS::ExactlyOnce
    };
    let stage = if qos == 1 {
        InflightStage::Ack
    } else {
        InflightStage::Rec
    };
    let packet_id = state.alloc_packet_id();
    let entry = InflightPublish {
        topic: topic.clone(),
        payload: payload.clone(),
        qos,
        retain,
        stage,
        sent_at: now,
    };
    state.inflight.insert(packet_id, entry);
    proof {
        let e0 = old(state).inflight().entries();
        let e1 = state.inflight().entries();
        assert(e1.dom() =~= e0.dom().insert(packet_id));
        vstd::set::axiom_set_insert_len(e0.dom(), packet_id);
    }
    let packet = PublishPacket {
        topic_name: topic,
        packet_id: Some(packet_id),
        payload,
        qos: q,
        duplicate: false,
        retain,
    };
    Action::Send(Packet::Publish(packet))
}

/// Sends queued publishes while the window has a free slot.
fn flush_pending(state: &mut SessionState, now: u64) -> (actions: Vec<Action>)
    requires
        old(state).wf(),
    ensures
        final(state).wf(),
        ({
            let f = flush_spec(
                old(state).next_packet_id(),
                old(state).inflight().entries(),
                old(state).inflight().queue(),
                old(state).inflight().capacity(),
                now,
            );
            &&& actions_view(actions@) == f.actions
            &&& final(state).next_packet_id() == f.next
            &&& final(state).inflight().entries() == f.entries
            &&& final(state).inflight().queue() == f.queue
        }),
        final(state).inflight().capacity() == old(state).inflight().capacity(),
        final(state).subscriptions() == old(state).subscriptions(),
        final(state).qos2_incoming() == old(state).qos2_incoming(),
        final(state).pending_commands() == old(state).pending_commands(),
{
    let mut actions: Vec<Action> = Vec::new();
    let ghost f0 = flush_spec(
        state.next_packet_id(),
        state.inflight().entries(),
        state.inflight().queue(),
        state.inflight().capacity(),
        now,
    );
    loop
        invariant
            state.wf(),
            state.inflight().capacity() == old(state).inflight().capacity(),
            state.subscriptions() == old(state).subscriptions(),
            state.qos2_incoming() == old(state).qos2_incoming(),
            state.pending_commands() == old(state).pending_commands(),
            ({
                let f = flush_spec(
                    state.next_packet_id(),
                    state.inflight().entries(),
                    state.inflight().queue(),
                    state.inflight().capacity(),
                    now,
                );
                &&& actions_view(actions@) + f.actions == f0.actions
                &&& f.next == f0.next
                &&& f.entries == f0.entries
                &&& f.queue == f0.queue
            }),
        ensures
            flush_spec(
                state.next_packet_id(),
                state.inflight().entries(),
                state.inflight().queue(),
                state.inflight().capacity(),
                now,
            ).actions.len() == 0,
        decreases state.inflight().queue().len(),
    {
        let ghost s0 = *state;
        match state.inflight.pop_pending() {
            Some(p) => {
                proof {
                    assert(s0.inflight().queue()[0].qos == p.qos);
                    assert(1 <= s0.inflight().queue()[0].qos <= 2);
                }
                let a = send_qos_publish(state, p.topic, p.payload, p.qos, p.retain, now);
                let ghost before = actions@;
                actions.push(a);
                proof {
                    assert(actions_view(actions@) =~= actions_view(before).push(a@));
                    assert forall|i: int| 0 <= i < state.inflight().queue().len() implies 1
                        <= #[trigger] state.inflight().queue()[i].qos <= 2 by {
                        assert(state.inflight().queue()[i] == s0.inflight().queue()[i + 1]);
                    }
                }
            },
            None => {
                break ;
            },
        }
    }
    proof {
        let f = flush_spec(
            state.next_packet_id(),
            state.inflight().entries(),
            state.inflight().queue(),
            state.inflight().capacity(),
            now,
        );
        assert(f.actions =~= Seq::<ActionView>::empty());
        assert(actions_view(actions@) + f.actions =~= actions_view(actions@));
    }
    actions
}

/// The result of a decision, with the actions taken by their views.
pub open spec fn view_result(res: Result<Vec<Action>, ClientError>) -> Result<Seq<ActionView>, ClientError> {
    match res {
        Ok(a) => Ok(actions_view(a@)),
        Err(e) => Err(e),
    }
}

/// The decision on a publish command, related to the state before: QoS 0
/// is sent at once; QoS 1 or 2 is sent with the next identifier and enters
/// the window when it has a free slot, and is queued otherwise; any other
/// QoS is refused and changes nothing.
pub open spec fn publish_outcome(
    old: SessionState,
    new: SessionState,
    topic: Seq<char>,
    payload: Seq<u8>,
    qos: u8,
    retain: bool,
    now: u64,
    res: Result<Seq<ActionView>, ClientError>,
) -> bool {
    &&& new.inflight().capacity() == old.inflight().capacity()
    &&& new.subscriptions() == old.subscriptions()
    &&& new.qos2_incoming() == old.qos2_incoming()
    &&& new.pending_commands() == old.pending_commands()
    &&& if qos > 2 {
        (res matches Err(ClientError::InvalidQoS(v)) && v == qos) && new == old
    } else if qos == 0 {
        res == Ok::<Seq<ActionView>, ClientError>(
            seq![ActionView::Send(publish_view(topic, payload, QoS::AtMostOnce, retain, None, false))],
        ) && new == old
    } else if !old.inflight().spec_has_capacity() {
        &&& res == Ok::<Seq<ActionView>, ClientError>(Seq::empty())
        &&& new.inflight().queue() == old.inflight().queue().push(
            PendingPublishView { topic, payload, qos, retain },
        )
        &&& new.inflight().entries() == old.inflight().entries()
        &&& new.next_packet_id() == old.next_packet_id()
    } else {
        &&& res == Ok::<Seq<ActionView>, ClientError>(
            seq![
                ActionView::Send(
                    publish_view(topic, payload, qos_of(qos), retain, Some(old.next_packet_id()), false),
                ),
            ],
        )
        &&& new.inflight().entries() == old.inflight().entries().insert(
            old.next_packet_id(),
            new_entry(topic, payload, qos, retain, now),
        )
        &&& new.inflight().queue() == old.inflight().queue()
        &&& new.next_packet_id() == next_id(old.next_packet_id())
    }
}

/// Handles a publish command: QoS 0 is sent at once; QoS 1 or 2 is sent
/// with the next identifier and enters the window when it has a free
/// slot, and is queued otherwise; any other QoS is refused.
pub fn publish(
    state: &mut SessionState,
    topic: String,
    payload: Vec<u8>,
    qos: u8,
    retain: bool,
    now: u64,
) -> (res: Result<Vec<Action>, ClientError>)
    requires
        old(state).wf(),
    ensures
        final(state).wf(),
        publish_outcome(*old(state), *final(state), topic@, payload@, qos, retain, now, view_result(res)),
{
    let q = parse_qos(qos)?;
    if qos == 0 {
        let packet = PublishPacket {
            topic_name: topic,
            packet_id: None,
            payload,
            qos: q,
            duplicate: false,
            retain,
        };
        let mut actions: Vec<Action> = Vec::new();
        actions.push(Action::Send(Packet::Publish(packet)));
        assert(actions_view(actions@) =~= seq![actions@[0]@]);
        return Ok(actions);
    }
    if !state.inflight.has_capacity() {
        let ghost s0 = *state;
        state.inflight.push_pending(PendingPublish { topic, payload, qos, retain });
        proof {
            assert forall|i: int| 0 <= i < state.inflight().queue().len() implies 1
                <= #[trigger] state.inflight().queue()[i].qos <= 2 by {
                if i < s0.inflight().queue().len() {
                    assert(state.inflight().queue()[i] == s0.inflight().queue()[i]);
                }
            }
        }
        let empty: Vec<Action> = Vec::new();
        assert(actions_view(empty@) =~= Seq::<ActionView>::empty());
        return Ok(empty);
    }
    let a = send_qos_publish(state, topic, payload, qos, retain, now);
    let mut actions: Vec<Action> = Vec::new();
    actions.push(a);
    assert(actions_view(actions@) =~= seq![a@]);
    Ok(actions)
}

/// A message event.
pub open spec fn message_action(topic: Seq<char>, payload: Seq<u8>, qos: u8, retain: bool) -> ActionView {
    ActionView::Emit(EventView::Message { topic, payload, qos, retain })
}

/// The state after an acknowledgement of the message in flight under
/// `id`: the message leaves the window and queued publishes are sent.
pub open spec fn after_ack(old: SessionState, id: u16, now: u64) -> FlushOutcome {
    flush_spec(
        old.next_packet_id(),
        old.inflight().entries().remove(id),
        old.inflight().queue(),
        old.inflight().capacity(),
        now,
    )
}

/// The decision on a packet from the broker, when the packet is handled:
/// the actions and the resulting state, related to the state before.
pub open spec fn handled(
    old: SessionState,
    new: SessionState,
    p: PacketView,
    now: u64,
    actions: Seq<ActionView>,
) -> bool {
    &&& new.inflight().capacity() == old.inflight().capacity()
    &&& new.subscriptions() == old.subscriptions()
    &&& new.pending_commands() == old.pending_commands()
    &&& match p {
        PacketView::Publish(x) => {
            &&& new.next_packet_id() == old.next_packet_id()
            &&& new.inflight().entries() == old.inflight().entries()
            &&& new.inflight().queue() == old.inflight().queue()
            &&& match x.qos {
                QoS::AtMostOnce => actions == seq![
                    message_action(x.topic_name, x.payload, 0, x.retain),
                ] && new.qos2_incoming() == old.qos2_incoming(),
                QoS::AtLeastOnce => actions == (match x.packet_id {
                    Some(id) => seq![
                        ActionView::Send(PacketView::PubAck(crate::v4::packet::PubAckPacket { packet_id: id })),
                    ],
                    None => Seq::empty(),
                }) + seq![message_action(x.topic_name, x.payload, 1, x.retain)]
                    && new.qos2_incoming() == old.qos2_incoming(),
                QoS::ExactlyOnce => x.packet_id matches Some(id) && actions == seq![
                    ActionView::Send(PacketView::PubRec(crate::v4::packet::PubRecPacket { packet_id: id })),
                ] && new.qos2_incoming() == old.qos2_incoming().insert(
                    id,
                    super::state::HeldMessage {
                        topic: x.topic_name,
                        payload: x.payload,
                        retain: x.retain,
                    },
                ),
            }
        },
        PacketView::PubAck(x) => {
            &&& new.qos2_incoming() == old.qos2_incoming()
            &&& if old.inflight().entries().contains_key(x.packet_id) {
                let f = after_ack(old, x.packet_id, now);
                &&& actions == seq![ActionView::Emit(EventView::PubAck { packet_id: x.packet_id })]
                    + f.actions
                &&& new.next_packet_id() == f.next
                &&& new.inflight().entries() == f.entries
                &&& new.inflight().queue() == f.queue
            } else {
                &&& actions == Seq::<ActionView>::empty()
                &&& new.next_packet_id() == old.next_packet_id()
                &&& new.inflight().entries() == old.inflight().entries()
                &&& new.inflight().queue() == old.inflight().queue()
            }
        },
        PacketView::PubComp(x) => {
            &&& new.qos2_incoming() == old.qos2_incoming()
            &&& if old.inflight().entries().contains_key(x.packet_id) {
                let f = after_ack(old, x.packet_id, now);
                &&& actions == seq![ActionView::Emit(EventView::PubComp { packet_id: x.packet_id })]
                    + f.actions
                &&& new.next_packet_id() == f.next
                &&& new.inflight().entries() == f.entries
                &&& new.inflight().queue() == f.queue
            } else {
                &&& actions == Seq::<ActionView>::empty()
                &&& new.next_packet_id() == old.next_packet_id()
                &&& new.inflight().entries() == old.inflight().entries()
                &&& new.inflight().queue() == old.inflight().queue()
            }
        },
        PacketView::PubRec(x) => {
            &&& new.qos2_incoming() == old.qos2_incoming()
            &&& new.next_packet_id() == old.next_packet_id()
            &&& new.inflight().queue() == old.inflight().queue()
            &&& actions == seq![
                ActionView::Send(PacketView::PubRel(crate::v4::packet::PubRelPacket { packet_id: x.packet_id })),
            ]
            &&& new.inflight().entries() == if old.inflight().entries().contains_key(x.packet_id) {
                old.inflight().entries().insert(
                    x.packet_id,
                    InflightPublishView {
                        stage: InflightStage::Comp,
                        sent_at: now,
                        ..old.inflight().entries()[x.packet_id]
                    },
                )
            } else {
                old.inflight().entries()
            }
        },
        PacketView::PubRel(x) => {
            &&& new.next_packet_id() == old.next_packet_id()
            &&& new.inflight().entries() == old.inflight().entries()
            &&& new.inflight().queue() == old.inflight().queue()
            &&& new.qos2_incoming() == old.qos2_incoming().remove(x.packet_id)
            &&& actions == seq![
                ActionView::Send(PacketView::PubComp(crate::v4::packet::PubCompPacket { packet_id: x.packet_id })),
            ] + if old.qos2_incoming().contains_key(x.packet_id) {
                let m = old.qos2_incoming()[x.packet_id];
                seq![message_action(m.topic, m.payload, 2, m.retain)]
            } else {
                Seq::empty()
            }
        },
        _ => {
            &&& new.next_packet_id() == old.next_packet_id()
            &&& new.inflight().entries() == old.inflight().entries()
            &&& new.inflight().queue() == old.inflight().queue()
            &&& new.qos2_incoming() == old.qos2_incoming()
            &&& actions == match p {
                PacketView::SubAck(x) => seq![
                    ActionView::Emit(
                        EventView::SubAck {
                            packet_id: x.packet_id,
                            return_codes: crate::v4::encoder::suback_codes_bytes(x.return_codes),
                        },
                    ),
                ],
                PacketView::UnsubAck(x) => seq![
                    ActionView::Emit(EventView::UnsubAck { packet_id: x.packet_id }),
                ],
                _ => Seq::<ActionView>::empty(),
            }
        },
    }
}

/// The name of a packet type, as `{:?}` prints it.
pub open spec fn debug_name(t: PacketType) -> Seq<char> {
    match t {
        PacketType::Connect => "Connect"@,
        PacketType::ConnAck => "ConnAck"@,
        PacketType::Publish => "Publish"@,
        PacketType::PubAck => "PubAck"@,
        PacketType::PubRec => "PubRec"@,
        PacketType::PubRel => "PubRel"@,
        PacketType::PubComp => "PubComp"@,
        PacketType::Subscribe => "Subscribe"@,
        PacketType::SubAck => "SubAck"@,
        PacketType::Unsubscribe => "Unsubscribe"@,
        PacketType::UnsubAck => "UnsubAck"@,
        PacketType::PingReq => "PingReq"@,
        PacketType::PingResp => "PingResp"@,
        PacketType::Disconnect => "Disconnect"@,
    }
}

/// The name of a packet type, as `{:?}` prints it.
fn packet_type_text(t: PacketType) -> (s: &'static str)
    ensures
        s@ == debug_name(t),
{
    match t {
        PacketType::Connect => "Connect",
        PacketType::ConnAck => "ConnAck",
        PacketType::Publish => "Publish",
        PacketType::PubAck => "PubAck",
        PacketType::PubRec => "PubRec",
        PacketType::PubRel => "PubRel",
        PacketType::PubComp => "PubComp",
        PacketType::Subscribe => "Subscribe",
        PacketType::SubAck => "SubAck",
        PacketType::Unsubscribe => "Unsubscribe",
        PacketType::UnsubAck => "UnsubAck",
        PacketType::PingReq => "PingReq",
        PacketType::PingResp => "PingResp",
        PacketType::Disconnect => "Disconnect",
    }
}

/// The message of the refusal of a packet the client does not accept.
pub open spec fn refusal_text(p: PacketView) -> Seq<char> {
    if p is Publish {
        "QoS 2 PUBLISH missing packet id"@
    } else {
        "unexpected packet from broker: "@ + debug_name(packet_view_type(p))
    }
}

/// Whether the client accepts a packet of this kind from the broker.
pub open spec fn expected_from_broker(p: PacketView) -> bool {
    match p {
        PacketView::Connect(_) | PacketView::ConnAck(_) | PacketView::Subscribe(_)
        | PacketView::Unsubscribe(_) | PacketView::PingReq => false,
        PacketView::Publish(x) => !(x.qos == QoS::ExactlyOnce && x.packet_id is None),
        _ => true,
    }
}

/// Handles a packet from the broker after the handshake: delivers
/// messages (acknowledging QoS 1, holding QoS 2 until PUBREL), advances
/// the QoS handshakes of outbound messages, sends queued publishes when
/// the window frees up, and reports acknowledgements. Packets a broker
/// does not send, and a QoS 2 PUBLISH without identifier, are refused and
/// change nothing.
pub fn handle_packet(state: &mut SessionState, packet: Packet, now: u64) -> (res: Result<
    Vec<Action>,
    ClientError,
>)
    requires
        old(state).wf(),
    ensures
        final(state).wf(),
        expected_from_broker(packet@) ==> (res matches Ok(a) && handled(
            *old(state),
            *final(state),
            packet@,
            now,
            actions_view(a@),
        )),
        !expected_from_broker(packet@) ==> (res matches Err(ClientError::UnexpectedPacket(m))
            && m@ == refusal_text(packet@)) && *final(state) == *old(state),
{
    let ghost p = packet@;
    let kind = packet.packet_type();
    let mut actions: Vec<Action> = Vec::new();
    assert(actions_view(actions@) =~= Seq::<ActionView>::empty());
    match packet {
        Packet::Publish(publish) => {
            match publish.qos {
                QoS::AtMostOnce => {
                    actions.push(
                        Action::Emit(
                            Event::Message {
                                topic: publish.topic_name,
                                payload: publish.payload,
                                qos: 0,
                                retain: publish.retain,
                            },
                        ),
                    );
                    assert(actions_view(actions@) =~= seq![actions@[0]@]);
                },
                QoS::AtLeastOnce => {
                    if let Some(packet_id) = publish.packet_id {
                        actions.push(
                            Action::Send(
                                Packet::PubAck(crate::v4::packet::PubAckPacket { packet_id }),
                            ),
                        );
                    }
                    actions.push(
                        Action::Emit(
                            Event::Message {
                                topic: publish.topic_name,
                                payload: publish.payload,
                                qos: 1,
                                retain: publish.retain,
                            },
                        ),
                    );
                    assert(actions_view(actions@) =~= (match p->Publish_0.packet_id {
                        Some(id) => seq![
                            ActionView::Send(PacketView::PubAck(crate::v4::packet::PubAckPacket { packet_id: id })),
                        ],
                        None => Seq::empty(),
                    }) + seq![message_action(p->Publish_0.topic_name, p->Publish_0.payload, 1, p->Publish_0.retain)]);
                },
                QoS::ExactlyOnce => {
                    let packet_id = match publish.packet_id {
                        Some(id) => id,
                        None => {
                            return Err(
                                ClientError::UnexpectedPacket(
                                    "QoS 2 PUBLISH missing packet id".to_owned(),
                                ),
                            );
                        },
                    };
                    let ghost q0 = state.qos2_incoming();
                    state.qos2_incoming.insert(
                        packet_id,
                        (publish.topic_name, publish.payload, publish.retain),
                    );
                    assert(state.qos2_incoming() =~= q0.insert(
                        packet_id,
                        super::state::HeldMessage {
                            topic: p->Publish_0.topic_name,
                            payload: p->Publish_0.payload,
                            retain: p->Publish_0.retain,
                        },
                    ));
                    actions.push(
                        Action::Send(Packet::PubRec(crate::v4::packet::PubRecPacket { packet_id })),
                    );
                    assert(actions_view(actions@) =~= seq![actions@[0]@]);
                },
            }
        },
        Packet::PubAck(ack) => {
            let ghost e0 = state.inflight().entries();
            if state.inflight.remove(ack.packet_id).is_some() {
                actions.push(Action::Emit(Event::PubAck { packet_id: ack.packet_id }));
                let mut more = flush_pending(state, now);
                let ghost first = actions_view(actions@);
                assert(first =~= seq![ActionView::Emit(EventView::PubAck { packet_id: ack.packet_id })]);
                let ghost rest = actions_view(more@);
                actions.append(&mut more);
                assert(actions_view(actions@) =~= first + rest);
            } else {
                assert(e0.remove(ack.packet_id) =~= e0);
            }
        },
        Packet::PubComp(comp) => {
            let ghost e0 = state.inflight().entries();
            if state.inflight.remove(comp.packet_id).is_some() {
                actions.push(Action::Emit(Event::PubComp { packet_id: comp.packet_id }));
                let mut more = flush_pending(state, now);
                let ghost first = actions_view(actions@);
                assert(first =~= seq![ActionView::Emit(EventView::PubComp { packet_id: comp.packet_id })]);
                let ghost rest = actions_view(more@);
                actions.append(&mut more);
                assert(actions_view(actions@) =~= first + rest);
            } else {
                assert(e0.remove(comp.packet_id) =~= e0);
            }
        },
        Packet::PubRec(rec) => {
            state.inflight.update(rec.packet_id, InflightStage::Comp, now);
            actions.push(
                Action::Send(
                    Packet::PubRel(crate::v4::packet::PubRelPacket { packet_id: rec.packet_id }),
                ),
            );
            assert(actions_view(actions@) =~= seq![actions@[0]@]);
        },
        Packet::PubRel(rel) => {
            actions.push(
                Action::Send(
                    Packet::PubComp(crate::v4::packet::PubCompPacket { packet_id: rel.packet_id }),
                ),
            );
            let ghost q0 = state.qos2_incoming();
            let ghost first = actions_view(actions@);
            assert(first =~= seq![
                ActionView::Send(PacketView::PubComp(crate::v4::packet::PubCompPacket { packet_id: rel.packet_id })),
            ]);
            match state.qos2_incoming.remove(&rel.packet_id) {
                Some((topic, payload, retain)) => {
                    actions.push(Action::Emit(Event::Message { topic, payload, qos: 2, retain }));
                },
                None => {},
            }
            assert(state.qos2_incoming() =~= q0.remove(rel.packet_id));
            assert(actions_view(actions@) =~= first + if q0.contains_key(rel.packet_id) {
                let m = q0[rel.packet_id];
                seq![message_action(m.topic, m.payload, 2, m.retain)]
            } else {
                Seq::empty()
            });
        },
        Packet::SubAck(ack) => {
            let codes = suback_code_values(&ack.return_codes);
            actions.push(
                Action::Emit(Event::SubAck { packet_id: ack.packet_id, return_codes: codes }),
            );
            assert(actions_view(actions@) =~= seq![actions@[0]@]);
        },
        Packet::UnsubAck(ack) => {
            actions.push(Action::Emit(Event::UnsubAck { packet_id: ack.packet_id }));
            assert(actions_view(actions@) =~= seq![actions@[0]@]);
        },
        Packet::PingResp(_) => {},
        Packet::Disconnect(_) => {},
        _ => {
            return Err(
                ClientError::UnexpectedPacket(
                    join("unexpected packet from broker: ", packet_type_text(kind)),
                ),
            );
        },
    }
    Ok(actions)
}

/// The wire values of SUBACK return codes.
fn suback_code_values(codes: &Vec<crate::v4::return_codes::SubAckReturnCode>) -> (v: Vec<u8>)
    ensures
        v@ == crate::v4::encoder::suback_codes_bytes(codes@),
{
    let mut v: Vec<u8> = Vec::new();
    let mut i: usize = 0;
    while i < codes.len()
        invariant
            i <= codes@.len(),
            v@ == crate::v4::encoder::suback_codes_bytes(codes@.take(i as int)),
        decreases codes@.len() - i,
    {
        v.push(codes[i].as_u8());
        i += 1;
        assert(v@ =~= crate::v4::encoder::suback_codes_bytes(codes@.take(i as int)));
    }
    assert(codes@.take(i as int) =~= codes@);
    v
}

/// The subscriptions after remembering each of `ts` in order.
pub open spec fn remember_all(m: Map<Seq<char>, u8>, ts: Seq<(String, u8)>) -> Map<Seq<char>, u8>
    decreases ts.len(),
{
    if ts.len() == 0 {
        m
    } else {
        remember_all(m, ts.drop_last()).insert(ts.last().0@, ts.last().1)
    }
}

/// Every requested QoS of a topic list is 0, 1 or 2.
pub open spec fn all_qos_valid(ts: Seq<(String, u8)>) -> bool {
    forall|i: int| 0 <= i < ts.len() ==> #[trigger] ts[i].1 <= 2
}

/// `v` is the first requested QoS of a topic list above 2.
pub open spec fn first_invalid_qos(ts: Seq<(String, u8)>, v: u8) -> bool {
    exists|i: int|
        0 <= i < ts.len() && #[trigger] ts[i].1 == v && v > 2 && forall|j: int|
            0 <= j < i ==> #[trigger] ts[j].1 <= 2
}

/// The SUBSCRIBE packet for a topic list.
pub open spec fn subscribe_view(id: u16, ts: Seq<(String, u8)>) -> PacketView {
    PacketView::Subscribe(
        crate::v4::packet::SubscribePacketView {
            packet_id: id,
            topics: ts.map_values(|t: (String, u8)| (t.0@, qos_of(t.1))),
        },
    )
}

/// Builds and sends a SUBSCRIBE with the next identifier.
#[verifier::loop_isolation(false)]
fn send_subscribe(state: &mut SessionState, topics: &Vec<(String, u8)>) -> (res: Result<
    Action,
    ClientError,
>)
    requires
        old(state).wf(),
    ensures
        final(state).wf(),
        final(state).next_packet_id() == next_id(old(state).next_packet_id()),
        final(state).subscriptions() == old(state).subscriptions(),
        final(state).inflight() == old(state).inflight(),
        final(state).qos2_incoming() == old(state).qos2_incoming(),
        final(state).pending_commands() == old(state).pending_commands(),
        all_qos_valid(topics@) ==> (res matches Ok(a) && a@ == ActionView::Send(
            subscribe_view(old(state).next_packet_id(), topics@),
        )),
        !all_qos_valid(topics@) ==> (res matches Err(ClientError::InvalidQoS(v))
            && first_invalid_qos(topics@, v)),
{
    let packet_id = state.alloc_packet_id();
    let mut list: Vec<(String, QoS)> = Vec::new();
    let mut i: usize = 0;
    while i < topics.len()
        invariant
            i <= topics@.len(),
            list@.len() == i,
            forall|j: int| 0 <= j < i ==> #[trigger] topics@[j].1 <= 2,
            forall|j: int| 0 <= j < i ==> (#[trigger] list@[j]).0@ == topics@[j].0@,
            forall|j: int| 0 <= j < i ==> (#[trigger] list@[j]).1 == qos_of(topics@[j].1),
        decreases topics@.len() - i,
    {
        let q = match parse_qos(topics[i].1) {
            Ok(q) => q,
            Err(e) => {
                assert(topics@[i as int].1 > 2);
                assert(first_invalid_qos(topics@, topics@[i as int].1));
                return Err(e);
            },
        };
        let name = topics[i].0.clone();
        assert(name@ == topics@[i as int].0@);
        let ghost before = list@;
        list.push((name, q));
        assert(list@[i as int].0@ == topics@[i as int].0@ && list@[i as int].1 == qos_of(topics@[i as int].1));
        assert forall|j: int| 0 <= j < i + 1 implies (#[trigger] list@[j]).0@ == topics@[j].0@
            && list@[j].1 == qos_of(topics@[j].1) by {
            if j < i {
                assert(list@[j] == before[j]);
            }
        }
        i += 1;
    }
    let packet = crate::v4::packet::SubscribePacket { packet_id, topics: list };
    assert(packet@.topics =~= topics@.map_values(|t: (String, u8)| (t.0@, qos_of(t.1))));
    Ok(Action::Send(Packet::Subscribe(packet)))
}

/// A copy of a topic list.
fn copy_topics(v: &Vec<(String, u8)>) -> (r: Vec<(String, u8)>)
    ensures
        r@ == v@,
{
    let mut r: Vec<(String, u8)> = Vec::new();
    let mut i: usize = 0;
    while i < v.len()
        invariant
            i <= v@.len(),
            r@ == v@.take(i as int),
        decreases v@.len() - i,
    {
        r.push((v[i].0.clone(), v[i].1));
        i += 1;
        assert(r@ =~= v@.take(i as int));
    }
    assert(v@.take(i as int) =~= v@);
    r
}

/// The decision on a subscribe command, related to the state before: an
/// empty list changes nothing; otherwise every filter is remembered, the
/// next identifier is taken, and one SUBSCRIBE is sent, or the first QoS
/// above 2 is refused.
pub open spec fn subscribe_outcome(
    old: SessionState,
    new: SessionState,
    topics: Seq<(String, u8)>,
    res: Result<Seq<ActionView>, ClientError>,
) -> bool {
    &&& new.inflight() == old.inflight()
    &&& new.qos2_incoming() == old.qos2_incoming()
    &&& new.pending_commands() == old.pending_commands()
    &&& if topics.len() == 0 {
        res == Ok::<Seq<ActionView>, ClientError>(Seq::empty()) && new == old
    } else {
        &&& new.subscriptions() == remember_all(old.subscriptions(), topics)
        &&& new.next_packet_id() == next_id(old.next_packet_id())
        &&& if all_qos_valid(topics) {
            res == Ok::<Seq<ActionView>, ClientError>(
                seq![ActionView::Send(subscribe_view(old.next_packet_id(), topics))],
            )
        } else {
            res matches Err(ClientError::InvalidQoS(v)) && first_invalid_qos(topics, v)
        }
    }
}

/// The decision on an unsubscribe command, related to the state before:
/// an empty list changes nothing; otherwise the filters are forgotten and
/// one UNSUBSCRIBE is sent with the next identifier.
pub open spec fn unsubscribe_outcome(
    old: SessionState,
    new: SessionState,
    topics: Seq<String>,
    actions: Seq<ActionView>,
) -> bool {
    &&& new.inflight() == old.inflight()
    &&& new.qos2_incoming() == old.qos2_incoming()
    &&& new.pending_commands() == old.pending_commands()
    &&& if topics.len() == 0 {
        actions == Seq::<ActionView>::empty() && new == old
    } else {
        &&& new.subscriptions() == old.subscriptions().remove_keys(
            topics.map_values(|f: String| f@).to_set(),
        )
        &&& new.next_packet_id() == next_id(old.next_packet_id())
        &&& actions == seq![ActionView::Send(unsubscribe_view(old.next_packet_id(), topics))]
    }
}

/// Handles a subscribe command: an empty list does nothing; otherwise
/// every filter is remembered with its QoS and one SUBSCRIBE is sent with
/// the next identifier. A QoS above 2 is refused when the packet is built,
/// after the filters were remembered and the identifier taken.
pub fn subscribe(state: &mut SessionState, topics: Vec<(String, u8)>) -> (res: Result<
    Vec<Action>,
    ClientError,
>)
    requires
        old(state).wf(),
    ensures
        final(state).wf(),
        subscribe_outcome(*old(state), *final(state), topics@, view_result(res)),
{
    if topics.len() == 0 {
        let empty: Vec<Action> = Vec::new();
        assert(actions_view(empty@) =~= Seq::<ActionView>::empty());
        return Ok(empty);
    }
    let mut i: usize = 0;
    while i < topics.len()
        invariant
            i <= topics@.len(),
            state.wf(),
            state.subscriptions() == remember_all(old(state).subscriptions(), topics@.take(i as int)),
            state.next_packet_id() == old(state).next_packet_id(),
            state.inflight() == old(state).inflight(),
            state.qos2_incoming() == old(state).qos2_incoming(),
            state.pending_commands() == old(state).pending_commands(),
        decreases topics@.len() - i,
    {
        state.remember_subscription(topics[i].0.clone(), topics[i].1);
        proof {
            let t = topics@.take(i + 1);
            assert(t.drop_last() =~= topics@.take(i as int));
            assert(t.last() == topics@[i as int]);
        }
        i += 1;
    }
    assert(topics@.take(i as int) =~= topics@);
    let a = send_subscribe(state, &topics)?;
    let mut actions: Vec<Action> = Vec::new();
    actions.push(a);
    assert(actions_view(actions@) =~= seq![a@]);
    Ok(actions)
}

/// The UNSUBSCRIBE packet for a list of filters.
pub open spec fn unsubscribe_view(id: u16, ts: Seq<String>) -> PacketView {
    PacketView::Unsubscribe(
        crate::v4::packet::UnsubscribePacketView {
            packet_id: id,
            topics: ts.map_values(|t: String| t@),
        },
    )
}

/// Handles an unsubscribe command: an empty list does nothing; otherwise
/// the filters are forgotten and one UNSUBSCRIBE is sent with the next
/// identifier.
pub fn unsubscribe(state: &mut SessionState, topics: Vec<String>) -> (actions: Vec<Action>)
    requires
        old(state).wf(),
    ensures
        final(state).wf(),
        unsubscribe_outcome(*old(state), *final(state), topics@, actions_view(actions@)),
{
    if topics.len() == 0 {
        let empty: Vec<Action> = Vec::new();
        assert(actions_view(empty@) =~= Seq::<ActionView>::empty());
        return empty;
    }
    state.forget_subscriptions(&topics);
    let packet_id = state.alloc_packet_id();
    let packet = crate::v4::packet::UnsubscribePacket { packet_id, topics };
    assert(packet@.topics =~= topics@.map_values(|t: String| t@));
    let mut actions: Vec<Action> = Vec::new();
    actions.push(Action::Send(Packet::Unsubscribe(packet)));
    assert(actions_view(actions@) =~= seq![actions@[0]@]);
    actions
}

/// After a reconnect without a kept session: subscribes again to every
/// remembered filter in one SUBSCRIBE, or does nothing when there is none.
pub fn resubscribe_all(state: &mut SessionState) -> (res: Result<Vec<Action>, ClientError>)
    requires
        old(state).wf(),
    ensures
        final(state).wf(),
        final(state).subscriptions() == old(state).subscriptions(),
        final(state).inflight() == old(state).inflight(),
        final(state).qos2_incoming() == old(state).qos2_incoming(),
        final(state).pending_commands() == old(state).pending_commands(),
        old(state).subscriptions@.len() == 0 ==> (res matches Ok(a) && a@.len() == 0)
            && *final(state) == *old(state),
        old(state).subscriptions@.len() > 0 ==> final(state).next_packet_id() == next_id(
            old(state).next_packet_id(),
        ),
        old(state).subscriptions@.len() > 0 && all_qos_valid(old(state).subscriptions@) ==> (res matches Ok(a)
            && actions_view(a@) == seq![
            ActionView::Send(subscribe_view(old(state).next_packet_id(), old(state).subscriptions@)),
        ]),
        old(state).subscriptions@.len() > 0 && !all_qos_valid(old(state).subscriptions@) ==> (res matches Err(
            ClientError::InvalidQoS(v),
        ) && first_invalid_qos(old(state).subscriptions@, v)),
{
    if state.subscriptions.len() == 0 {
        return Ok(Vec::new());
    }
    let topics = copy_topics(&state.subscriptions);
    let a = send_subscribe(state, &topics)?;
    let mut actions: Vec<Action> = Vec::new();
    actions.push(a);
    assert(actions_view(actions@) =~= seq![a@]);
    Ok(actions)
}

/// The packet that resends a message in flight: the PUBLISH again, marked
/// as a duplicate, while waiting for PUBACK or PUBREC; the PUBREL again
/// while waiting for PUBCOMP.
pub open spec fn resend_view(id: u16, e: InflightPublishView) -> ActionView {
    match e.stage {
        InflightStage::Comp => ActionView::Send(
            PacketView::PubRel(crate::v4::packet::PubRelPacket { packet_id: id }),
        ),
        _ => ActionView::Send(publish_view(e.topic, e.payload, qos_of(e.qos), e.retain, Some(id), true)),
    }
}

/// The messages in flight after those under `ids` were sent again at `now`.
pub open spec fn touched(entries: Map<u16, InflightPublishView>, ids: Set<u16>, now: u64) -> Map<
    u16,
    InflightPublishView,
> {
    Map::new(
        |k: u16| entries.contains_key(k),
        |k: u16|
            if ids.contains(k) {
                InflightPublishView { sent_at: now, ..entries[k] }
            } else {
                entries[k]
            },
    )
}

/// The resends of the messages under `ids`, in order.
pub open spec fn resends(entries: Map<u16, InflightPublishView>, ids: Seq<u16>) -> Seq<ActionView> {
    ids.map_values(|id: u16| resend_view(id, entries[id]))
}

/// Sends again the messages in flight under `ids`, stamping them sent at `now`.
#[verifier::loop_isolation(false)]
fn resend(state: &mut SessionState, ids: &Vec<u16>, now: u64) -> (actions: Vec<Action>)
    requires
        old(state).wf(),
        ids@.no_duplicates(),
        forall|i: int| 0 <= i < ids@.len() ==> old(state).inflight().entries().contains_key(#[trigger] ids@[i]),
    ensures
        final(state).wf(),
        actions_view(actions@) == resends(old(state).inflight().entries(), ids@),
        final(state).inflight().entries() == touched(old(state).inflight().entries(), ids@.to_set(), now),
        final(state).inflight().queue() == old(state).inflight().queue(),
        final(state).inflight().capacity() == old(state).inflight().capacity(),
        final(state).next_packet_id() == old(state).next_packet_id(),
        final(state).subscriptions() == old(state).subscriptions(),
        final(state).qos2_incoming() == old(state).qos2_incoming(),
        final(state).pending_commands() == old(state).pending_commands(),
{
    let ghost e0 = state.inflight().entries();
    let mut actions: Vec<Action> = Vec::new();
    let mut i: usize = 0;
    assert(touched(e0, ids@.take(0).to_set(), now) =~= e0);
    assert(actions_view(actions@) =~= resends(e0, ids@.take(0)));
    while i < ids.len()
        invariant
            i <= ids@.len(),
            state.wf(),
            state.inflight().entries() == touched(e0, ids@.take(i as int).to_set(), now),
            actions_view(actions@) == resends(e0, ids@.take(i as int)),
            state.inflight().queue() == old(state).inflight().queue(),
            state.inflight().capacity() == old(state).inflight().capacity(),
            state.next_packet_id() == old(state).next_packet_id(),
            state.subscriptions() == old(state).subscriptions(),
            state.qos2_incoming() == old(state).qos2_incoming(),
            state.pending_commands() == old(state).pending_commands(),
        decreases ids@.len() - i,
    {
        let id = ids[i];
        let ghost before = state.inflight().entries();
        proof {
            assert(!ids@.take(i as int).to_set().contains(id)) by {
                if ids@.take(i as int).contains(id) {
                    let j = choose|j: int| 0 <= j < i && #[trigger] ids@.take(i as int)[j] == id;
                    assert(ids@[j] == ids@[i as int]);
                }
            }
            assert(e0.contains_key(id));
            assert(before[id] == e0[id]);
        }
        let a = match state.inflight.get(id) {
            Some(entry) => {
                let stage = entry.stage;
                let action = match stage {
                    InflightStage::Comp => Action::Send(
                        Packet::PubRel(crate::v4::packet::PubRelPacket { packet_id: id }),
                    ),
                    _ => {
                        let q = if entry.qos == 1 {
                            QoS::AtLeastOnce
                        } else {
                            QoS::ExactlyOnce
                        };
                        Action::Send(
                            Packet::Publish(
                                PublishPacket {
                                    topic_name: entry.topic.clone(),
                                    packet_id: Some(id),
                                    payload: entry.payload.clone(),
                                    qos: q,
                                    duplicate: true,
                                    retain: entry.retain,
                                },
                            ),
                        )
                    },
                };
                state.inflight.update(id, stage, now);
                action
            },
            None => {
                assert(false);
                Action::Emit(Event::PubAck { packet_id: id })
            },
        };
        let ghost old_actions = actions_view(actions@);
        actions.push(a);
        proof {
            assert(ids@.take(i + 1) =~= ids@.take(i as int).push(id));
            assert(actions_view(actions@) =~= old_actions.push(a@));
            assert(resends(e0, ids@.take(i + 1)) =~= resends(e0, ids@.take(i as int)).push(resend_view(id, e0[id])));
            assert(ids@.take(i + 1).to_set() =~= ids@.take(i as int).to_set().insert(id)) by {
                assert forall|x: u16| #[trigger] ids@.take(i + 1).to_set().contains(x) == ids@.take(i as int).to_set().insert(id).contains(x) by {
                    if ids@.take(i + 1).contains(x) && x != id {
                        let j = choose|j: int| 0 <= j < i + 1 && #[trigger] ids@.take(i + 1)[j] == x;
                        assert(ids@.take(i as int)[j] == x);
                    }
                    if ids@.take(i as int).contains(x) {
                        let j = choose|j: int| 0 <= j < i && #[trigger] ids@.take(i as int)[j] == x;
                        assert(ids@.take(i + 1)[j] == x);
                    }
                    if x == id {
                        assert(ids@.take(i + 1)[i as int] == x);
                    }
                }
            }
            assert(state.inflight().entries() =~= touched(e0, ids@.take(i + 1).to_set(), now));
            assert forall|k: u16| #[trigger] state.inflight().entries().contains_key(k) implies 1
                <= state.inflight().entries()[k].qos <= 2 by {
                assert(e0.contains_key(k));
            }
        }
        i += 1;
    }
    assert(ids@.take(i as int) =~= ids@);
    actions
}

/// The messages in flight that are due for a retry at `now` after `timeout`.
pub open spec fn due_ids(entries: Map<u16, InflightPublishView>, now: u64, timeout: u64) -> Set<u16> {
    Set::new(|id: u16| entries.contains_key(id) && super::inflight::is_due(entries[id].sent_at, now, timeout))
}

/// On the retry timer: sends again every message in flight whose last send
/// is at least `timeout` ago, each once, in some order, and stamps them sent
/// at `now`.
pub fn retry_due(state: &mut SessionState, now: u64, timeout: u64) -> (actions: Vec<Action>)
    requires
        old(state).wf(),
    ensures
        final(state).wf(),
        exists|ids: Seq<u16>|
            #![trigger resends(old(state).inflight().entries(), ids)]
            ids.no_duplicates() && ids.to_set() == due_ids(old(state).inflight().entries(), now, timeout)
                && actions_view(actions@) == resends(old(state).inflight().entries(), ids),
        final(state).inflight().entries() == touched(
            old(state).inflight().entries(),
            due_ids(old(state).inflight().entries(), now, timeout),
            now,
        ),
        final(state).inflight().queue() == old(state).inflight().queue(),
        final(state).inflight().capacity() == old(state).inflight().capacity(),
        final(state).next_packet_id() == old(state).next_packet_id(),
        final(state).subscriptions() == old(state).subscriptions(),
        final(state).qos2_incoming() == old(state).qos2_incoming(),
        final(state).pending_commands() == old(state).pending_commands(),
{
    let ids = state.inflight.due_for_retry(now, timeout);
    proof {
        let d = due_ids(state.inflight().entries(), now, timeout);
        assert forall|x: u16| #[trigger] ids@.to_set().contains(x) == d.contains(x) by {
            assert(ids@.to_set().contains(x) == ids@.contains(x));
        }
        assert(ids@.to_set() =~= d);
        assert forall|i: int| 0 <= i < ids@.len() implies state.inflight().entries().contains_key(
            #[trigger] ids@[i],
        ) by {
            assert(ids@.contains(ids@[i]));
        }
    }
    let actions = resend(state, &ids, now);
    proof {
        assert(resends(old(state).inflight().entries(), ids@) == actions_view(actions@));
    }
    actions
}

/// After a reconnect: sends again every message in flight, each once, in
/// some order, and stamps them sent at `now`.
pub fn retransmit_inflight(state: &mut SessionState, now: u64) -> (actions: Vec<Action>)
    requires
        old(state).wf(),
    ensures
        final(state).wf(),
        exists|ids: Seq<u16>|
            #![trigger resends(old(state).inflight().entries(), ids)]
            ids.no_duplicates() && ids.to_set() == old(state).inflight().entries().dom()
                && actions_view(actions@) == resends(old(state).inflight().entries(), ids),
        final(state).inflight().entries() == touched(
            old(state).inflight().entries(),
            old(state).inflight().entries().dom(),
            now,
        ),
        final(state).inflight().queue() == old(state).inflight().queue(),
        final(state).inflight().capacity() == old(state).inflight().capacity(),
        final(state).next_packet_id() == old(state).next_packet_id(),
        final(state).subscriptions() == old(state).subscriptions(),
        final(state).qos2_incoming() == old(state).qos2_incoming(),
        final(state).pending_commands() == old(state).pending_commands(),
{
    let snap = state.inflight.snapshot();
    let mut ids: Vec<u16> = Vec::new();
    let mut i: usize = 0;
    while i < snap.len()
        invariant
            i <= snap@.len(),
            ids@ == snap@.take(i as int).map_values(|p: (u16, InflightPublish)| p.0),
        decreases snap@.len() - i,
    {
        ids.push(snap[i].0);
        i += 1;
        assert(ids@ =~= snap@.take(i as int).map_values(|p: (u16, InflightPublish)| p.0));
    }
    proof {
        assert(snap@.take(i as int) =~= snap@);
        let e = state.inflight().entries();
        assert(ids@.to_set() =~= e.dom()) by {
            assert forall|x: u16| #[trigger] ids@.to_set().contains(x) == e.dom().contains(x) by {
                if ids@.contains(x) {
                    let j = choose|j: int| 0 <= j < ids@.len() && #[trigger] ids@[j] == x;
                    assert(snap@[j].0 == x);
                }
                if e.contains_key(x) {
                    let j = choose|j: int| 0 <= j < snap@.len() && #[trigger] snap@[j].0 == x;
                    assert(ids@[j] == x);
                }
            }
        }
        assert forall|a: int, b: int| 0 <= a < ids@.len() && 0 <= b < ids@.len() && a != b implies ids@[a] != ids@[b] by {
            if a < b {
                assert(snap@[a].0 != snap@[b].0);
            } else {
                assert(snap@[b].0 != snap@[a].0);
            }
        }
        assert forall|j: int| 0 <= j < ids@.len() implies e.contains_key(#[trigger] ids@[j]) by {
            assert(ids@[j] == snap@[j].0);
        }
    }
    let actions = resend(state, &ids, now);
    proof {
        assert(resends(old(state).inflight().entries(), ids@) == actions_view(actions@));
    }
    actions
}

/// The outcome of the handshake on the broker's first packet: a CONNACK
/// that accepts gives whether the broker kept a session; a CONNACK that
/// refuses gives the refusal; any other packet is unexpected.
pub fn connack_outcome(packet: &Packet) -> (res: Result<bool, ClientError>)
    ensures
        match packet@ {
            PacketView::ConnAck(ack) => if ack.return_code
                == crate::v4::return_codes::ConnectReturnCode::Accepted {
                res == Ok::<bool, ClientError>(ack.session_present)
            } else {
                res matches Err(ClientError::ConnectionRefused { reason })
                    && reason@ == crate::v4::return_codes::connect_return_code_text(ack.return_code)
            },
            _ => res matches Err(ClientError::UnexpectedPacket(m)) && m@ == "expected CONNACK, got "@
                + debug_name(packet_view_type(packet@)),
        },
{
    match packet {
        Packet::ConnAck(ack) => {
            if ack.return_code.is_success() {
                Ok(ack.session_present)
            } else {
                Err(
                    ClientError::ConnectionRefused {
                        reason: ack.return_code.description().to_owned(),
                    },
                )
            }
        },
        _ => Err(
            ClientError::UnexpectedPacket(join("expected CONNACK, got ", packet_type_text(packet.packet_type()))),
        ),
    }
}

/// Whether the subscriptions are sent again after the handshake: with a
/// clean session, or when the broker kept no session.
pub fn should_resubscribe(clean_session: bool, session_present: bool) -> (r: bool)
    ensures
        r == (clean_session || !session_present),
{
    clean_session || !session_present
}

/// The CONNECT packet for a configuration and client identifier.
pub open spec fn connect_view(config: super::config::ClientConfig, client_id: Seq<char>) -> crate::v4::packet::ConnectPacketView {
    crate::v4::packet::ConnectPacketView {
        protocol_name: "MQTT"@,
        protocol_level: 4,
        clean_session: config.clean_session,
        will_flag: config.last_will is Some,
        will_qos: match config.last_will {
            Some(w) => qos_of(w.qos),
            None => QoS::AtMostOnce,
        },
        will_retain: match config.last_will {
            Some(w) => w.retain,
            None => false,
        },
        password_flag: match config.credentials {
            Some(c) => c.password is Some,
            None => false,
        },
        username_flag: config.credentials is Some,
        keep_alive: config.keep_alive,
        client_id,
        will_topic: match config.last_will {
            Some(w) => Some(w.topic@),
            None => None,
        },
        will_message: match config.last_will {
            Some(w) => Some(w.message@),
            None => None,
        },
        username: match config.credentials {
            Some(c) => Some(c.username@),
            None => None,
        },
        password: match config.credentials {
            Some(c) => match c.password {
                Some(p) => Some(p@),
                None => None,
            },
            None => None,
        },
    }
}

/// Builds the CONNECT packet for a configuration: protocol "MQTT" level 4,
/// the configured keep alive and clean session flag, the credentials and
/// the last will when configured. A last will with a QoS above 2 is refused.
pub fn build_connect(config: &super::config::ClientConfig, client_id: String) -> (res: Result<
    crate::v4::packet::ConnectPacket,
    ClientError,
>)
    ensures
        match config.last_will {
            Some(w) if w.qos > 2 => res matches Err(ClientError::InvalidQoS(v)) && v == w.qos,
            _ => res matches Ok(p) && p@ == connect_view(*config, client_id@),
        },
{
    let (username, password) = match &config.credentials {
        Some(c) => (Some(c.username.clone()), match &c.password {
            Some(p) => Some(p.clone()),
            None => None,
        }),
        None => (None, None),
    };
    let (will_flag, will_qos, will_retain, will_topic, will_message) = match &config.last_will {
        Some(w) => {
            let q = parse_qos(w.qos)?;
            (true, q, w.retain, Some(w.topic.clone()), Some(w.message.clone()))
        },
        None => (false, QoS::AtMostOnce, false, None, None),
    };
    let password_flag = password.is_some();
    let username_flag = username.is_some();
    let packet = crate::v4::packet::ConnectPacket {
        protocol_name: "MQTT".to_owned(),
        protocol_level: 4,
        clean_session: config.clean_session,
        will_flag,
        will_qos,
        will_retain,
        password_flag,
        username_flag,
        keep_alive: config.keep_alive,
        client_id,
        will_topic,
        will_message,
        username,
        password,
    };
    Ok(packet)
}

/// The actions of a command's result.
pub open spec fn command_result(res: Result<(Vec<Action>, bool), ClientError>) -> Result<
    Seq<ActionView>,
    ClientError,
> {
    match res {
        Ok((a, _)) => Ok(actions_view(a@)),
        Err(e) => Err(e),
    }
}

/// Whether a command's result ends the session.
pub open spec fn ends(res: Result<(Vec<Action>, bool), ClientError>) -> bool {
    res matches Ok((_, done)) && done
}

/// Handles a command from the client handle. Returns the actions and
/// whether the session ends: DISCONNECT is sent and the session ends on a
/// disconnect command; the other commands are handled by [`publish`],
/// [`subscribe`] and [`unsubscribe`].
pub fn handle_command(state: &mut SessionState, cmd: super::state::Command, now: u64) -> (res: Result<
    (Vec<Action>, bool),
    ClientError,
>)
    requires
        old(state).wf(),
    ensures
        final(state).wf(),
        match cmd {
            super::state::Command::Publish { topic, payload, qos, retain } => publish_outcome(
                *old(state),
                *final(state),
                topic@,
                payload@,
                qos,
                retain,
                now,
                command_result(res),
            ) && !ends(res),
            super::state::Command::Subscribe { topics } => subscribe_outcome(
                *old(state),
                *final(state),
                topics@,
                command_result(res),
            ) && !ends(res),
            super::state::Command::Unsubscribe { topics } => (res matches Ok((a, done))
                && !done && unsubscribe_outcome(*old(state), *final(state), topics@, actions_view(a@))),
            super::state::Command::Disconnect => (res matches Ok((a, done)) && done
                && actions_view(a@) == seq![ActionView::Send(PacketView::Disconnect)])
                && *final(state) == *old(state),
        },
{
    match cmd {
        super::state::Command::Publish { topic, payload, qos, retain } => {
            let a = publish(state, topic, payload, qos, retain, now)?;
            Ok((a, false))
        },
        super::state::Command::Subscribe { topics } => {
            let a = subscribe(state, topics)?;
            Ok((a, false))
        },
        super::state::Command::Unsubscribe { topics } => {
            let a = unsubscribe(state, topics);
            Ok((a, false))
        },
        super::state::Command::Disconnect => {
            let mut a: Vec<Action> = Vec::new();
            a.push(Action::Send(Packet::Disconnect(crate::v4::packet::DisconnectPacket)));
            assert(actions_view(a@) =~= seq![ActionView::Send(PacketView::Disconnect)]);
            Ok((a, true))
        },
    }
}

/// An incoming QoS 2 message is delivered exactly once: its PUBLISH is
/// answered with PUBREC and delivers nothing, the first PUBREL for its
/// identifier is answered with PUBCOMP and delivers the message, and a
/// repeated PUBREL is answered with PUBCOMP and delivers nothing.
pub proof fn lemma_qos2_delivered_once(
    s0: SessionState,
    s1: SessionState,
    s2: SessionState,
    s3: SessionState,
    x: PublishPacketView,
    now: u64,
    a1: Seq<ActionView>,
    a2: Seq<ActionView>,
    a3: Seq<ActionView>,
)
    requires
        x.qos == QoS::ExactlyOnce,
        x.packet_id is Some,
        handled(s0, s1, PacketView::Publish(x), now, a1),
        handled(
            s1,
            s2,
            PacketView::PubRel(crate::v4::packet::PubRelPacket { packet_id: x.packet_id->Some_0 }),
            now,
            a2,
        ),
        handled(
            s2,
            s3,
            PacketView::PubRel(crate::v4::packet::PubRelPacket { packet_id: x.packet_id->Some_0 }),
            now,
            a3,
        ),
    ensures
        a1 == seq![
            ActionView::Send(
                PacketView::PubRec(crate::v4::packet::PubRecPacket { packet_id: x.packet_id->Some_0 }),
            ),
        ],
        a2 == seq![
            ActionView::Send(
                PacketView::PubComp(crate::v4::packet::PubCompPacket { packet_id: x.packet_id->Some_0 }),
            ),
            message_action(x.topic_name, x.payload, 2, x.retain),
        ],
        a3 == seq![
            ActionView::Send(
                PacketView::PubComp(crate::v4::packet::PubCompPacket { packet_id: x.packet_id->Some_0 }),
            ),
        ],
        !s3.qos2_incoming().contains_key(x.packet_id->Some_0),
{
    let id = x.packet_id->Some_0;
    assert(s1.qos2_incoming().contains_key(id));
    assert(!s2.qos2_incoming().contains_key(id));
    assert(a2 =~= seq![
        ActionView::Send(PacketView::PubComp(crate::v4::packet::PubCompPacket { packet_id: id })),
        message_action(x.topic_name, x.payload, 2, x.retain),
    ]);
    assert(a3 =~= seq![
        ActionView::Send(PacketView::PubComp(crate::v4::packet::PubCompPacket { packet_id: id })),
    ]);
}

/// A QoS 1 message published while the window has a free slot is sent
/// with the next identifier, and the broker's PUBACK for that identifier
/// is reported to the user.
pub proof fn lemma_qos1_publish_acknowledged(
    s0: SessionState,
    s1: SessionState,
    s2: SessionState,
    topic: Seq<char>,
    payload: Seq<u8>,
    retain: bool,
    sent_at: u64,
    acked_at: u64,
    res: Result<Seq<ActionView>, ClientError>,
    actions: Seq<ActionView>,
)
    requires
        s0.inflight().spec_has_capacity(),
        publish_outcome(s0, s1, topic, payload, 1, retain, sent_at, res),
        handled(
            s1,
            s2,
            PacketView::PubAck(crate::v4::packet::PubAckPacket { packet_id: s0.next_packet_id() }),
            acked_at,
            actions,
        ),
    ensures
        res == Ok::<Seq<ActionView>, ClientError>(
            seq![
                ActionView::Send(
                    publish_view(topic, payload, QoS::AtLeastOnce, retain, Some(s0.next_packet_id()), false),
                ),
            ],
        ),
        actions.len() >= 1,
        actions[0] == ActionView::Emit(EventView::PubAck { packet_id: s0.next_packet_id() }),
{
    let id = s0.next_packet_id();
    assert(s1.inflight().entries().contains_key(id));
}

/// Sending queued publishes stops only when the window is full or the
/// queue is empty, and never overfills the window.
pub proof fn lemma_flush_fills_window(
    next: u16,
    entries: Map<u16, InflightPublishView>,
    queue: Seq<PendingPublishView>,
    cap: nat,
    now: u64,
)
    requires
        entries.dom().finite(),
        entries.len() <= cap,
    ensures
        ({
            let f = flush_spec(next, entries, queue, cap, now);
            &&& f.entries.dom().finite()
            &&& f.entries.len() <= cap
            &&& !(f.entries.len() < cap && f.queue.len() > 0)
        }),
    decreases queue.len(),
{
    if entries.len() < cap && queue.len() > 0 {
        let p = queue[0];
        let e1 = entries.insert(next, new_entry(p.topic, p.payload, p.qos, p.retain, now));
        assert(e1.dom() =~= entries.dom().insert(next));
        vstd::set::axiom_set_insert_len(entries.dom(), next);
        lemma_flush_fills_window(next_id(next), e1, queue.drop_first(), cap, now);
    }
}

} // verus!
