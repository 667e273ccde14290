//! Events reported by the client to its user.

use vstd::prelude::*;

verus! {

/// An event of the client's connection or of its messages.
#[derive(Debug)]
pub enum Event {
    /// The broker accepted the connection.
    Connected { session_present: bool },
    /// A message arrived on a subscribed topic.
    Message { topic: String, payload: Vec<u8>, qos: u8, retain: bool },
    /// A QoS 1 publish was acknowledged.
    PubAck { packet_id: u16 },
    /// A QoS 2 publish completed.
    PubComp { packet_id: u16 },
    /// A subscription was answered, one return code per filter.
    SubAck { packet_id: u16, return_codes: Vec<u8> },
    /// An unsubscription was acknowledged.
    UnsubAck { packet_id: u16 },
    /// The client waits `delay_ms` before reconnect attempt `attempt`.
    Reconnecting { attempt: u32, delay_ms: u64 },
    /// The connection ended, with a reason when it was not asked for.
    Disconnected { reason: Option<String> },
}

/// The view of an event.
pub enum EventView {
    Connected { session_present: bool },
    Message { topic: Seq<char>, payload: Seq<u8>, qos: u8, retain: bool },
    PubAck { packet_id: u16 },
    PubComp { packet_id: u16 },
    SubAck { packet_id: u16, return_codes: Seq<u8> },
    UnsubAck { packet_id: u16 },
    Reconnecting { attempt: u32, delay_ms: u64 },
    Disconnected { reason: Option<Seq<char>> },
}

impl View for Event {
    type V = EventView;

    open spec fn view(&self) -> EventView {
        match self {
            Event::Connected { session_present } => EventView::Connected {
                session_present: *session_present,
            },
            Event::Message { topic, payload, qos, retain } => EventView::Message {
                topic: topic@,
                payload: payload@,
                qos: *qos,
                retain: *retain,
            },
            Event::PubAck { packet_id } => EventView::PubAck { packet_id: *packet_id },
            Event::PubComp { packet_id } => EventView::PubComp { packet_id: *packet_id },
            Event::SubAck { packet_id, return_codes } => EventView::SubAck {
                packet_id: *packet_id,
                return_codes: return_codes@,
            },
            Event::UnsubAck { packet_id } => EventView::UnsubAck { packet_id: *packet_id },
            Event::Reconnecting { attempt, delay_ms } => EventView::Reconnecting {
                attempt: *attempt,
                delay_ms: *delay_ms,
            },
            Event::Disconnected { reason } => EventView::Disconnected {
                reason: match reason {
                    Some(r) => Some(r@),
                    None => None,
                },
            },
        }
    }
}

} // verus!
