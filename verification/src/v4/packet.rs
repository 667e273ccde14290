//! MQTT v3.1.1 packet types and structures, with their mathematical views.

use vstd::prelude::*;

use super::return_codes::{ConnectReturnCode, SubAckReturnCode};

verus! {

/// MQTT control packet types (MQTT v3.1.1).
#[derive(Debug, Clone, Copy, PartialEq, Eq, Structural)]
pub enum PacketType {
    /// Connection request (client to server).
    Connect,
    /// Connection acknowledgment (server to client).
    ConnAck,
    /// Publish message.
    Publish,
    /// Publish acknowledgment (QoS 1).
    PubAck,
    /// Publish received (QoS 2).
    PubRec,
    /// Publish release (QoS 2).
    PubRel,
    /// Publish complete (QoS 2).
    PubComp,
    /// Subscribe request.
    Subscribe,
    /// Subscribe acknowledgment.
    SubAck,
    /// Unsubscribe request.
    Unsubscribe,
    /// Unsubscribe acknowledgment.
    UnsubAck,
    /// PING request.
    PingReq,
    /// PING response.
    PingResp,
    /// Disconnect notification.
    Disconnect,
}

/// The numeric value (upper nibble of the first byte) of a packet type.
pub open spec fn packet_type_value(t: PacketType) -> u8 {
    match t {
        PacketType::Connect => 1,
        PacketType::ConnAck => 2,
        PacketType::Publish => 3,
        PacketType::PubAck => 4,
        PacketType::PubRec => 5,
        PacketType::PubRel => 6,
        PacketType::PubComp => 7,
        PacketType::Subscribe => 8,
        PacketType::SubAck => 9,
        PacketType::Unsubscribe => 10,
        PacketType::UnsubAck => 11,
        PacketType::PingReq => 12,
        PacketType::PingResp => 13,
        PacketType::Disconnect => 14,
    }
}

impl PacketType {
    /// Returns the packet type with numeric value `value`, or `None` if there is none.
    pub fn from_u8(value: u8) -> (res: Option<PacketType>)
        ensures
            res matches Some(t) ==> packet_type_value(t) == value,
            res is Some <==> 1 <= value <= 14,
    {
        match value {
            1 => Some(PacketType::Connect),
            2 => Some(PacketType::ConnAck),
            3 => Some(PacketType::Publish),
            4 => Some(PacketType::PubAck),
            5 => Some(PacketType::PubRec),
            6 => Some(PacketType::PubRel),
            7 => Some(PacketType::PubComp),
            8 => Some(PacketType::Subscribe),
            9 => Some(PacketType::SubAck),
            10 => Some(PacketType::Unsubscribe),
            11 => Some(PacketType::UnsubAck),
            12 => Some(PacketType::PingReq),
            13 => Some(PacketType::PingResp),
            14 => Some(PacketType::Disconnect),
            _ => None,
        }
    }

    /// The numeric value of this packet type.
    pub fn as_u8(&self) -> (v: u8)
        ensures
            v == packet_type_value(*self),
    {
        match self {
            PacketType::Connect => 1,
            PacketType::ConnAck => 2,
            PacketType::Publish => 3,
            PacketType::PubAck => 4,
            PacketType::PubRec => 5,
            PacketType::PubRel => 6,
            PacketType::PubComp => 7,
            PacketType::Subscribe => 8,
            PacketType::SubAck => 9,
            PacketType::Unsubscribe => 10,
            PacketType::UnsubAck => 11,
            PacketType::PingReq => 12,
            PacketType::PingResp => 13,
            PacketType::Disconnect => 14,
        }
    }
}

/// Quality of Service levels for MQTT messages.
#[derive(Debug, Clone, Copy, PartialEq, Eq, Structural, PartialOrd, Ord)]
pub enum QoS {
    /// At most once delivery (0).
    AtMostOnce,
    /// At least once delivery (1).
    AtLeastOnce,
    /// Exactly once delivery (2).
    ExactlyOnce,
}

/// The numeric value of a QoS level.
pub open spec fn qos_value(q: QoS) -> u8 {
    match q {
        QoS::AtMostOnce => 0,
        QoS::AtLeastOnce => 1,
        QoS::ExactlyOnce => 2,
    }
}

/// The QoS level with numeric value `value`, if there is one.
pub open spec fn qos_from_value(value: u8) -> Option<QoS> {
    if value == 0 {
        Some(QoS::AtMostOnce)
    } else if value == 1 {
        Some(QoS::AtLeastOnce)
    } else if value == 2 {
        Some(QoS::ExactlyOnce)
    } else {
        None
    }
}

impl QoS {
    /// Converts a numeric value into a QoS level.
    pub fn try_from(value: u8) -> (res: Result<QoS, &'static str>)
        ensures
            match qos_from_value(value) {
                Some(q) => res matches Ok(r) && r == q,
                None => res matches Err(m) && m@ == "Invalid QoS value: must be 0, 1, or 2"@,
            },
    {
        match value {
            0 => Ok(QoS::AtMostOnce),
            1 => Ok(QoS::AtLeastOnce),
            2 => Ok(QoS::ExactlyOnce),
            _ => Err("Invalid QoS value: must be 0, 1, or 2"),
        }
    }

    /// The numeric value of this QoS level.
    pub fn as_u8(&self) -> (v: u8)
        ensures
            v == qos_value(*self),
    {
        match self {
            QoS::AtMostOnce => 0,
            QoS::AtLeastOnce => 1,
            QoS::ExactlyOnce => 2,
        }
    }
}

impl Default for QoS {
    fn default() -> (q: QoS)
        ensures
            q == QoS::ExactlyOnce,
    {
        QoS::ExactlyOnce
    }
}

impl From<QoS> for u8 {
    fn from(q: QoS) -> (v: u8) {
        q.as_u8()
    }
}

impl vstd::std_specs::convert::FromSpecImpl<QoS> for u8 {
    open spec fn obeys_from_spec() -> bool {
        true
    }

    open spec fn from_spec(q: QoS) -> u8 {
        qos_value(q)
    }
}

/// The view of an optional string.
pub open spec fn opt_str_view(o: Option<String>) -> Option<Seq<char>> {
    match o {
        Some(s) => Some(s@),
        None => None,
    }
}

/// The view of an optional byte vector.
pub open spec fn opt_bytes_view(o: Option<Vec<u8>>) -> Option<Seq<u8>> {
    match o {
        Some(b) => Some(b@),
        None => None,
    }
}

/// MQTT CONNECT packet.
#[derive(Debug, Clone)]
pub struct ConnectPacket {
    /// Protocol name (must be "MQTT" for MQTT v3.1.1).
    pub protocol_name: String,
    /// Protocol version level (must be 4 for MQTT v3.1.1).
    pub protocol_level: u8,
    /// Clean session flag.
    pub clean_session: bool,
    /// Will message flag.
    pub will_flag: bool,
    /// Will message QoS level.
    pub will_qos: QoS,
    /// Will message retain flag.
    pub will_retain: bool,
    /// Password flag.
    pub password_flag: bool,
    /// Username flag.
    pub username_flag: bool,
    /// Keep alive timeout in seconds.
    pub keep_alive: u16,
    /// Client identifier.
    pub client_id: String,
    /// Topic for the will message.
    pub will_topic: Option<String>,
    /// Will message payload.
    pub will_message: Option<Vec<u8>>,
    /// Username for authentication.
    pub username: Option<String>,
    /// Password for authentication.
    pub password: Option<Vec<u8>>,
}

/// The mathematical view of a CONNECT packet.
pub struct ConnectPacketView {
    pub protocol_name: Seq<char>,
    pub protocol_level: u8,
    pub clean_session: bool,
    pub will_flag: bool,
    pub will_qos: QoS,
    pub will_retain: bool,
    pub password_flag: bool,
    pub username_flag: bool,
    pub keep_alive: u16,
    pub client_id: Seq<char>,
    pub will_topic: Option<Seq<char>>,
    pub will_message: Option<Seq<u8>>,
    pub username: Option<Seq<char>>,
    pub password: Option<Seq<u8>>,
}

impl View for ConnectPacket {
    type V = ConnectPacketView;

    open spec fn view(&self) -> ConnectPacketView {
        ConnectPacketView {
            protocol_name: self.protocol_name@,
            protocol_level: self.protocol_level,
            clean_session: self.clean_session,
            will_flag: self.will_flag,
            will_qos: self.will_qos,
            will_retain: self.will_retain,
            password_flag: self.password_flag,
            username_flag: self.username_flag,
            keep_alive: self.keep_alive,
            client_id: self.client_id@,
            will_topic: opt_str_view(self.will_topic),
            will_message: opt_bytes_view(self.will_message),
            username: opt_str_view(self.username),
            password: opt_bytes_view(self.password),
        }
    }
}

impl Default for ConnectPacket {
    fn default() -> (p: ConnectPacket)
        ensures
            p@.protocol_name == "MQTT"@,
            p@.protocol_level == 4,
            p@.clean_session,
            !p@.will_flag,
            p@.will_qos == QoS::AtMostOnce,
            !p@.will_retain,
            !p@.password_flag,
            !p@.username_flag,
            p@.keep_alive == 60,
            p@.client_id.len() == 0,
            p@.will_topic is None,
            p@.will_message is None,
            p@.username is None,
            p@.password is None,
    {
        ConnectPacket {
            protocol_name: "MQTT".to_owned(),
            protocol_level: 4,
            clean_session: true,
            will_flag: false,
            will_qos: QoS::AtMostOnce,
            will_retain: false,
            password_flag: false,
            username_flag: false,
            keep_alive: 60,
            client_id: String::new(),
            will_topic: None,
            will_message: None,
            username: None,
            password: None,
        }
    }
}

/// MQTT CONNACK packet.
#[derive(Debug, Clone, Copy, PartialEq, Eq, Structural)]
pub struct ConnAckPacket {
    /// Session present flag.
    pub session_present: bool,
    /// Connection return code.
    pub return_code: ConnectReturnCode,
}

impl ConnAckPacket {
    /// Creates a new CONNACK packet with the given return code.
    pub fn new(return_code: ConnectReturnCode, session_present: bool) -> (p: ConnAckPacket)
        ensures
            p == (ConnAckPacket { session_present, return_code }),
    {
        ConnAckPacket { session_present, return_code }
    }

    /// Creates a successful CONNACK packet.
    pub fn accepted(session_present: bool) -> (p: ConnAckPacket)
        ensures
            p == (ConnAckPacket { session_present, return_code: ConnectReturnCode::Accepted }),
    {
        Self::new(ConnectReturnCode::Accepted, session_present)
    }
}

/// MQTT PUBLISH packet.
#[derive(Debug, Clone)]
pub struct PublishPacket {
    /// Topic name the message is published to.
    pub topic_name: String,
    /// Packet ID (present for QoS > 0).
    pub packet_id: Option<u16>,
    /// Message payload.
    pub payload: Vec<u8>,
    /// Quality of Service level.
    pub qos: QoS,
    /// Duplicate delivery flag.
    pub duplicate: bool,
    /// Message retention flag.
    pub retain: bool,
}

/// The mathematical view of a PUBLISH packet.
pub struct PublishPacketView {
    pub topic_name: Seq<char>,
    pub packet_id: Option<u16>,
    pub payload: Seq<u8>,
    pub qos: QoS,
    pub duplicate: bool,
    pub retain: bool,
}

impl View for PublishPacket {
    type V = PublishPacketView;

    open spec fn view(&self) -> PublishPacketView {
        PublishPacketView {
            topic_name: self.topic_name@,
            packet_id: self.packet_id,
            payload: self.payload@,
            qos: self.qos,
            duplicate: self.duplicate,
            retain: self.retain,
        }
    }
}

impl PublishPacket {
    /// Creates a new PUBLISH packet with QoS 0.
    pub fn new(topic_name: &str, payload: Vec<u8>) -> (p: PublishPacket)
        ensures
            p@ == (PublishPacketView {
                topic_name: topic_name@,
                packet_id: None,
                payload: payload@,
                qos: QoS::AtMostOnce,
                duplicate: false,
                retain: false,
            }),
    {
        PublishPacket {
            topic_name: topic_name.to_owned(),
            packet_id: None,
            payload,
            qos: QoS::AtMostOnce,
            duplicate: false,
            retain: false,
        }
    }
}

/// MQTT PUBACK packet.
#[derive(Debug, Clone, Copy, PartialEq, Eq, Structural)]
pub struct PubAckPacket {
    /// Packet identifier of the PUBLISH packet being acknowledged.
    pub packet_id: u16,
}

/// MQTT PUBREC packet.
#[derive(Debug, Clone, Copy, PartialEq, Eq, Structural)]
pub struct PubRecPacket {
    /// Packet identifier of the PUBLISH packet.
    pub packet_id: u16,
}

/// MQTT PUBREL packet.
#[derive(Debug, Clone, Copy, PartialEq, Eq, Structural)]
pub struct PubRelPacket {
    /// Packet identifier of the PUBLISH packet.
    pub packet_id: u16,
}

/// MQTT PUBCOMP packet.
#[derive(Debug, Clone, Copy, PartialEq, Eq, Structural)]
pub struct PubCompPacket {
    /// Packet identifier of the PUBLISH packet.
    pub packet_id: u16,
}

/// MQTT SUBSCRIBE packet.
#[derive(Debug, Clone)]
pub struct SubscribePacket {
    /// Packet identifier of this subscription request.
    pub packet_id: u16,
    /// Topic filters with their requested QoS levels.
    pub topics: Vec<(String, QoS)>,
}

/// The mathematical view of a SUBSCRIBE packet.
pub struct SubscribePacketView {
    pub packet_id: u16,
    pub topics: Seq<(Seq<char>, QoS)>,
}

/// The view of a list of (topic filter, QoS) pairs.
pub open spec fn topic_qos_view(topics: Seq<(String, QoS)>) -> Seq<(Seq<char>, QoS)> {
    topics.map_values(|t: (String, QoS)| (t.0@, t.1))
}

/// The view of a list of strings.
pub open spec fn strings_view(topics: Seq<String>) -> Seq<Seq<char>> {
    topics.map_values(|t: String| t@)
}

impl View for SubscribePacket {
    type V = SubscribePacketView;

    open spec fn view(&self) -> SubscribePacketView {
        SubscribePacketView { packet_id: self.packet_id, topics: topic_qos_view(self.topics@) }
    }
}

impl SubscribePacket {
    /// Creates a new SUBSCRIBE packet with a single topic filter.
    pub fn new(packet_id: u16, topic_filter: &str, qos: QoS) -> (p: SubscribePacket)
        ensures
            p@.packet_id == packet_id,
            p@.topics == seq![(topic_filter@, qos)],
    {
        let mut topics: Vec<(String, QoS)> = Vec::new();
        topics.push((topic_filter.to_owned(), qos));
        let p = SubscribePacket { packet_id, topics };
        assert(p@.topics =~= seq![(topic_filter@, qos)]);
        p
    }
}

/// MQTT SUBACK packet.
#[derive(Debug, Clone)]
pub struct SubAckPacket {
    /// Packet identifier of the SUBSCRIBE packet.
    pub packet_id: u16,
    /// One return code per topic filter in the SUBSCRIBE packet.
    pub return_codes: Vec<SubAckReturnCode>,
}

/// The mathematical view of a SUBACK packet.
pub struct SubAckPacketView {
    pub packet_id: u16,
    pub return_codes: Seq<SubAckReturnCode>,
}

impl View for SubAckPacket {
    type V = SubAckPacketView;

    open spec fn view(&self) -> SubAckPacketView {
        SubAckPacketView { packet_id: self.packet_id, return_codes: self.return_codes@ }
    }
}

impl SubAckPacket {
    /// Creates a new SUBACK packet.
    pub fn new(packet_id: u16, return_codes: Vec<SubAckReturnCode>) -> (p: SubAckPacket)
        ensures
            p@ == (SubAckPacketView { packet_id, return_codes: return_codes@ }),
    {
        SubAckPacket { packet_id, return_codes }
    }
}

/// MQTT UNSUBSCRIBE packet.
#[derive(Debug, Clone)]
pub struct UnsubscribePacket {
    /// Packet identifier of this unsubscription request.
    pub packet_id: u16,
    /// Topic filters to unsubscribe from.
    pub topics: Vec<String>,
}

/// The mathematical view of an UNSUBSCRIBE packet.
pub struct UnsubscribePacketView {
    pub packet_id: u16,
    pub topics: Seq<Seq<char>>,
}

impl View for UnsubscribePacket {
    type V = UnsubscribePacketView;

    open spec fn view(&self) -> UnsubscribePacketView {
        UnsubscribePacketView { packet_id: self.packet_id, topics: strings_view(self.topics@) }
    }
}

impl UnsubscribePacket {
    /// Creates a new UNSUBSCRIBE packet with a single topic filter.
    pub fn new(packet_id: u16, topic_filter: &str) -> (p: UnsubscribePacket)
        ensures
            p@.packet_id == packet_id,
            p@.topics == seq![topic_filter@],
    {
        let mut topics: Vec<String> = Vec::new();
        topics.push(topic_filter.to_owned());
        let p = UnsubscribePacket { packet_id, topics };
        assert(p@.topics =~= seq![topic_filter@]);
        p
    }
}

/// MQTT UNSUBACK packet.
#[derive(Debug, Clone, Copy, PartialEq, Eq, Structural)]
pub struct UnsubAckPacket {
    /// Packet identifier of the UNSUBSCRIBE packet.
    pub packet_id: u16,
}

/// MQTT PINGREQ packet.
#[derive(Debug, Clone, Copy, PartialEq, Eq, Structural)]
pub struct PingReqPacket;

/// MQTT PINGRESP packet.
#[derive(Debug, Clone, Copy, PartialEq, Eq, Structural)]
pub struct PingRespPacket;

/// MQTT DISCONNECT packet.
#[derive(Debug, Clone, Copy, PartialEq, Eq, Structural)]
pub struct DisconnectPacket;

impl Default for DisconnectPacket {
    fn default() -> (p: DisconnectPacket) {
        DisconnectPacket
    }
}

/// MQTT packet: one of all the packet types.
#[derive(Debug, Clone)]
pub enum Packet {
    Connect(ConnectPacket),
    ConnAck(ConnAckPacket),
    Publish(PublishPacket),
    PubAck(PubAckPacket),
    PubRec(PubRecPacket),
    PubRel(PubRelPacket),
    PubComp(PubCompPacket),
    Subscribe(SubscribePacket),
    SubAck(SubAckPacket),
    Unsubscribe(UnsubscribePacket),
    UnsubAck(UnsubAckPacket),
    PingReq(PingReqPacket),
    PingResp(PingRespPacket),
    Disconnect(DisconnectPacket),
}

/// The mathematical view of an MQTT v3.1.1 packet.
pub enum PacketView {
    Connect(ConnectPacketView),
    ConnAck(ConnAckPacket),
    Publish(PublishPacketView),
    PubAck(PubAckPacket),
    PubRec(PubRecPacket),
    PubRel(PubRelPacket),
    PubComp(PubCompPacket),
    Subscribe(SubscribePacketView),
    SubAck(SubAckPacketView),
    Unsubscribe(UnsubscribePacketView),
    UnsubAck(UnsubAckPacket),
    PingReq,
    PingResp,
    Disconnect,
}

impl View for Packet {
    type V = PacketView;

    open spec fn view(&self) -> PacketView {
        match self {
            Packet::Connect(p) => PacketView::Connect(p@),
            Packet::ConnAck(p) => PacketView::ConnAck(*p),
            Packet::Publish(p) => PacketView::Publish(p@),
            Packet::PubAck(p) => PacketView::PubAck(*p),
            Packet::PubRec(p) => PacketView::PubRec(*p),
            Packet::PubRel(p) => PacketView::PubRel(*p),
            Packet::PubComp(p) => PacketView::PubComp(*p),
            Packet::Subscribe(p) => PacketView::Subscribe(p@),
            Packet::SubAck(p) => PacketView::SubAck(p@),
            Packet::Unsubscribe(p) => PacketView::Unsubscribe(p@),
            Packet::UnsubAck(p) => PacketView::UnsubAck(*p),
            Packet::PingReq(_) => PacketView::PingReq,
            Packet::PingResp(_) => PacketView::PingResp,
            Packet::Disconnect(_) => PacketView::Disconnect,
        }
    }
}

/// The packet type of a packet view.
pub open spec fn packet_view_type(p: PacketView) -> PacketType {
    match p {
        PacketView::Connect(_) => PacketType::Connect,
        PacketView::ConnAck(_) => PacketType::ConnAck,
        PacketView::Publish(_) => PacketType::Publish,
        PacketView::PubAck(_) => PacketType::PubAck,
        PacketView::PubRec(_) => PacketType::PubRec,
        PacketView::PubRel(_) => PacketType::PubRel,
        PacketView::PubComp(_) => PacketType::PubComp,
        PacketView::Subscribe(_) => PacketType::Subscribe,
        PacketView::SubAck(_) => PacketType::SubAck,
        PacketView::Unsubscribe(_) => PacketType::Unsubscribe,
        PacketView::UnsubAck(_) => PacketType::UnsubAck,
        PacketView::PingReq => PacketType::PingReq,
        PacketView::PingResp => PacketType::PingResp,
        PacketView::Disconnect => PacketType::Disconnect,
    }
}

impl Packet {
    /// Returns the packet type of this packet.
    pub fn packet_type(&self) -> (t: PacketType)
        ensures
            t == packet_view_type(self@),
    {
        match self {
            Packet::Connect(_) => PacketType::Connect,
            Packet::ConnAck(_) => PacketType::ConnAck,
            Packet::Publish(_) => PacketType::Publish,
            Packet::PubAck(_) => PacketType::PubAck,
            Packet::PubRec(_) => PacketType::PubRec,
            Packet::PubRel(_) => PacketType::PubRel,
            Packet::PubComp(_) => PacketType::PubComp,
            Packet::Subscribe(_) => PacketType::Subscribe,
            Packet::SubAck(_) => PacketType::SubAck,
            Packet::Unsubscribe(_) => PacketType::Unsubscribe,
            Packet::UnsubAck(_) => PacketType::UnsubAck,
            Packet::PingReq(_) => PacketType::PingReq,
            Packet::PingResp(_) => PacketType::PingResp,
            Packet::Disconnect(_) => PacketType::Disconnect,
        }
    }
}

} // verus!
