//! MQTT v5.0 packet types, reason codes and properties.

use vstd::prelude::*;

pub use crate::v4::packet::QoS;

verus! {

/// MQTT v5.0 control packet types.
#[derive(Debug, Clone, Copy, PartialEq, Eq, Structural)]
pub enum PacketType {
    Connect,
    ConnAck,
    Publish,
    PubAck,
    PubRec,
    PubRel,
    PubComp,
    Subscribe,
    SubAck,
    Unsubscribe,
    UnsubAck,
    PingReq,
    PingResp,
    Disconnect,
    Auth,
}

/// The name of a packet type, as `{:?}` prints it.
pub open spec fn packet_type_name(t: PacketType) -> Seq<char> {
    match t {
        PacketType::Connect => "Connect"@,
        PacketType::ConnAck => "ConnAck"@,
        PacketType::Publish => "Publish"@,
        PacketType::PubAck => "PubAck"@,
        PacketType::PubRec => "PubRec"@,
        PacketType::PubRel => "PubRel"@,
        PacketType::PubComp => "PubComp"@,
        PacketType::Subscribe => "Subscribe"@,
        PacketType::SubAck => "SubAck"@,
        PacketType::Unsubscribe => "Unsubscribe"@,
        PacketType::UnsubAck => "UnsubAck"@,
        PacketType::PingReq => "PingReq"@,
        PacketType::PingResp => "PingResp"@,
        PacketType::Disconnect => "Disconnect"@,
        PacketType::Auth => "Auth"@,
    }
}

/// The numeric value (upper nibble of the first byte) of a packet type.
pub open spec fn packet_type_value(t: PacketType) -> u8 {
    match t {
        PacketType::Connect => 1,
        PacketType::ConnAck => 2,
        PacketType::Publish => 3,
        PacketType::PubAck => 4,
        PacketType::PubRec => 5,
        PacketType::PubRel => 6,
        PacketType::PubComp => 7,
        PacketType::Subscribe => 8,
        PacketType::SubAck => 9,
        PacketType::Unsubscribe => 10,
        PacketType::UnsubAck => 11,
        PacketType::PingReq => 12,
        PacketType::PingResp => 13,
        PacketType::Disconnect => 14,
        PacketType::Auth => 15,
    }
}

impl PacketType {
    /// Returns the packet type with numeric value `value`, or `None` if there is none.
    pub fn from_u8(value: u8) -> (res: Option<PacketType>)
        ensures
            res matches Some(t) ==> packet_type_value(t) == value,
            res is Some <==> 1 <= value <= 15,
    {
        match value {
            1 => Some(PacketType::Connect),
            2 => Some(PacketType::ConnAck),
            3 => Some(PacketType::Publish),
            4 => Some(PacketType::PubAck),
            5 => Some(PacketType::PubRec),
            6 => Some(PacketType::PubRel),
            7 => Some(PacketType::PubComp),
            8 => Some(PacketType::Subscribe),
            9 => Some(PacketType::SubAck),
            10 => Some(PacketType::Unsubscribe),
            11 => Some(PacketType::UnsubAck),
            12 => Some(PacketType::PingReq),
            13 => Some(PacketType::PingResp),
            14 => Some(PacketType::Disconnect),
            15 => Some(PacketType::Auth),
            _ => None,
        }
    }

    /// The numeric value of this packet type.
    pub fn as_u8(&self) -> (v: u8)
        ensures
            v == packet_type_value(*self),
    {
        match self {
            PacketType::Connect => 1,
            PacketType::ConnAck => 2,
            PacketType::Publish => 3,
            PacketType::PubAck => 4,
            PacketType::PubRec => 5,
            PacketType::PubRel => 6,
            PacketType::PubComp => 7,
            PacketType::Subscribe => 8,
            PacketType::SubAck => 9,
            PacketType::Unsubscribe => 10,
            PacketType::UnsubAck => 11,
            PacketType::PingReq => 12,
            PacketType::PingResp => 13,
            PacketType::Disconnect => 14,
            PacketType::Auth => 15,
        }
    }

    /// The name of this packet type.
    pub fn name(&self) -> (s: &'static str)
        ensures
            s@ == packet_type_name(*self),
    {
        match self {
            PacketType::Connect => "Connect",
            PacketType::ConnAck => "ConnAck",
            PacketType::Publish => "Publish",
            PacketType::PubAck => "PubAck",
            PacketType::PubRec => "PubRec",
            PacketType::PubRel => "PubRel",
            PacketType::PubComp => "PubComp",
            PacketType::Subscribe => "Subscribe",
            PacketType::SubAck => "SubAck",
            PacketType::Unsubscribe => "Unsubscribe",
            PacketType::UnsubAck => "UnsubAck",
            PacketType::PingReq => "PingReq",
            PacketType::PingResp => "PingResp",
            PacketType::Disconnect => "Disconnect",
            PacketType::Auth => "Auth",
        }
    }
}

/// MQTT v5.0 reason codes (section 2.4).
#[derive(Debug, Clone, Copy, PartialEq, Eq, Structural)]
pub enum ReasonCode {
    /// 0x00 Success / Normal disconnection / Granted QoS 0.
    Success,
    /// 0x01 Granted QoS 1.
    GrantedQoS1,
    /// 0x02 Granted QoS 2.
    GrantedQoS2,
    /// 0x04 Disconnect with Will Message.
    DisconnectWithWillMessage,
    /// 0x10 No matching subscribers.
    NoMatchingSubscribers,
    /// 0x11 No subscription existed.
    NoSubscriptionExisted,
    /// 0x18 Continue authentication.
    ContinueAuthentication,
    /// 0x19 Re-authenticate.
    ReAuthenticate,
    /// 0x80 Unspecified error.
    UnspecifiedError,
    /// 0x81 Malformed Packet.
    MalformedPacket,
    /// 0x82 Protocol Error.
    ProtocolError,
    /// 0x83 Implementation specific error.
    ImplementationSpecificError,
    /// 0x84 Unsupported Protocol Version.
    UnsupportedProtocolVersion,
    /// 0x85 Client Identifier not valid.
    ClientIdentifierNotValid,
    /// 0x86 Bad User Name or Password.
    BadUserNameOrPassword,
    /// 0x87 Not authorized.
    NotAuthorized,
    /// 0x88 Server unavailable.
    ServerUnavailable,
    /// 0x89 Server busy.
    ServerBusy,
    /// 0x8A Banned.
    Banned,
    /// 0x8B Server shutting down.
    ServerShuttingDown,
    /// 0x8C Bad authentication method.
    BadAuthenticationMethod,
    /// 0x8D Keep Alive timeout.
    KeepAliveTimeout,
    /// 0x8E Session taken over.
    SessionTakenOver,
    /// 0x8F Topic Filter invalid.
    TopicFilterInvalid,
    /// 0x90 Topic Name invalid.
    TopicNameInvalid,
    /// 0x91 Packet Identifier in use.
    PacketIdentifierInUse,
    /// 0x92 Packet Identifier not found.
    PacketIdentifierNotFound,
    /// 0x93 Receive Maximum exceeded.
    ReceiveMaximumExceeded,
    /// 0x94 Topic Alias invalid.
    TopicAliasInvalid,
    /// 0x95 Packet too large.
    PacketTooLarge,
    /// 0x96 Message rate too high.
    MessageRateTooHigh,
    /// 0x97 Quota exceeded.
    QuotaExceeded,
    /// 0x98 Administrative action.
    AdministrativeAction,
    /// 0x99 Payload format invalid.
    PayloadFormatInvalid,
    /// 0x9A Retain not supported.
    RetainNotSupported,
    /// 0x9B QoS not supported.
    QoSNotSupported,
    /// 0x9C Use another server.
    UseAnotherServer,
    /// 0x9D Server moved.
    ServerMoved,
    /// 0x9E Shared Subscriptions not supported.
    SharedSubscriptionNotSupported,
    /// 0x9F Connection rate exceeded.
    ConnectionRateExceeded,
    /// 0xA0 Maximum connect time.
    MaximumConnectTime,
    /// 0xA1 Subscription Identifiers not supported.
    SubscriptionIdentifiersNotSupported,
    /// 0xA2 Wildcard Subscriptions not supported.
    WildcardSubscriptionsNotSupported,
}

/// The wire value of a reason code.
pub open spec fn reason_code_value(c: ReasonCode) -> u8 {
    match c {
        ReasonCode::Success => 0x00,
        ReasonCode::GrantedQoS1 => 0x01,
        ReasonCode::GrantedQoS2 => 0x02,
        ReasonCode::DisconnectWithWillMessage => 0x04,
        ReasonCode::NoMatchingSubscribers => 0x10,
        ReasonCode::NoSubscriptionExisted => 0x11,
        ReasonCode::ContinueAuthentication => 0x18,
        ReasonCode::ReAuthenticate => 0x19,
        ReasonCode::UnspecifiedError => 0x80,
        ReasonCode::MalformedPacket => 0x81,
        ReasonCode::ProtocolError => 0x82,
        ReasonCode::ImplementationSpecificError => 0x83,
        ReasonCode::UnsupportedProtocolVersion => 0x84,
        ReasonCode::ClientIdentifierNotValid => 0x85,
        ReasonCode::BadUserNameOrPassword => 0x86,
        ReasonCode::NotAuthorized => 0x87,
        ReasonCode::ServerUnavailable => 0x88,
        ReasonCode::ServerBusy => 0x89,
        ReasonCode::Banned => 0x8A,
        ReasonCode::ServerShuttingDown => 0x8B,
        ReasonCode::BadAuthenticationMethod => 0x8C,
        ReasonCode::KeepAliveTimeout => 0x8D,
        ReasonCode::SessionTakenOver => 0x8E,
        ReasonCode::TopicFilterInvalid => 0x8F,
        ReasonCode::TopicNameInvalid => 0x90,
        ReasonCode::PacketIdentifierInUse => 0x91,
        ReasonCode::PacketIdentifierNotFound => 0x92,
        ReasonCode::ReceiveMaximumExceeded => 0x93,
        ReasonCode::TopicAliasInvalid => 0x94,
        ReasonCode::PacketTooLarge => 0x95,
        ReasonCode::MessageRateTooHigh => 0x96,
        ReasonCode::QuotaExceeded => 0x97,
        ReasonCode::AdministrativeAction => 0x98,
        ReasonCode::PayloadFormatInvalid => 0x99,
        ReasonCode::RetainNotSupported => 0x9A,
        ReasonCode::QoSNotSupported => 0x9B,
        ReasonCode::UseAnotherServer => 0x9C,
        ReasonCode::ServerMoved => 0x9D,
        ReasonCode::SharedSubscriptionNotSupported => 0x9E,
        ReasonCode::ConnectionRateExceeded => 0x9F,
        ReasonCode::MaximumConnectTime => 0xA0,
        ReasonCode::SubscriptionIdentifiersNotSupported => 0xA1,
        ReasonCode::WildcardSubscriptionsNotSupported => 0xA2,
    }
}

impl ReasonCode {
    /// The wire value of this reason code.
    pub fn as_u8(&self) -> (v: u8)
        ensures
            v == reason_code_value(*self),
    {
        match self {
            ReasonCode::Success => 0x00,
            ReasonCode::GrantedQoS1 => 0x01,
            ReasonCode::GrantedQoS2 => 0x02,
            ReasonCode::DisconnectWithWillMessage => 0x04,
            ReasonCode::NoMatchingSubscribers => 0x10,
            ReasonCode::NoSubscriptionExisted => 0x11,
            ReasonCode::ContinueAuthentication => 0x18,
            ReasonCode::ReAuthenticate => 0x19,
            ReasonCode::UnspecifiedError => 0x80,
            ReasonCode::MalformedPacket => 0x81,
            ReasonCode::ProtocolError => 0x82,
            ReasonCode::ImplementationSpecificError => 0x83,
            ReasonCode::UnsupportedProtocolVersion => 0x84,
            ReasonCode::ClientIdentifierNotValid => 0x85,
            ReasonCode::BadUserNameOrPassword => 0x86,
            ReasonCode::NotAuthorized => 0x87,
            ReasonCode::ServerUnavailable => 0x88,
            ReasonCode::ServerBusy => 0x89,
            ReasonCode::Banned => 0x8A,
            ReasonCode::ServerShuttingDown => 0x8B,
            ReasonCode::BadAuthenticationMethod => 0x8C,
            ReasonCode::KeepAliveTimeout => 0x8D,
            ReasonCode::SessionTakenOver => 0x8E,
            ReasonCode::TopicFilterInvalid => 0x8F,
            ReasonCode::TopicNameInvalid => 0x90,
            ReasonCode::PacketIdentifierInUse => 0x91,
            ReasonCode::PacketIdentifierNotFound => 0x92,
            ReasonCode::ReceiveMaximumExceeded => 0x93,
            ReasonCode::TopicAliasInvalid => 0x94,
            ReasonCode::PacketTooLarge => 0x95,
            ReasonCode::MessageRateTooHigh => 0x96,
            ReasonCode::QuotaExceeded => 0x97,
            ReasonCode::AdministrativeAction => 0x98,
            ReasonCode::PayloadFormatInvalid => 0x99,
            ReasonCode::RetainNotSupported => 0x9A,
            ReasonCode::QoSNotSupported => 0x9B,
            ReasonCode::UseAnotherServer => 0x9C,
            ReasonCode::ServerMoved => 0x9D,
            ReasonCode::SharedSubscriptionNotSupported => 0x9E,
            ReasonCode::ConnectionRateExceeded => 0x9F,
            ReasonCode::MaximumConnectTime => 0xA0,
            ReasonCode::SubscriptionIdentifiersNotSupported => 0xA1,
            ReasonCode::WildcardSubscriptionsNotSupported => 0xA2,
        }
    }
}

/// MQTT v5.0 properties of a packet; absent properties are `None` or empty.
#[derive(Debug, Clone)]
pub struct Properties {
    pub payload_format_indicator: Option<u8>,
    pub message_expiry_interval: Option<u32>,
    pub content_type: Option<String>,
    pub response_topic: Option<String>,
    pub correlation_data: Option<Vec<u8>>,
    pub subscription_identifiers: Vec<u32>,
    pub session_expiry_interval: Option<u32>,
    pub assigned_client_identifier: Option<String>,
    pub server_keep_alive: Option<u16>,
    pub authentication_method: Option<String>,
    pub authentication_data: Option<Vec<u8>>,
    pub request_problem_information: Option<bool>,
    pub will_delay_interval: Option<u32>,
    pub request_response_information: Option<bool>,
    pub response_information: Option<String>,
    pub server_reference: Option<String>,
    pub reason_string: Option<String>,
    pub receive_maximum: Option<u16>,
    pub topic_alias_maximum: Option<u16>,
    pub topic_alias: Option<u16>,
    pub maximum_qos: Option<QoS>,
    pub retain_available: Option<bool>,
    pub user_properties: Vec<(String, String)>,
    pub maximum_packet_size: Option<u32>,
    pub wildcard_subscription_available: Option<bool>,
    pub subscription_identifiers_available: Option<bool>,
    pub shared_subscription_available: Option<bool>,
}

/// Whether a property set holds no property at all.
pub open spec fn properties_empty(p: Properties) -> bool {
    &&& p.payload_format_indicator is None
    &&& p.message_expiry_interval is None
    &&& p.content_type is None
    &&& p.response_topic is None
    &&& p.correlation_data is None
    &&& p.subscription_identifiers@.len() == 0
    &&& p.session_expiry_interval is None
    &&& p.assigned_client_identifier is None
    &&& p.server_keep_alive is None
    &&& p.authentication_method is None
    &&& p.authentication_data is None
    &&& p.request_problem_information is None
    &&& p.will_delay_interval is None
    &&& p.request_response_information is None
    &&& p.response_information is None
    &&& p.server_reference is None
    &&& p.reason_string is None
    &&& p.receive_maximum is None
    &&& p.topic_alias_maximum is None
    &&& p.topic_alias is None
    &&& p.maximum_qos is None
    &&& p.retain_available is None
    &&& p.user_properties@.len() == 0
    &&& p.maximum_packet_size is None
    &&& p.wildcard_subscription_available is None
    &&& p.subscription_identifiers_available is None
    &&& p.shared_subscription_available is None
}

impl Properties {
    /// Creates an empty property set.
    pub fn new() -> (p: Properties)
        ensures
            properties_empty(p),
    {
        Properties {
            payload_format_indicator: None,
            message_expiry_interval: None,
            content_type: None,
            response_topic: None,
            correlation_data: None,
            subscription_identifiers: Vec::new(),
            session_expiry_interval: None,
            assigned_client_identifier: None,
            server_keep_alive: None,
            authentication_method: None,
            authentication_data: None,
            request_problem_information: None,
            will_delay_interval: None,
            request_response_information: None,
            response_information: None,
            server_reference: None,
            reason_string: None,
            receive_maximum: None,
            topic_alias_maximum: None,
            topic_alias: None,
            maximum_qos: None,
            retain_available: None,
            user_properties: Vec::new(),
            maximum_packet_size: None,
            wildcard_subscription_available: None,
            subscription_identifiers_available: None,
            shared_subscription_available: None,
        }
    }
}

impl Default for Properties {
    fn default() -> (p: Properties)
        ensures
            properties_empty(p),
    {
        Properties::new()
    }
}

/// MQTT v5.0 CONNECT packet.
#[derive(Debug, Clone)]
pub struct ConnectPacket {
    pub protocol_name: String,
    pub protocol_level: u8,
    pub clean_start: bool,
    pub will_flag: bool,
    pub will_qos: QoS,
    pub will_retain: bool,
    pub password_flag: bool,
    pub username_flag: bool,
    pub keep_alive: u16,
    pub properties: Properties,
    pub client_id: String,
    pub will_topic: Option<String>,
    pub will_message: Option<Vec<u8>>,
    pub will_properties: Option<Properties>,
    pub username: Option<String>,
    pub password: Option<Vec<u8>>,
}

/// MQTT v5.0 CONNACK packet.
#[derive(Debug, Clone)]
pub struct ConnAckPacket {
    pub session_present: bool,
    pub reason_code: ReasonCode,
    pub properties: Properties,
}

/// MQTT v5.0 PUBLISH packet.
#[derive(Debug, Clone)]
pub struct PublishPacket {
    pub topic_name: String,
    pub packet_id: Option<u16>,
    pub payload: Vec<u8>,
    pub qos: QoS,
    pub duplicate: bool,
    pub retain: bool,
    pub properties: Properties,
}

/// MQTT v5.0 PUBACK packet.
#[derive(Debug, Clone)]
pub struct PubAckPacket {
    pub packet_id: u16,
    pub reason_code: ReasonCode,
    pub properties: Properties,
}

/// MQTT v5.0 PUBREC packet.
#[derive(Debug, Clone)]
pub struct PubRecPacket {
    pub packet_id: u16,
    pub reason_code: ReasonCode,
    pub properties: Properties,
}

/// MQTT v5.0 PUBREL packet.
#[derive(Debug, Clone)]
pub struct PubRelPacket {
    pub packet_id: u16,
    pub reason_code: ReasonCode,
    pub properties: Properties,
}

/// MQTT v5.0 PUBCOMP packet.
#[derive(Debug, Clone)]
pub struct PubCompPacket {
    pub packet_id: u16,
    pub reason_code: ReasonCode,
    pub properties: Properties,
}

/// A topic filter with its subscription options (MQTT v5.0 SUBSCRIBE payload).
#[derive(Debug, Clone)]
pub struct SubscriptionOption {
    pub topic_filter: String,
    pub qos: QoS,
    pub no_local: bool,
    pub retain_as_published: bool,
    pub retain_handling: u8,
}

/// MQTT v5.0 SUBSCRIBE packet.
#[derive(Debug, Clone)]
pub struct SubscribePacket {
    pub packet_id: u16,
    pub properties: Properties,
    pub topics: Vec<SubscriptionOption>,
}

/// MQTT v5.0 SUBACK packet.
#[derive(Debug, Clone)]
pub struct SubAckPacket {
    pub packet_id: u16,
    pub properties: Properties,
    pub reason_codes: Vec<ReasonCode>,
}

/// MQTT v5.0 UNSUBSCRIBE packet.
#[derive(Debug, Clone)]
pub struct UnsubscribePacket {
    pub packet_id: u16,
    pub properties: Properties,
    pub topics: Vec<String>,
}

/// MQTT v5.0 UNSUBACK packet.
#[derive(Debug, Clone)]
pub struct UnsubAckPacket {
    pub packet_id: u16,
    pub properties: Properties,
    pub reason_codes: Vec<ReasonCode>,
}

/// MQTT v5.0 PINGREQ packet.
#[derive(Debug, Clone, Copy, PartialEq, Eq, Structural)]
pub struct PingReqPacket;

/// MQTT v5.0 PINGRESP packet.
#[derive(Debug, Clone, Copy, PartialEq, Eq, Structural)]
pub struct PingRespPacket;

/// MQTT v5.0 DISCONNECT packet.
#[derive(Debug, Clone)]
pub struct DisconnectPacket {
    pub reason_code: ReasonCode,
    pub properties: Properties,
}

impl Default for DisconnectPacket {
    fn default() -> (p: DisconnectPacket)
        ensures
            p.reason_code == ReasonCode::Success,
            properties_empty(p.properties),
    {
        DisconnectPacket { reason_code: ReasonCode::Success, properties: Properties::new() }
    }
}

/// MQTT v5.0 AUTH packet.
#[derive(Debug, Clone)]
pub struct AuthPacket {
    pub reason_code: ReasonCode,
    pub properties: Properties,
}

/// MQTT v5.0 packet: one of all the packet types.
#[derive(Debug, Clone)]
pub enum Packet {
    Connect(ConnectPacket),
    ConnAck(ConnAckPacket),
    Publish(PublishPacket),
    PubAck(PubAckPacket),
    PubRec(PubRecPacket),
    PubRel(PubRelPacket),
    PubComp(PubCompPacket),
    Subscribe(SubscribePacket),
    SubAck(SubAckPacket),
    Unsubscribe(UnsubscribePacket),
    UnsubAck(UnsubAckPacket),
    PingReq(PingReqPacket),
    PingResp(PingRespPacket),
    Disconnect(DisconnectPacket),
    Auth(AuthPacket),
}

/// The packet type of a packet.
pub open spec fn packet_kind(p: Packet) -> PacketType {
    match p {
        Packet::Connect(_) => PacketType::Connect,
        Packet::ConnAck(_) => PacketType::ConnAck,
        Packet::Publish(_) => PacketType::Publish,
        Packet::PubAck(_) => PacketType::PubAck,
        Packet::PubRec(_) => PacketType::PubRec,
        Packet::PubRel(_) => PacketType::PubRel,
        Packet::PubComp(_) => PacketType::PubComp,
        Packet::Subscribe(_) => PacketType::Subscribe,
        Packet::SubAck(_) => PacketType::SubAck,
        Packet::Unsubscribe(_) => PacketType::Unsubscribe,
        Packet::UnsubAck(_) => PacketType::UnsubAck,
        Packet::PingReq(_) => PacketType::PingReq,
        Packet::PingResp(_) => PacketType::PingResp,
        Packet::Disconnect(_) => PacketType::Disconnect,
        Packet::Auth(_) => PacketType::Auth,
    }
}

impl Packet {
    /// Returns the packet type of this packet.
    pub fn packet_type(&self) -> (t: PacketType)
        ensures
            t == packet_kind(*self),
    {
        match self {
            Packet::Connect(_) => PacketType::Connect,
            Packet::ConnAck(_) => PacketType::ConnAck,
            Packet::Publish(_) => PacketType::Publish,
            Packet::PubAck(_) => PacketType::PubAck,
            Packet::PubRec(_) => PacketType::PubRec,
            Packet::PubRel(_) => PacketType::PubRel,
            Packet::PubComp(_) => PacketType::PubComp,
            Packet::Subscribe(_) => PacketType::Subscribe,
            Packet::SubAck(_) => PacketType::SubAck,
            Packet::Unsubscribe(_) => PacketType::Unsubscribe,
            Packet::UnsubAck(_) => PacketType::UnsubAck,
            Packet::PingReq(_) => PacketType::PingReq,
            Packet::PingResp(_) => PacketType::PingResp,
            Packet::Disconnect(_) => PacketType::Disconnect,
            Packet::Auth(_) => PacketType::Auth,
        }
    }
}

} // verus!
