//! Validation rules for MQTT v5.0 packets.
//!
//! As for MQTT v3.1.1, each rule is a spec function returning the kind of
//! error the rule reports, and each validator is proved to agree with it.

use vstd::prelude::*;
use vstd::string::StrSliceExecFns;
use vstd::utf8::encode_utf8;

use crate::error::{
    result_agrees, violation, ClientIdErrorReason, ErrorKind, MqttError, TopicFilterErrorReason,
};
use crate::text::{chars_of, decimal, join, join3, number_text};
use crate::v4;
use crate::v4::validation::{contains_char, packet_id_error, topic_filter_error, topic_name_error};

use super::packet::{
    packet_type_name, AuthPacket, ConnAckPacket, ConnectPacket, DisconnectPacket, Packet, PacketType, Properties,
    PubAckPacket, PubCompPacket, PubRecPacket, PubRelPacket, PublishPacket, QoS, ReasonCode,
    SubAckPacket, SubscribePacket, SubscriptionOption, UnsubAckPacket, UnsubscribePacket,
};

verus! {

/// The protocol name for MQTT v5.0.
pub const PROTOCOL_NAME_MQTT: &'static str = "MQTT";

/// The protocol level for MQTT v5.0.
pub const PROTOCOL_LEVEL_V5: u8 = 5;

/// Maximum length for topic name (limited by 2-byte length field).
pub const MAX_TOPIC_LENGTH: usize = 65535;

// ============================================================================
// Helpers
// ============================================================================

/// The first error among a list of outcomes, in order.
pub open spec fn first_error(errs: Seq<Option<ErrorKind>>) -> Option<ErrorKind>
    decreases errs.len(),
{
    if errs.len() == 0 {
        None
    } else if errs[0] is Some {
        errs[0]
    } else {
        first_error(errs.drop_first())
    }
}

/// Looking at a suffix of outcomes that starts with a success is looking at
/// the suffix after it.
proof fn lemma_first_error_step(errs: Seq<Option<ErrorKind>>, i: int)
    requires
        0 <= i < errs.len(),
        errs[i] is None,
    ensures
        first_error(errs.skip(i)) == first_error(errs.skip(i + 1)),
{
    assert(errs.skip(i).drop_first() =~= errs.skip(i + 1));
}

// ============================================================================
// Properties
// ============================================================================

/// The MQTT v5.0 properties, one per field of [`Properties`].
#[derive(Debug, Clone, Copy, PartialEq, Eq, Structural)]
pub enum Property {
    PayloadFormatIndicator,
    MessageExpiryInterval,
    ContentType,
    ResponseTopic,
    CorrelationData,
    SubscriptionIdentifier,
    SessionExpiryInterval,
    AssignedClientIdentifier,
    ServerKeepAlive,
    AuthenticationMethod,
    AuthenticationData,
    RequestProblemInformation,
    WillDelayInterval,
    RequestResponseInformation,
    ResponseInformation,
    ServerReference,
    ReasonString,
    ReceiveMaximum,
    TopicAliasMaximum,
    TopicAlias,
    MaximumQoS,
    RetainAvailable,
    UserProperty,
    MaximumPacketSize,
    WildcardSubscriptionAvailable,
    SubscriptionIdentifiersAvailable,
    SharedSubscriptionAvailable,
}

/// The name of a property, as the specification writes it.
pub open spec fn property_name(p: Property) -> Seq<char> {
    match p {
        Property::PayloadFormatIndicator => "Payload Format Indicator"@,
        Property::MessageExpiryInterval => "Message Expiry Interval"@,
        Property::ContentType => "Content Type"@,
        Property::ResponseTopic => "Response Topic"@,
        Property::CorrelationData => "Correlation Data"@,
        Property::SubscriptionIdentifier => "Subscription Identifier"@,
        Property::SessionExpiryInterval => "Session Expiry Interval"@,
        Property::AssignedClientIdentifier => "Assigned Client Identifier"@,
        Property::ServerKeepAlive => "Server Keep Alive"@,
        Property::AuthenticationMethod => "Authentication Method"@,
        Property::AuthenticationData => "Authentication Data"@,
        Property::RequestProblemInformation => "Request Problem Information"@,
        Property::WillDelayInterval => "Will Delay Interval"@,
        Property::RequestResponseInformation => "Request Response Information"@,
        Property::ResponseInformation => "Response Information"@,
        Property::ServerReference => "Server Reference"@,
        Property::ReasonString => "Reason String"@,
        Property::ReceiveMaximum => "Receive Maximum"@,
        Property::TopicAliasMaximum => "Topic Alias Maximum"@,
        Property::TopicAlias => "Topic Alias"@,
        Property::MaximumQoS => "Maximum QoS"@,
        Property::RetainAvailable => "Retain Available"@,
        Property::UserProperty => "User Property"@,
        Property::MaximumPacketSize => "Maximum Packet Size"@,
        Property::WildcardSubscriptionAvailable => "Wildcard Subscription Available"@,
        Property::SubscriptionIdentifiersAvailable => "Subscription Identifiers Available"@,
        Property::SharedSubscriptionAvailable => "Shared Subscription Available"@,
    }
}

/// Whether property `p` is present in `props`.
pub open spec fn is_present(props: Properties, p: Property) -> bool {
    match p {
        Property::PayloadFormatIndicator => props.payload_format_indicator is Some,
        Property::MessageExpiryInterval => props.message_expiry_interval is Some,
        Property::ContentType => props.content_type is Some,
        Property::ResponseTopic => props.response_topic is Some,
        Property::CorrelationData => props.correlation_data is Some,
        Property::SubscriptionIdentifier => props.subscription_identifiers@.len() > 0,
        Property::SessionExpiryInterval => props.session_expiry_interval is Some,
        Property::AssignedClientIdentifier => props.assigned_client_identifier is Some,
        Property::ServerKeepAlive => props.server_keep_alive is Some,
        Property::AuthenticationMethod => props.authentication_method is Some,
        Property::AuthenticationData => props.authentication_data is Some,
        Property::RequestProblemInformation => props.request_problem_information is Some,
        Property::WillDelayInterval => props.will_delay_interval is Some,
        Property::RequestResponseInformation => props.request_response_information is Some,
        Property::ResponseInformation => props.response_information is Some,
        Property::ServerReference => props.server_reference is Some,
        Property::ReasonString => props.reason_string is Some,
        Property::ReceiveMaximum => props.receive_maximum is Some,
        Property::TopicAliasMaximum => props.topic_alias_maximum is Some,
        Property::TopicAlias => props.topic_alias is Some,
        Property::MaximumQoS => props.maximum_qos is Some,
        Property::RetainAvailable => props.retain_available is Some,
        Property::UserProperty => props.user_properties@.len() > 0,
        Property::MaximumPacketSize => props.maximum_packet_size is Some,
        Property::WildcardSubscriptionAvailable => props.wildcard_subscription_available is Some,
        Property::SubscriptionIdentifiersAvailable => props.subscription_identifiers_available is Some,
        Property::SharedSubscriptionAvailable => props.shared_subscription_available is Some,
    }
}

/// The properties that a packet of type `t` may not carry (MQTT v5.0,
/// section 2.2.2.2), in the order the scope check looks for them.
pub open spec fn forbidden_in(t: PacketType) -> Seq<Property> {
    match t {
        PacketType::Connect => seq![Property::AssignedClientIdentifier, Property::ServerKeepAlive, Property::ResponseInformation, Property::ServerReference, Property::MaximumQoS, Property::RetainAvailable, Property::WildcardSubscriptionAvailable, Property::SubscriptionIdentifiersAvailable, Property::SharedSubscriptionAvailable, Property::TopicAlias, Property::PayloadFormatIndicator, Property::MessageExpiryInterval, Property::ContentType, Property::ResponseTopic, Property::CorrelationData, Property::SubscriptionIdentifier, Property::ReasonString, Property::WillDelayInterval],
        PacketType::ConnAck => seq![Property::TopicAlias, Property::PayloadFormatIndicator, Property::MessageExpiryInterval, Property::ContentType, Property::ResponseTopic, Property::CorrelationData, Property::SubscriptionIdentifier, Property::WillDelayInterval, Property::RequestResponseInformation, Property::RequestProblemInformation],
        PacketType::Publish => seq![Property::SessionExpiryInterval, Property::ReceiveMaximum, Property::MaximumPacketSize, Property::TopicAliasMaximum, Property::AssignedClientIdentifier, Property::ServerKeepAlive, Property::MaximumQoS, Property::RetainAvailable, Property::WildcardSubscriptionAvailable, Property::SubscriptionIdentifiersAvailable, Property::SharedSubscriptionAvailable, Property::AuthenticationMethod, Property::AuthenticationData, Property::ServerReference, Property::ReasonString, Property::RequestResponseInformation, Property::RequestProblemInformation, Property::WillDelayInterval, Property::ResponseInformation],
        PacketType::PubAck | PacketType::PubRec | PacketType::PubRel | PacketType::PubComp => seq![Property::SessionExpiryInterval, Property::ReceiveMaximum, Property::MaximumPacketSize, Property::TopicAliasMaximum, Property::TopicAlias, Property::PayloadFormatIndicator, Property::MessageExpiryInterval, Property::ContentType, Property::ResponseTopic, Property::CorrelationData, Property::SubscriptionIdentifier, Property::AssignedClientIdentifier, Property::ServerKeepAlive, Property::MaximumQoS, Property::RetainAvailable, Property::WildcardSubscriptionAvailable, Property::SubscriptionIdentifiersAvailable, Property::SharedSubscriptionAvailable, Property::AuthenticationMethod, Property::AuthenticationData, Property::ServerReference, Property::WillDelayInterval, Property::RequestResponseInformation, Property::RequestProblemInformation, Property::ResponseInformation],
        PacketType::Subscribe => seq![Property::SessionExpiryInterval, Property::ReceiveMaximum, Property::MaximumPacketSize, Property::TopicAliasMaximum, Property::TopicAlias, Property::PayloadFormatIndicator, Property::MessageExpiryInterval, Property::ContentType, Property::ResponseTopic, Property::CorrelationData, Property::AssignedClientIdentifier, Property::ServerKeepAlive, Property::MaximumQoS, Property::RetainAvailable, Property::WildcardSubscriptionAvailable, Property::SubscriptionIdentifiersAvailable, Property::SharedSubscriptionAvailable, Property::AuthenticationMethod, Property::AuthenticationData, Property::ServerReference, Property::ReasonString, Property::WillDelayInterval, Property::RequestResponseInformation, Property::RequestProblemInformation, Property::ResponseInformation],
        PacketType::SubAck | PacketType::UnsubAck => seq![Property::SessionExpiryInterval, Property::ReceiveMaximum, Property::MaximumPacketSize, Property::TopicAliasMaximum, Property::TopicAlias, Property::PayloadFormatIndicator, Property::MessageExpiryInterval, Property::ContentType, Property::ResponseTopic, Property::CorrelationData, Property::SubscriptionIdentifier, Property::AssignedClientIdentifier, Property::ServerKeepAlive, Property::MaximumQoS, Property::RetainAvailable, Property::WildcardSubscriptionAvailable, Property::SubscriptionIdentifiersAvailable, Property::SharedSubscriptionAvailable, Property::AuthenticationMethod, Property::AuthenticationData, Property::ServerReference, Property::WillDelayInterval, Property::RequestResponseInformation, Property::RequestProblemInformation, Property::ResponseInformation],
        PacketType::Unsubscribe => seq![Property::SessionExpiryInterval, Property::ReceiveMaximum, Property::MaximumPacketSize, Property::TopicAliasMaximum, Property::TopicAlias, Property::PayloadFormatIndicator, Property::MessageExpiryInterval, Property::ContentType, Property::ResponseTopic, Property::CorrelationData, Property::SubscriptionIdentifier, Property::AssignedClientIdentifier, Property::ServerKeepAlive, Property::MaximumQoS, Property::RetainAvailable, Property::WildcardSubscriptionAvailable, Property::SubscriptionIdentifiersAvailable, Property::SharedSubscriptionAvailable, Property::AuthenticationMethod, Property::AuthenticationData, Property::ServerReference, Property::ReasonString, Property::WillDelayInterval, Property::RequestResponseInformation, Property::RequestProblemInformation, Property::ResponseInformation],
        PacketType::Disconnect => seq![Property::ReceiveMaximum, Property::MaximumPacketSize, Property::TopicAliasMaximum, Property::TopicAlias, Property::PayloadFormatIndicator, Property::MessageExpiryInterval, Property::ContentType, Property::ResponseTopic, Property::CorrelationData, Property::SubscriptionIdentifier, Property::AssignedClientIdentifier, Property::ServerKeepAlive, Property::MaximumQoS, Property::RetainAvailable, Property::WildcardSubscriptionAvailable, Property::SubscriptionIdentifiersAvailable, Property::SharedSubscriptionAvailable, Property::AuthenticationMethod, Property::AuthenticationData, Property::WillDelayInterval, Property::RequestResponseInformation, Property::RequestProblemInformation, Property::ResponseInformation],
        PacketType::Auth => seq![Property::SessionExpiryInterval, Property::ReceiveMaximum, Property::MaximumPacketSize, Property::TopicAliasMaximum, Property::TopicAlias, Property::PayloadFormatIndicator, Property::MessageExpiryInterval, Property::ContentType, Property::ResponseTopic, Property::CorrelationData, Property::SubscriptionIdentifier, Property::AssignedClientIdentifier, Property::ServerKeepAlive, Property::MaximumQoS, Property::RetainAvailable, Property::WildcardSubscriptionAvailable, Property::SubscriptionIdentifiersAvailable, Property::SharedSubscriptionAvailable, Property::ServerReference, Property::WillDelayInterval, Property::RequestResponseInformation, Property::RequestProblemInformation, Property::ResponseInformation],
        PacketType::PingReq | PacketType::PingResp => Seq::empty(),
    }
}

/// The first property of `order`, from position `i` on, that is present in `props`.
pub open spec fn first_present_from(props: Properties, order: Seq<Property>, i: int) -> Option<Property>
    decreases order.len() - i,
{
    if i < 0 || i >= order.len() {
        None
    } else if is_present(props, order[i]) {
        Some(order[i])
    } else {
        first_present_from(props, order, i + 1)
    }
}

/// The first property of `props` that a packet of type `t` may not carry.
pub open spec fn first_out_of_scope(props: Properties, t: PacketType) -> Option<Property> {
    first_present_from(props, forbidden_in(t), 0)
}

/// The message naming a property that a packet type may not carry.
pub open spec fn scope_text(p: Property, t: PacketType) -> Seq<char> {
    "Property '"@ + property_name(p) + "' is not allowed in "@ + packet_type_name(t) + " packet"@
}

/// Whether property `p` may appear in the will properties of a CONNECT
/// packet: the Will properties of MQTT v5.0 (section 3.1.3.2) and user
/// properties. Response Information belongs to CONNACK alone.
pub open spec fn allowed_in_will(p: Property) -> bool {
    p == Property::PayloadFormatIndicator || p == Property::MessageExpiryInterval || p
        == Property::ContentType || p == Property::ResponseTopic || p == Property::CorrelationData
        || p == Property::WillDelayInterval || p == Property::UserProperty
}

/// The rule for property scope: no property appears in a packet type that does not allow it.
pub open spec fn property_scope_error(props: Properties, t: PacketType) -> Option<ErrorKind> {
    if first_out_of_scope(props, t) is Some {
        violation(scope_text(first_out_of_scope(props, t)->0, t), None)
    } else {
        None
    }
}

/// The property at position `i` of the fixed listing order.
pub open spec fn property_at(i: int) -> Property {
    if i == 0 {
        Property::PayloadFormatIndicator
    } else if i == 1 {
        Property::MessageExpiryInterval
    } else if i == 2 {
        Property::ContentType
    } else if i == 3 {
        Property::ResponseTopic
    } else if i == 4 {
        Property::CorrelationData
    } else if i == 5 {
        Property::SubscriptionIdentifier
    } else if i == 6 {
        Property::SessionExpiryInterval
    } else if i == 7 {
        Property::AssignedClientIdentifier
    } else if i == 8 {
        Property::ServerKeepAlive
    } else if i == 9 {
        Property::AuthenticationMethod
    } else if i == 10 {
        Property::AuthenticationData
    } else if i == 11 {
        Property::RequestProblemInformation
    } else if i == 12 {
        Property::WillDelayInterval
    } else if i == 13 {
        Property::RequestResponseInformation
    } else if i == 14 {
        Property::ResponseInformation
    } else if i == 15 {
        Property::ServerReference
    } else if i == 16 {
        Property::ReasonString
    } else if i == 17 {
        Property::ReceiveMaximum
    } else if i == 18 {
        Property::TopicAliasMaximum
    } else if i == 19 {
        Property::TopicAlias
    } else if i == 20 {
        Property::MaximumQoS
    } else if i == 21 {
        Property::RetainAvailable
    } else if i == 22 {
        Property::UserProperty
    } else if i == 23 {
        Property::MaximumPacketSize
    } else if i == 24 {
        Property::WildcardSubscriptionAvailable
    } else if i == 25 {
        Property::SubscriptionIdentifiersAvailable
    } else {
        Property::SharedSubscriptionAvailable
    }
}

/// Every property has a position in the listing order.
proof fn lemma_property_listed(p: Property)
    ensures
        exists|i: int| 0 <= i < 27 && property_at(i) == p,
{
    match p {
        Property::PayloadFormatIndicator => assert(property_at(0) == p),
        Property::MessageExpiryInterval => assert(property_at(1) == p),
        Property::ContentType => assert(property_at(2) == p),
        Property::ResponseTopic => assert(property_at(3) == p),
        Property::CorrelationData => assert(property_at(4) == p),
        Property::SubscriptionIdentifier => assert(property_at(5) == p),
        Property::SessionExpiryInterval => assert(property_at(6) == p),
        Property::AssignedClientIdentifier => assert(property_at(7) == p),
        Property::ServerKeepAlive => assert(property_at(8) == p),
        Property::AuthenticationMethod => assert(property_at(9) == p),
        Property::AuthenticationData => assert(property_at(10) == p),
        Property::RequestProblemInformation => assert(property_at(11) == p),
        Property::WillDelayInterval => assert(property_at(12) == p),
        Property::RequestResponseInformation => assert(property_at(13) == p),
        Property::ResponseInformation => assert(property_at(14) == p),
        Property::ServerReference => assert(property_at(15) == p),
        Property::ReasonString => assert(property_at(16) == p),
        Property::ReceiveMaximum => assert(property_at(17) == p),
        Property::TopicAliasMaximum => assert(property_at(18) == p),
        Property::TopicAlias => assert(property_at(19) == p),
        Property::MaximumQoS => assert(property_at(20) == p),
        Property::RetainAvailable => assert(property_at(21) == p),
        Property::UserProperty => assert(property_at(22) == p),
        Property::MaximumPacketSize => assert(property_at(23) == p),
        Property::WildcardSubscriptionAvailable => assert(property_at(24) == p),
        Property::SubscriptionIdentifiersAvailable => assert(property_at(25) == p),
        Property::SharedSubscriptionAvailable => assert(property_at(26) == p),
    }
}

impl Property {
    /// The property at position `i` of the listing order.
    pub fn at(i: usize) -> (p: Property)
        requires
            i < 27,
        ensures
            p == property_at(i as int),
    {
        if i == 0 {
            Property::PayloadFormatIndicator
        } else if i == 1 {
            Property::MessageExpiryInterval
        } else if i == 2 {
            Property::ContentType
        } else if i == 3 {
            Property::ResponseTopic
        } else if i == 4 {
            Property::CorrelationData
        } else if i == 5 {
            Property::SubscriptionIdentifier
        } else if i == 6 {
            Property::SessionExpiryInterval
        } else if i == 7 {
            Property::AssignedClientIdentifier
        } else if i == 8 {
            Property::ServerKeepAlive
        } else if i == 9 {
            Property::AuthenticationMethod
        } else if i == 10 {
            Property::AuthenticationData
        } else if i == 11 {
            Property::RequestProblemInformation
        } else if i == 12 {
            Property::WillDelayInterval
        } else if i == 13 {
            Property::RequestResponseInformation
        } else if i == 14 {
            Property::ResponseInformation
        } else if i == 15 {
            Property::ServerReference
        } else if i == 16 {
            Property::ReasonString
        } else if i == 17 {
            Property::ReceiveMaximum
        } else if i == 18 {
            Property::TopicAliasMaximum
        } else if i == 19 {
            Property::TopicAlias
        } else if i == 20 {
            Property::MaximumQoS
        } else if i == 21 {
            Property::RetainAvailable
        } else if i == 22 {
            Property::UserProperty
        } else if i == 23 {
            Property::MaximumPacketSize
        } else if i == 24 {
            Property::WildcardSubscriptionAvailable
        } else if i == 25 {
            Property::SubscriptionIdentifiersAvailable
        } else {
            Property::SharedSubscriptionAvailable
        }
    }

    /// Whether this property is present in `props`.
    pub fn present_in(&self, props: &Properties) -> (b: bool)
        ensures
            b == is_present(*props, *self),
    {
        match self {
            Property::PayloadFormatIndicator => props.payload_format_indicator.is_some(),
            Property::MessageExpiryInterval => props.message_expiry_interval.is_some(),
            Property::ContentType => props.content_type.is_some(),
            Property::ResponseTopic => props.response_topic.is_some(),
            Property::CorrelationData => props.correlation_data.is_some(),
            Property::SubscriptionIdentifier => props.subscription_identifiers.len() > 0,
            Property::SessionExpiryInterval => props.session_expiry_interval.is_some(),
            Property::AssignedClientIdentifier => props.assigned_client_identifier.is_some(),
            Property::ServerKeepAlive => props.server_keep_alive.is_some(),
            Property::AuthenticationMethod => props.authentication_method.is_some(),
            Property::AuthenticationData => props.authentication_data.is_some(),
            Property::RequestProblemInformation => props.request_problem_information.is_some(),
            Property::WillDelayInterval => props.will_delay_interval.is_some(),
            Property::RequestResponseInformation => props.request_response_information.is_some(),
            Property::ResponseInformation => props.response_information.is_some(),
            Property::ServerReference => props.server_reference.is_some(),
            Property::ReasonString => props.reason_string.is_some(),
            Property::ReceiveMaximum => props.receive_maximum.is_some(),
            Property::TopicAliasMaximum => props.topic_alias_maximum.is_some(),
            Property::TopicAlias => props.topic_alias.is_some(),
            Property::MaximumQoS => props.maximum_qos.is_some(),
            Property::RetainAvailable => props.retain_available.is_some(),
            Property::UserProperty => props.user_properties.len() > 0,
            Property::MaximumPacketSize => props.maximum_packet_size.is_some(),
            Property::WildcardSubscriptionAvailable => props.wildcard_subscription_available.is_some(),
            Property::SubscriptionIdentifiersAvailable => props.subscription_identifiers_available.is_some(),
            Property::SharedSubscriptionAvailable => props.shared_subscription_available.is_some(),
        }
    }

    /// Whether this property may appear in will properties.
    pub fn is_allowed_in_will(&self) -> (b: bool)
        ensures
            b == allowed_in_will(*self),
    {
        let p = *self;
        p == Property::PayloadFormatIndicator || p == Property::MessageExpiryInterval || p
            == Property::ContentType || p == Property::ResponseTopic || p
            == Property::CorrelationData || p == Property::WillDelayInterval || p
            == Property::UserProperty
    }

    /// The name of this property.
    pub fn name(&self) -> (s: &'static str)
        ensures
            s@ == property_name(*self),
    {
        match self {
            Property::PayloadFormatIndicator => "Payload Format Indicator",
            Property::MessageExpiryInterval => "Message Expiry Interval",
            Property::ContentType => "Content Type",
            Property::ResponseTopic => "Response Topic",
            Property::CorrelationData => "Correlation Data",
            Property::SubscriptionIdentifier => "Subscription Identifier",
            Property::SessionExpiryInterval => "Session Expiry Interval",
            Property::AssignedClientIdentifier => "Assigned Client Identifier",
            Property::ServerKeepAlive => "Server Keep Alive",
            Property::AuthenticationMethod => "Authentication Method",
            Property::AuthenticationData => "Authentication Data",
            Property::RequestProblemInformation => "Request Problem Information",
            Property::WillDelayInterval => "Will Delay Interval",
            Property::RequestResponseInformation => "Request Response Information",
            Property::ResponseInformation => "Response Information",
            Property::ServerReference => "Server Reference",
            Property::ReasonString => "Reason String",
            Property::ReceiveMaximum => "Receive Maximum",
            Property::TopicAliasMaximum => "Topic Alias Maximum",
            Property::TopicAlias => "Topic Alias",
            Property::MaximumQoS => "Maximum QoS",
            Property::RetainAvailable => "Retain Available",
            Property::UserProperty => "User Property",
            Property::MaximumPacketSize => "Maximum Packet Size",
            Property::WildcardSubscriptionAvailable => "Wildcard Subscription Available",
            Property::SubscriptionIdentifiersAvailable => "Subscription Identifiers Available",
            Property::SharedSubscriptionAvailable => "Shared Subscription Available",
        }
    }
}

/// The message for a property that is not allowed in a packet type.
fn scope_message(property: &str, packet: &str) -> (m: String)
    ensures
        m@ == "Property '"@ + property@ + "' is not allowed in "@ + packet@ + " packet"@,
{
    let head = crate::text::join3("Property '", property, "' is not allowed in ");
    crate::text::join3(head.as_str(), packet, " packet")
}

/// The properties that a packet of type `t` may not carry, in checking order.
fn forbidden_list(t: PacketType) -> (v: Vec<Property>)
    ensures
        v@ == forbidden_in(t),
{
    match t {
        PacketType::Connect => vec![Property::AssignedClientIdentifier, Property::ServerKeepAlive, Property::ResponseInformation, Property::ServerReference, Property::MaximumQoS, Property::RetainAvailable, Property::WildcardSubscriptionAvailable, Property::SubscriptionIdentifiersAvailable, Property::SharedSubscriptionAvailable, Property::TopicAlias, Property::PayloadFormatIndicator, Property::MessageExpiryInterval, Property::ContentType, Property::ResponseTopic, Property::CorrelationData, Property::SubscriptionIdentifier, Property::ReasonString, Property::WillDelayInterval],
        PacketType::ConnAck => vec![Property::TopicAlias, Property::PayloadFormatIndicator, Property::MessageExpiryInterval, Property::ContentType, Property::ResponseTopic, Property::CorrelationData, Property::SubscriptionIdentifier, Property::WillDelayInterval, Property::RequestResponseInformation, Property::RequestProblemInformation],
        PacketType::Publish => vec![Property::SessionExpiryInterval, Property::ReceiveMaximum, Property::MaximumPacketSize, Property::TopicAliasMaximum, Property::AssignedClientIdentifier, Property::ServerKeepAlive, Property::MaximumQoS, Property::RetainAvailable, Property::WildcardSubscriptionAvailable, Property::SubscriptionIdentifiersAvailable, Property::SharedSubscriptionAvailable, Property::AuthenticationMethod, Property::AuthenticationData, Property::ServerReference, Property::ReasonString, Property::RequestResponseInformation, Property::RequestProblemInformation, Property::WillDelayInterval, Property::ResponseInformation],
        PacketType::PubAck | PacketType::PubRec | PacketType::PubRel | PacketType::PubComp => vec![Property::SessionExpiryInterval, Property::ReceiveMaximum, Property::MaximumPacketSize, Property::TopicAliasMaximum, Property::TopicAlias, Property::PayloadFormatIndicator, Property::MessageExpiryInterval, Property::ContentType, Property::ResponseTopic, Property::CorrelationData, Property::SubscriptionIdentifier, Property::AssignedClientIdentifier, Property::ServerKeepAlive, Property::MaximumQoS, Property::RetainAvailable, Property::WildcardSubscriptionAvailable, Property::SubscriptionIdentifiersAvailable, Property::SharedSubscriptionAvailable, Property::AuthenticationMethod, Property::AuthenticationData, Property::ServerReference, Property::WillDelayInterval, Property::RequestResponseInformation, Property::RequestProblemInformation, Property::ResponseInformation],
        PacketType::Subscribe => vec![Property::SessionExpiryInterval, Property::ReceiveMaximum, Property::MaximumPacketSize, Property::TopicAliasMaximum, Property::TopicAlias, Property::PayloadFormatIndicator, Property::MessageExpiryInterval, Property::ContentType, Property::ResponseTopic, Property::CorrelationData, Property::AssignedClientIdentifier, Property::ServerKeepAlive, Property::MaximumQoS, Property::RetainAvailable, Property::WildcardSubscriptionAvailable, Property::SubscriptionIdentifiersAvailable, Property::SharedSubscriptionAvailable, Property::AuthenticationMethod, Property::AuthenticationData, Property::ServerReference, Property::ReasonString, Property::WillDelayInterval, Property::RequestResponseInformation, Property::RequestProblemInformation, Property::ResponseInformation],
        PacketType::SubAck | PacketType::UnsubAck => vec![Property::SessionExpiryInterval, Property::ReceiveMaximum, Property::MaximumPacketSize, Property::TopicAliasMaximum, Property::TopicAlias, Property::PayloadFormatIndicator, Property::MessageExpiryInterval, Property::ContentType, Property::ResponseTopic, Property::CorrelationData, Property::SubscriptionIdentifier, Property::AssignedClientIdentifier, Property::ServerKeepAlive, Property::MaximumQoS, Property::RetainAvailable, Property::WildcardSubscriptionAvailable, Property::SubscriptionIdentifiersAvailable, Property::SharedSubscriptionAvailable, Property::AuthenticationMethod, Property::AuthenticationData, Property::ServerReference, Property::WillDelayInterval, Property::RequestResponseInformation, Property::RequestProblemInformation, Property::ResponseInformation],
        PacketType::Unsubscribe => vec![Property::SessionExpiryInterval, Property::ReceiveMaximum, Property::MaximumPacketSize, Property::TopicAliasMaximum, Property::TopicAlias, Property::PayloadFormatIndicator, Property::MessageExpiryInterval, Property::ContentType, Property::ResponseTopic, Property::CorrelationData, Property::SubscriptionIdentifier, Property::AssignedClientIdentifier, Property::ServerKeepAlive, Property::MaximumQoS, Property::RetainAvailable, Property::WildcardSubscriptionAvailable, Property::SubscriptionIdentifiersAvailable, Property::SharedSubscriptionAvailable, Property::AuthenticationMethod, Property::AuthenticationData, Property::ServerReference, Property::ReasonString, Property::WillDelayInterval, Property::RequestResponseInformation, Property::RequestProblemInformation, Property::ResponseInformation],
        PacketType::Disconnect => vec![Property::ReceiveMaximum, Property::MaximumPacketSize, Property::TopicAliasMaximum, Property::TopicAlias, Property::PayloadFormatIndicator, Property::MessageExpiryInterval, Property::ContentType, Property::ResponseTopic, Property::CorrelationData, Property::SubscriptionIdentifier, Property::AssignedClientIdentifier, Property::ServerKeepAlive, Property::MaximumQoS, Property::RetainAvailable, Property::WildcardSubscriptionAvailable, Property::SubscriptionIdentifiersAvailable, Property::SharedSubscriptionAvailable, Property::AuthenticationMethod, Property::AuthenticationData, Property::WillDelayInterval, Property::RequestResponseInformation, Property::RequestProblemInformation, Property::ResponseInformation],
        PacketType::Auth => vec![Property::SessionExpiryInterval, Property::ReceiveMaximum, Property::MaximumPacketSize, Property::TopicAliasMaximum, Property::TopicAlias, Property::PayloadFormatIndicator, Property::MessageExpiryInterval, Property::ContentType, Property::ResponseTopic, Property::CorrelationData, Property::SubscriptionIdentifier, Property::AssignedClientIdentifier, Property::ServerKeepAlive, Property::MaximumQoS, Property::RetainAvailable, Property::WildcardSubscriptionAvailable, Property::SubscriptionIdentifiersAvailable, Property::SharedSubscriptionAvailable, Property::ServerReference, Property::WillDelayInterval, Property::RequestResponseInformation, Property::RequestProblemInformation, Property::ResponseInformation],
        PacketType::PingReq | PacketType::PingResp => Vec::new(),
    }
}

/// Validates that properties are appropriate for the given packet type:
/// the first property that the packet type may not carry, in checking
/// order, is named in the error.
pub fn validate_property_scope(props: &Properties, packet_type: PacketType) -> (res: Result<
    (),
    MqttError,
>)
    ensures
        result_agrees(res, property_scope_error(*props, packet_type)),
        match first_out_of_scope(*props, packet_type) {
            None => res is Ok,
            Some(p) => res matches Err(MqttError::ProtocolViolation { message, packet_type: None })
                && message@ == scope_text(p, packet_type),
        },
{
    let order = forbidden_list(packet_type);
    let mut i: usize = 0;
    while i < order.len()
        invariant
            i <= order@.len(),
            order@ == forbidden_in(packet_type),
            first_out_of_scope(*props, packet_type) == first_present_from(
                *props,
                order@,
                i as int,
            ),
        decreases order@.len() - i,
    {
        let p = order[i];
        if p.present_in(props) {
            return Err(
                MqttError::ProtocolViolation {
                    message: scope_message(p.name(), packet_type.name()),
                    packet_type: None,
                },
            );
        }
        i += 1;
    }
    Ok(())
}

// ============================================================================
// CONNECT rules
// ============================================================================

/// The protocol name must be "MQTT".
pub open spec fn protocol_name_error(name: Seq<char>) -> Option<ErrorKind> {
    if name != "MQTT"@ {
        violation("Invalid protocol name: expected 'MQTT', got '"@ + name + "'"@, Some(1))
    } else {
        None
    }
}

/// The protocol level must be 5.
pub open spec fn protocol_level_error(level: u8) -> Option<ErrorKind> {
    if level != 5 {
        violation("Invalid protocol level: expected 5, got "@ + decimal(level as nat), Some(1))
    } else {
        None
    }
}

/// Without the Will Flag, the Will QoS must be 0.
pub open spec fn connect_flags_error(p: ConnectPacket) -> Option<ErrorKind> {
    if !p.will_flag && p.will_qos != QoS::AtMostOnce {
        violation("Will QoS must be 0 when Will Flag is not set"@, Some(1))
    } else {
        None
    }
}

/// The client identifier may be empty in MQTT v5.0 but at most 65535 bytes long.
pub open spec fn client_id_error(client_id: Seq<char>) -> Option<ErrorKind> {
    if encode_utf8(client_id).len() > 65535 {
        Some(ErrorKind::InvalidClientId { client_id, reason: ClientIdErrorReason::TooLong })
    } else {
        None
    }
}

/// With the Will Flag, the will topic and message are present and the topic is a valid topic name.
pub open spec fn will_message_error(p: ConnectPacket) -> Option<ErrorKind> {
    if !p.will_flag {
        None
    } else if p.will_topic is None {
        violation("Will Topic is required when Will Flag is set"@, Some(1))
    } else if p.will_message is None {
        violation("Will Message is required when Will Flag is set"@, Some(1))
    } else {
        topic_name_error(p.will_topic->0@)
    }
}

/// Each credential flag agrees with the presence of its field; a password
/// may be sent without a user name in MQTT v5.0.
pub open spec fn credentials_error(p: ConnectPacket) -> Option<ErrorKind> {
    if p.username_flag && p.username is None {
        violation("Username is required when Username Flag is set"@, Some(1))
    } else if !p.username_flag && p.username is Some {
        violation("Username Flag must be set when Username is present"@, Some(1))
    } else if p.password_flag && p.password is None {
        violation("Password is required when Password Flag is set"@, Some(1))
    } else if !p.password_flag && p.password is Some {
        violation("Password Flag must be set when Password is present"@, Some(1))
    } else {
        None
    }
}

/// CONNECT properties: Receive Maximum and Maximum Packet Size are non-zero,
/// and only CONNECT properties appear.
pub open spec fn connect_properties_error(props: Properties) -> Option<ErrorKind> {
    if props.receive_maximum == Some(0u16) {
        violation("Receive Maximum must be non-zero"@, Some(1))
    } else if props.maximum_packet_size == Some(0u32) {
        violation("Maximum Packet Size must be non-zero"@, Some(1))
    } else {
        property_scope_error(props, PacketType::Connect)
    }
}

/// Will properties: the Payload Format Indicator is 0 or 1, and only will properties appear.
pub open spec fn will_properties_error(props: Properties) -> Option<ErrorKind> {
    if props.payload_format_indicator matches Some(v) && v > 1 {
        violation("Payload Format Indicator must be 0 or 1"@, Some(3))
    } else if exists|p: Property| is_present(props, p) && !allowed_in_will(p) {
        violation("Will Properties contain properties not allowed in Will"@, Some(1))
    } else {
        None
    }
}

/// The rule for a CONNECT packet, its parts checked in order.
pub open spec fn connect_error(p: ConnectPacket) -> Option<ErrorKind> {
    first_error(
        seq![
            protocol_name_error(p.protocol_name@),
            protocol_level_error(p.protocol_level),
            connect_flags_error(p),
            client_id_error(p.client_id@),
            will_message_error(p),
            credentials_error(p),
            connect_properties_error(p.properties),
            will_block_error(p),
        ],
    )
}

/// The will properties rule, applied when will properties are present.
pub open spec fn will_block_error(p: ConnectPacket) -> Option<ErrorKind> {
    match p.will_properties {
        Some(w) => will_properties_error(w),
        None => None,
    }
}

/// Validates the protocol name.
pub fn validate_protocol_name(name: &str) -> (res: Result<(), MqttError>)
    ensures
        result_agrees(res, protocol_name_error(name@)),
{
    let mqtt = PROTOCOL_NAME_MQTT.to_owned();
    let given = name.to_owned();
    if !(given == mqtt) {
        let message = join3("Invalid protocol name: expected 'MQTT', got '", name, "'");
        return Err(MqttError::protocol_violation(message.as_str(), Some(1)));
    }
    Ok(())
}

/// Validates the protocol level.
pub fn validate_protocol_level(level: u8) -> (res: Result<(), MqttError>)
    ensures
        result_agrees(res, protocol_level_error(level)),
{
    if level != PROTOCOL_LEVEL_V5 {
        let got = number_text(level as u64);
        let message = join("Invalid protocol level: expected 5, got ", got.as_str());
        return Err(MqttError::protocol_violation(message.as_str(), Some(1)));
    }
    Ok(())
}

/// Validates the connect flags consistency.
pub fn validate_connect_flags(packet: &ConnectPacket) -> (res: Result<(), MqttError>)
    ensures
        result_agrees(res, connect_flags_error(*packet)),
{
    if !packet.will_flag && packet.will_qos != QoS::AtMostOnce {
        return Err(
            MqttError::protocol_violation("Will QoS must be 0 when Will Flag is not set", Some(1)),
        );
    }
    Ok(())
}

/// Validates the client identifier; the clean start flag plays no part in MQTT v5.0.
pub fn validate_client_id(client_id: &str, _clean_start: bool) -> (res: Result<(), MqttError>)
    ensures
        result_agrees(res, client_id_error(client_id@)),
{
    if client_id.as_bytes().len() > 65535 {
        return Err(MqttError::invalid_client_id(client_id, ClientIdErrorReason::TooLong));
    }
    Ok(())
}

/// Validates Will message consistency.
pub fn validate_will_message(packet: &ConnectPacket) -> (res: Result<(), MqttError>)
    ensures
        result_agrees(res, will_message_error(*packet)),
{
    if packet.will_flag {
        if packet.will_topic.is_none() {
            return Err(
                MqttError::protocol_violation("Will Topic is required when Will Flag is set", Some(1)),
            );
        }
        if packet.will_message.is_none() {
            return Err(
                MqttError::protocol_violation(
                    "Will Message is required when Will Flag is set",
                    Some(1),
                ),
            );
        }
        match &packet.will_topic {
            Some(topic) => {
                return validate_topic_name(topic.as_str());
            },
            None => {},
        }
    }
    Ok(())
}

/// Validates credential flags consistency.
pub fn validate_credentials_flags(packet: &ConnectPacket) -> (res: Result<(), MqttError>)
    ensures
        result_agrees(res, credentials_error(*packet)),
{
    if packet.username_flag && packet.username.is_none() {
        return Err(
            MqttError::protocol_violation("Username is required when Username Flag is set", Some(1)),
        );
    }
    if !packet.username_flag && packet.username.is_some() {
        return Err(
            MqttError::protocol_violation(
                "Username Flag must be set when Username is present",
                Some(1),
            ),
        );
    }
    if packet.password_flag && packet.password.is_none() {
        return Err(
            MqttError::protocol_violation("Password is required when Password Flag is set", Some(1)),
        );
    }
    if !packet.password_flag && packet.password.is_some() {
        return Err(
            MqttError::protocol_violation(
                "Password Flag must be set when Password is present",
                Some(1),
            ),
        );
    }
    Ok(())
}

/// Validates properties for a CONNECT packet.
pub fn validate_connect_properties(props: &Properties) -> (res: Result<(), MqttError>)
    ensures
        result_agrees(res, connect_properties_error(*props)),
{
    match props.receive_maximum {
        Some(receive_max) => {
            if receive_max == 0 {
                return Err(
                    MqttError::protocol_violation("Receive Maximum must be non-zero", Some(1)),
                );
            }
        },
        None => {},
    }
    match props.maximum_packet_size {
        Some(max_size) => {
            if max_size == 0 {
                return Err(
                    MqttError::protocol_violation("Maximum Packet Size must be non-zero", Some(1)),
                );
            }
        },
        None => {},
    }
    validate_property_scope(props, PacketType::Connect)
}

/// Validates properties for a Will message: the Payload Format Indicator is
/// 0 or 1, and only Will properties and user properties appear.
pub fn validate_will_properties(props: &Properties) -> (res: Result<(), MqttError>)
    ensures
        result_agrees(res, will_properties_error(*props)),
{
    match props.payload_format_indicator {
        Some(pfi) => {
            if pfi > 1 {
                return Err(
                    MqttError::protocol_violation("Payload Format Indicator must be 0 or 1", Some(3)),
                );
            }
        },
        None => {},
    }
    let mut i: usize = 0;
    while i < 27
        invariant
            i <= 27,
            !(props.payload_format_indicator matches Some(v) && v > 1),
            forall|j: int|
                0 <= j < i ==> !(is_present(*props, #[trigger] property_at(j)) && !allowed_in_will(
                    property_at(j),
                )),
        decreases 27 - i,
    {
        let p = Property::at(i);
        if p.present_in(props) && !p.is_allowed_in_will() {
            return Err(
                MqttError::protocol_violation(
                    "Will Properties contain properties not allowed in Will",
                    Some(1),
                ),
            );
        }
        i += 1;
    }
    assert forall|p: Property| !(is_present(*props, p) && !allowed_in_will(p)) by {
        lemma_property_listed(p);
    }
    Ok(())
}

/// Validates a CONNECT packet according to MQTT v5.0.
pub fn validate_connect_packet(packet: &ConnectPacket) -> (res: Result<(), MqttError>)
    ensures
        result_agrees(res, connect_error(*packet)),
{
    let ghost errs = seq![
        protocol_name_error(packet.protocol_name@),
        protocol_level_error(packet.protocol_level),
        connect_flags_error(*packet),
        client_id_error(packet.client_id@),
        will_message_error(*packet),
        credentials_error(*packet),
        connect_properties_error(packet.properties),
        will_block_error(*packet),
    ];
    reveal_with_fuel(first_error, 9);
    validate_protocol_name(packet.protocol_name.as_str())?;
    validate_protocol_level(packet.protocol_level)?;
    validate_connect_flags(packet)?;
    validate_client_id(packet.client_id.as_str(), packet.clean_start)?;
    validate_will_message(packet)?;
    validate_credentials_flags(packet)?;
    validate_connect_properties(&packet.properties)?;
    match &packet.will_properties {
        Some(will_props) => {
            validate_will_properties(will_props)?;
        },
        None => {},
    }
    Ok(())
}

// ============================================================================
// Topics
// ============================================================================

/// Validates a topic name for PUBLISH; the rule is that of MQTT v3.1.1.
pub fn validate_topic_name(topic: &str) -> (res: Result<(), MqttError>)
    ensures
        result_agrees(res, topic_name_error(topic@)),
{
    v4::validate_topic_name(topic)
}

/// The prefix of a shared subscription filter.
pub open spec fn share_prefix() -> Seq<char> {
    seq!['$', 's', 'h', 'a', 'r', 'e', '/']
}

/// The position of the first '/' in `a` at or after `i`.
pub open spec fn slash_from(a: Seq<char>, i: int) -> Option<int>
    decreases a.len() - i,
{
    if i < 0 || i >= a.len() {
        None
    } else if a[i] == '/' {
        Some(i)
    } else {
        slash_from(a, i + 1)
    }
}

/// The share name and topic filter of a shared subscription
/// `$share/{ShareName}/{filter}`, with a non-empty share name and filter.
pub open spec fn shared_subscription_parts(f: Seq<char>) -> Option<(Seq<char>, Seq<char>)> {
    if f.len() < 7 || f.take(7) != share_prefix() {
        None
    } else {
        let a = f.skip(7);
        match slash_from(a, 0) {
            None => None,
            Some(k) => if k == 0 || k + 1 == a.len() {
                None
            } else {
                Some((a.take(k), a.skip(k + 1)))
            },
        }
    }
}

/// The first '/' at or after `i`, when `slash_from` finds one.
proof fn lemma_slash_from_found(a: Seq<char>, i: int)
    requires
        0 <= i,
    ensures
        slash_from(a, i) matches Some(k) ==> i <= k < a.len() && a[k] == '/' && forall|j: int|
            i <= j < k ==> a[j] != '/',
        slash_from(a, i) is None ==> forall|j: int| i <= j < a.len() ==> a[j] != '/',
    decreases a.len() - i,
{
    if i < a.len() && a[i] != '/' {
        lemma_slash_from_found(a, i + 1);
    }
}

/// A shared subscription filter is its prefix, share name, '/' and topic
/// filter, and `shared_subscription_parts` finds exactly these parts in
/// every filter made of them: a non-empty share name without '/' and a
/// non-empty topic filter.
pub proof fn lemma_shared_subscription_parts(share: Seq<char>, topic: Seq<char>, f: Seq<char>)
    ensures
        shared_subscription_parts(f) == Some((share, topic)) ==> f == share_prefix() + share
            + seq!['/'] + topic && share.len() > 0 && !share.contains('/') && topic.len() > 0,
        share.len() > 0 && !share.contains('/') && topic.len() > 0 && f == share_prefix() + share
            + seq!['/'] + topic ==> shared_subscription_parts(f) == Some((share, topic)),
{
    if f.len() >= 7 && f.take(7) == share_prefix() {
        let a = f.skip(7);
        lemma_slash_from_found(a, 0);
        if shared_subscription_parts(f) == Some((share, topic)) {
            let k = slash_from(a, 0)->Some_0;
            assert(f =~= f.take(7) + a);
            assert(a =~= a.take(k) + seq!['/'] + a.skip(k + 1));
            assert(f =~= share_prefix() + share + seq!['/'] + topic);
            assert(!share.contains('/')) by {
                if share.contains('/') {
                    let j = choose|j: int| 0 <= j < share.len() && share[j] == '/';
                    assert(a[j] == '/');
                }
            }
        }
    }
    if share.len() > 0 && !share.contains('/') && topic.len() > 0 && f == share_prefix() + share
        + seq!['/'] + topic {
        assert(f.take(7) =~= share_prefix());
        let a = f.skip(7);
        assert(a =~= share + seq!['/'] + topic);
        lemma_slash_from_found(a, 0);
        let n = share.len() as int;
        assert(a[n] == '/');
        assert forall|j: int| 0 <= j < n implies a[j] != '/' by {
            assert(a[j] == share[j]);
            if a[j] == '/' {
                assert(share.contains('/'));
            }
        }
        match slash_from(a, 0) {
            Some(k) => {
                assert(k == n) by {
                    if k < n {
                        assert(a[k] != '/');
                    }
                }
                assert(a.take(k) =~= share);
                assert(a.skip(k + 1) =~= topic);
            },
            None => {
                assert(a[n] != '/');
            },
        }
    }
}

/// Parsed shared subscription information: `$share/{ShareName}/{filter}`.
#[derive(Debug, Clone, PartialEq, Eq)]
pub struct SharedSubscription {
    /// The share name (group identifier).
    pub share_name: String,
    /// The actual topic filter.
    pub topic_filter: String,
}

/// Parses a shared subscription topic filter.
pub fn parse_shared_subscription(filter: &str) -> (res: Option<SharedSubscription>)
    ensures
        match shared_subscription_parts(filter@) {
            None => res is None,
            Some((share, topic)) => res matches Some(s) && s.share_name@ == share
                && s.topic_filter@ == topic,
        },
{
    let f = chars_of(filter);
    let n = f.len();
    if n < 7 || f[0] != '$' || f[1] != 's' || f[2] != 'h' || f[3] != 'a' || f[4] != 'r' || f[5]
        != 'e' || f[6] != '/' {
        proof {
            if n >= 7 {
                assert(f@.take(7) != share_prefix()) by {
                    if f@.take(7) == share_prefix() {
                        assert(f@.take(7)[0] == '$');
                        assert(f@.take(7)[1] == 's');
                        assert(f@.take(7)[2] == 'h');
                        assert(f@.take(7)[3] == 'a');
                        assert(f@.take(7)[4] == 'r');
                        assert(f@.take(7)[5] == 'e');
                        assert(f@.take(7)[6] == '/');
                    }
                }
            }
        }
        return None;
    }
    assert(f@.take(7) =~= share_prefix());
    let ghost a = f@.skip(7);
    let mut i: usize = 7;
    while i < n && f[i] != '/'
        invariant
            7 <= i <= n,
            n == f@.len(),
            a == f@.skip(7),
            slash_from(a, 0) == slash_from(a, i - 7),
        decreases n - i,
    {
        i += 1;
    }
    if i == n {
        return None;
    }
    if i == 7 || i + 1 == n {
        return None;
    }
    let share_name = filter.substring_char(7, i).to_owned();
    let topic_filter = filter.substring_char(i + 1, n).to_owned();
    assert(share_name@ =~= a.take(i - 7));
    assert(topic_filter@ =~= a.skip(i - 7 + 1));
    Some(SharedSubscription { share_name, topic_filter })
}

/// The rule for a topic filter in MQTT v5.0: a shared subscription needs a
/// share name without '/', '+' or '#', and its filter part follows the
/// MQTT v3.1.1 rule; any other filter follows that rule directly.
pub open spec fn topic_filter_error_v5(f: Seq<char>) -> Option<ErrorKind> {
    match shared_subscription_parts(f) {
        Some((share, topic)) => if share.len() == 0 {
            Some(ErrorKind::InvalidTopicFilter { filter: f, reason: TopicFilterErrorReason::Empty })
        } else if share.contains('/') || share.contains('+') || share.contains('#') {
            Some(
                ErrorKind::InvalidTopicFilter {
                    filter: f,
                    reason: TopicFilterErrorReason::InvalidMultiLevelWildcard,
                },
            )
        } else {
            topic_filter_error(topic)
        },
        None => topic_filter_error(f),
    }
}

/// Validates a topic filter for SUBSCRIBE and UNSUBSCRIBE, including shared subscriptions.
pub fn validate_topic_filter(filter: &str) -> (res: Result<(), MqttError>)
    ensures
        result_agrees(res, topic_filter_error_v5(filter@)),
{
    match parse_shared_subscription(filter) {
        Some(shared) => {
            let share = chars_of(shared.share_name.as_str());
            if share.len() == 0 {
                return Err(MqttError::invalid_topic_filter(filter, TopicFilterErrorReason::Empty));
            }
            if contains_char(&share, '/') || contains_char(&share, '+') || contains_char(
                &share,
                '#',
            ) {
                return Err(
                    MqttError::invalid_topic_filter(
                        filter,
                        TopicFilterErrorReason::InvalidMultiLevelWildcard,
                    ),
                );
            }
            v4::validate_topic_filter(shared.topic_filter.as_str())
        },
        None => v4::validate_topic_filter(filter),
    }
}

// ============================================================================
// Reason codes
// ============================================================================

/// Whether `code` is a valid reason code in a packet of type `t`; packet
/// types without reason codes accept every code.
pub open spec fn reason_code_allowed(code: ReasonCode, t: PacketType) -> bool {
    match t {
        PacketType::ConnAck => match code {
            ReasonCode::Success | ReasonCode::UnspecifiedError | ReasonCode::MalformedPacket
            | ReasonCode::ProtocolError | ReasonCode::ImplementationSpecificError
            | ReasonCode::UnsupportedProtocolVersion | ReasonCode::ClientIdentifierNotValid
            | ReasonCode::BadUserNameOrPassword | ReasonCode::NotAuthorized
            | ReasonCode::ServerUnavailable | ReasonCode::ServerBusy | ReasonCode::Banned
            | ReasonCode::BadAuthenticationMethod | ReasonCode::TopicNameInvalid
            | ReasonCode::ReceiveMaximumExceeded | ReasonCode::TopicAliasInvalid
            | ReasonCode::QuotaExceeded | ReasonCode::PayloadFormatInvalid
            | ReasonCode::RetainNotSupported | ReasonCode::QoSNotSupported
            | ReasonCode::UseAnotherServer | ReasonCode::ServerMoved
            | ReasonCode::ConnectionRateExceeded => true,
            _ => false,
        },
        PacketType::PubAck | PacketType::PubRec => match code {
            ReasonCode::Success | ReasonCode::NoMatchingSubscribers | ReasonCode::UnspecifiedError
            | ReasonCode::ImplementationSpecificError | ReasonCode::TopicNameInvalid
            | ReasonCode::PacketIdentifierNotFound | ReasonCode::QuotaExceeded
            | ReasonCode::PayloadFormatInvalid => true,
            _ => false,
        },
        PacketType::PubRel | PacketType::PubComp => match code {
            ReasonCode::Success | ReasonCode::PacketIdentifierNotFound => true,
            _ => false,
        },
        PacketType::SubAck => match code {
            ReasonCode::Success | ReasonCode::GrantedQoS1 | ReasonCode::GrantedQoS2
            | ReasonCode::UnspecifiedError | ReasonCode::ImplementationSpecificError
            | ReasonCode::NotAuthorized | ReasonCode::TopicFilterInvalid
            | ReasonCode::TopicNameInvalid | ReasonCode::QuotaExceeded
            | ReasonCode::SharedSubscriptionNotSupported
            | ReasonCode::SubscriptionIdentifiersNotSupported
            | ReasonCode::WildcardSubscriptionsNotSupported => true,
            _ => false,
        },
        PacketType::UnsubAck => match code {
            ReasonCode::Success | ReasonCode::NoMatchingSubscribers | ReasonCode::UnspecifiedError
            | ReasonCode::ImplementationSpecificError | ReasonCode::NotAuthorized
            | ReasonCode::TopicFilterInvalid | ReasonCode::TopicNameInvalid
            | ReasonCode::QuotaExceeded => true,
            _ => false,
        },
        PacketType::Disconnect => match code {
            ReasonCode::Success | ReasonCode::DisconnectWithWillMessage
            | ReasonCode::UnspecifiedError | ReasonCode::MalformedPacket
            | ReasonCode::ProtocolError | ReasonCode::ImplementationSpecificError
            | ReasonCode::NotAuthorized | ReasonCode::ServerBusy | ReasonCode::ServerShuttingDown
            | ReasonCode::BadAuthenticationMethod | ReasonCode::KeepAliveTimeout
            | ReasonCode::SessionTakenOver | ReasonCode::TopicFilterInvalid
            | ReasonCode::TopicNameInvalid | ReasonCode::ReceiveMaximumExceeded
            | ReasonCode::TopicAliasInvalid | ReasonCode::MessageRateTooHigh
            | ReasonCode::QuotaExceeded | ReasonCode::AdministrativeAction
            | ReasonCode::PayloadFormatInvalid | ReasonCode::RetainNotSupported
            | ReasonCode::QoSNotSupported | ReasonCode::UseAnotherServer | ReasonCode::ServerMoved
            | ReasonCode::SharedSubscriptionNotSupported | ReasonCode::MaximumConnectTime
            | ReasonCode::SubscriptionIdentifiersNotSupported
            | ReasonCode::WildcardSubscriptionsNotSupported => true,
            _ => false,
        },
        PacketType::Auth => match code {
            ReasonCode::Success | ReasonCode::ContinueAuthentication
            | ReasonCode::ReAuthenticate => true,
            _ => false,
        },
        _ => true,
    }
}

/// The rule for a reason code in a packet of type `t`.
pub open spec fn reason_code_error(code: ReasonCode, t: PacketType) -> Option<ErrorKind> {
    if reason_code_allowed(code, t) {
        None
    } else {
        Some(
            ErrorKind::InvalidReasonCode {
                code: super::packet::reason_code_value(code),
                context: packet_type_name(t),
            },
        )
    }
}

/// Checks if a reason code is valid for CONNACK.
fn is_valid_connack_reason_code(code: ReasonCode) -> (b: bool)
    ensures
        b == reason_code_allowed(code, PacketType::ConnAck),
{
    match code {
        ReasonCode::Success | ReasonCode::UnspecifiedError | ReasonCode::MalformedPacket
        | ReasonCode::ProtocolError | ReasonCode::ImplementationSpecificError
        | ReasonCode::UnsupportedProtocolVersion | ReasonCode::ClientIdentifierNotValid
        | ReasonCode::BadUserNameOrPassword | ReasonCode::NotAuthorized
        | ReasonCode::ServerUnavailable | ReasonCode::ServerBusy | ReasonCode::Banned
        | ReasonCode::BadAuthenticationMethod | ReasonCode::TopicNameInvalid
        | ReasonCode::ReceiveMaximumExceeded | ReasonCode::TopicAliasInvalid
        | ReasonCode::QuotaExceeded | ReasonCode::PayloadFormatInvalid
        | ReasonCode::RetainNotSupported | ReasonCode::QoSNotSupported
        | ReasonCode::UseAnotherServer | ReasonCode::ServerMoved
        | ReasonCode::ConnectionRateExceeded => true,
        _ => false,
    }
}

/// Checks if a reason code is valid for PUBACK.
fn is_valid_puback_reason_code(code: ReasonCode) -> (b: bool)
    ensures
        b == reason_code_allowed(code, PacketType::PubAck),
{
    match code {
        ReasonCode::Success | ReasonCode::NoMatchingSubscribers | ReasonCode::UnspecifiedError
        | ReasonCode::ImplementationSpecificError | ReasonCode::TopicNameInvalid
        | ReasonCode::PacketIdentifierNotFound | ReasonCode::QuotaExceeded
        | ReasonCode::PayloadFormatInvalid => true,
        _ => false,
    }
}

/// Checks if a reason code is valid for PUBREC.
fn is_valid_pubrec_reason_code(code: ReasonCode) -> (b: bool)
    ensures
        b == reason_code_allowed(code, PacketType::PubRec),
{
    match code {
        ReasonCode::Success | ReasonCode::NoMatchingSubscribers | ReasonCode::UnspecifiedError
        | ReasonCode::ImplementationSpecificError | ReasonCode::TopicNameInvalid
        | ReasonCode::PacketIdentifierNotFound | ReasonCode::QuotaExceeded
        | ReasonCode::PayloadFormatInvalid => true,
        _ => false,
    }
}

/// Checks if a reason code is valid for PUBREL.
fn is_valid_pubrel_reason_code(code: ReasonCode) -> (b: bool)
    ensures
        b == reason_code_allowed(code, PacketType::PubRel),
{
    match code {
        ReasonCode::Success | ReasonCode::PacketIdentifierNotFound => true,
        _ => false,
    }
}

/// Checks if a reason code is valid for PUBCOMP.
fn is_valid_pubcomp_reason_code(code: ReasonCode) -> (b: bool)
    ensures
        b == reason_code_allowed(code, PacketType::PubComp),
{
    match code {
        ReasonCode::Success | ReasonCode::PacketIdentifierNotFound => true,
        _ => false,
    }
}

/// Checks if a reason code is valid for SUBACK.
fn is_valid_suback_reason_code(code: ReasonCode) -> (b: bool)
    ensures
        b == reason_code_allowed(code, PacketType::SubAck),
{
    match code {
        ReasonCode::Success | ReasonCode::GrantedQoS1 | ReasonCode::GrantedQoS2
        | ReasonCode::UnspecifiedError | ReasonCode::ImplementationSpecificError
        | ReasonCode::NotAuthorized | ReasonCode::TopicFilterInvalid | ReasonCode::TopicNameInvalid
        | ReasonCode::QuotaExceeded | ReasonCode::SharedSubscriptionNotSupported
        | ReasonCode::SubscriptionIdentifiersNotSupported
        | ReasonCode::WildcardSubscriptionsNotSupported => true,
        _ => false,
    }
}

/// Checks if a reason code is valid for UNSUBACK.
fn is_valid_unsuback_reason_code(code: ReasonCode) -> (b: bool)
    ensures
        b == reason_code_allowed(code, PacketType::UnsubAck),
{
    match code {
        ReasonCode::Success | ReasonCode::NoMatchingSubscribers | ReasonCode::UnspecifiedError
        | ReasonCode::ImplementationSpecificError | ReasonCode::NotAuthorized
        | ReasonCode::TopicFilterInvalid | ReasonCode::TopicNameInvalid
        | ReasonCode::QuotaExceeded => true,
        _ => false,
    }
}

/// Checks if a reason code is valid for DISCONNECT.
fn is_valid_disconnect_reason_code(code: ReasonCode) -> (b: bool)
    ensures
        b == reason_code_allowed(code, PacketType::Disconnect),
{
    match code {
        ReasonCode::Success | ReasonCode::DisconnectWithWillMessage | ReasonCode::UnspecifiedError
        | ReasonCode::MalformedPacket | ReasonCode::ProtocolError
        | ReasonCode::ImplementationSpecificError | ReasonCode::NotAuthorized
        | ReasonCode::ServerBusy | ReasonCode::ServerShuttingDown
        | ReasonCode::BadAuthenticationMethod | ReasonCode::KeepAliveTimeout
        | ReasonCode::SessionTakenOver | ReasonCode::TopicFilterInvalid
        | ReasonCode::TopicNameInvalid | ReasonCode::ReceiveMaximumExceeded
        | ReasonCode::TopicAliasInvalid | ReasonCode::MessageRateTooHigh
        | ReasonCode::QuotaExceeded | ReasonCode::AdministrativeAction
        | ReasonCode::PayloadFormatInvalid | ReasonCode::RetainNotSupported
        | ReasonCode::QoSNotSupported | ReasonCode::UseAnotherServer | ReasonCode::ServerMoved
        | ReasonCode::SharedSubscriptionNotSupported | ReasonCode::MaximumConnectTime
        | ReasonCode::SubscriptionIdentifiersNotSupported
        | ReasonCode::WildcardSubscriptionsNotSupported => true,
        _ => false,
    }
}

/// Checks if a reason code is valid for AUTH.
fn is_valid_auth_reason_code(code: ReasonCode) -> (b: bool)
    ensures
        b == reason_code_allowed(code, PacketType::Auth),
{
    match code {
        ReasonCode::Success | ReasonCode::ContinueAuthentication | ReasonCode::ReAuthenticate => true,
        _ => false,
    }
}

/// Validates that a reason code is valid for the given packet type.
pub fn validate_reason_code_for_packet(code: ReasonCode, packet_type: PacketType) -> (res: Result<
    (),
    MqttError,
>)
    ensures
        result_agrees(res, reason_code_error(code, packet_type)),
{
    let valid = match packet_type {
        PacketType::ConnAck => is_valid_connack_reason_code(code),
        PacketType::PubAck => is_valid_puback_reason_code(code),
        PacketType::PubRec => is_valid_pubrec_reason_code(code),
        PacketType::PubRel => is_valid_pubrel_reason_code(code),
        PacketType::PubComp => is_valid_pubcomp_reason_code(code),
        PacketType::SubAck => is_valid_suback_reason_code(code),
        PacketType::UnsubAck => is_valid_unsuback_reason_code(code),
        PacketType::Disconnect => is_valid_disconnect_reason_code(code),
        PacketType::Auth => is_valid_auth_reason_code(code),
        _ => true,
    };
    if !valid {
        return Err(MqttError::invalid_reason_code(code.as_u8(), packet_type.name()));
    }
    Ok(())
}

// ============================================================================
// Fixed header
// ============================================================================

/// The message for fixed header flags that a packet type does not allow.
pub open spec fn flags_text(t: PacketType) -> Seq<char> {
    match t {
        PacketType::Connect => "CONNECT reserved bits must be 0"@,
        PacketType::ConnAck => "CONNACK reserved bits must be 0"@,
        PacketType::Publish => "PUBLISH QoS value 3 is reserved"@,
        PacketType::PubAck => "PUBACK reserved bits must be 0"@,
        PacketType::PubRec => "PUBREC reserved bits must be 0"@,
        PacketType::PubRel => "PUBREL reserved bits must be 0010"@,
        PacketType::PubComp => "PUBCOMP reserved bits must be 0"@,
        PacketType::Subscribe => "SUBSCRIBE reserved bits must be 0010"@,
        PacketType::SubAck => "SUBACK reserved bits must be 0"@,
        PacketType::Unsubscribe => "UNSUBSCRIBE reserved bits must be 0010"@,
        PacketType::UnsubAck => "UNSUBACK reserved bits must be 0"@,
        PacketType::PingReq => "PINGREQ reserved bits must be 0"@,
        PacketType::PingResp => "PINGRESP reserved bits must be 0"@,
        PacketType::Disconnect => "DISCONNECT reserved bits must be 0"@,
        PacketType::Auth => "AUTH reserved bits must be 0"@,
    }
}

/// The message for fixed header flags that a packet type does not allow.
fn flags_message(t: PacketType) -> (s: &'static str)
    ensures
        s@ == flags_text(t),
{
    match t {
        PacketType::Connect => "CONNECT reserved bits must be 0",
        PacketType::ConnAck => "CONNACK reserved bits must be 0",
        PacketType::Publish => "PUBLISH QoS value 3 is reserved",
        PacketType::PubAck => "PUBACK reserved bits must be 0",
        PacketType::PubRec => "PUBREC reserved bits must be 0",
        PacketType::PubRel => "PUBREL reserved bits must be 0010",
        PacketType::PubComp => "PUBCOMP reserved bits must be 0",
        PacketType::Subscribe => "SUBSCRIBE reserved bits must be 0010",
        PacketType::SubAck => "SUBACK reserved bits must be 0",
        PacketType::Unsubscribe => "UNSUBSCRIBE reserved bits must be 0010",
        PacketType::UnsubAck => "UNSUBACK reserved bits must be 0",
        PacketType::PingReq => "PINGREQ reserved bits must be 0",
        PacketType::PingResp => "PINGRESP reserved bits must be 0",
        PacketType::Disconnect => "DISCONNECT reserved bits must be 0",
        PacketType::Auth => "AUTH reserved bits must be 0",
    }
}

/// The rule for fixed header flags: PUBLISH may not use QoS 3; PUBREL,
/// SUBSCRIBE and UNSUBSCRIBE carry 0010; all others carry 0000.
pub open spec fn fixed_header_flags_error(t: PacketType, flags: u8) -> Option<ErrorKind> {
    let n = super::packet::packet_type_value(t);
    match t {
        PacketType::Publish => if (flags / 2) % 4 == 3 {
            violation(flags_text(t), Some(3))
        } else {
            None
        },
        PacketType::PubRel | PacketType::Subscribe | PacketType::Unsubscribe => if flags != 2 {
            violation(flags_text(t), Some(n))
        } else {
            None
        },
        _ => if flags != 0 {
            violation(flags_text(t), Some(n))
        } else {
            None
        },
    }
}

/// Validates the fixed header flags for a given packet type.
pub fn validate_fixed_header_flags(packet_type: PacketType, flags: u8) -> (res: Result<
    (),
    MqttError,
>)
    ensures
        result_agrees(res, fixed_header_flags_error(packet_type, flags)),
{
    match packet_type {
        PacketType::Publish => {
            let qos = (flags >> 1) & 0x03;
            assert(((flags >> 1) & 0x03) == (flags / 2) % 4) by (bit_vector);
            if qos == 3 {
                return Err(MqttError::protocol_violation(flags_message(packet_type), Some(3)));
            }
        },
        PacketType::PubRel | PacketType::Subscribe | PacketType::Unsubscribe => {
            if flags != 0x02 {
                return Err(
                    MqttError::protocol_violation(
                        flags_message(packet_type),
                        Some(packet_type.as_u8()),
                    ),
                );
            }
        },
        _ => {
            if flags != 0 {
                return Err(
                    MqttError::protocol_violation(
                        flags_message(packet_type),
                        Some(packet_type.as_u8()),
                    ),
                );
            }
        },
    }
    Ok(())
}

// ============================================================================
// Packet-level rules
// ============================================================================

/// QoS 0 carries no packet identifier; QoS 1 and 2 carry a non-zero one.
pub open spec fn qos_packet_id_error(qos: QoS, packet_id: Option<u16>) -> Option<ErrorKind> {
    match qos {
        QoS::AtMostOnce => if packet_id is Some {
            violation("Packet identifier must not be present for QoS 0"@, None)
        } else {
            None
        },
        _ => match packet_id {
            Some(id) => packet_id_error(id),
            None => violation("Packet identifier is required for QoS 1 and QoS 2"@, None),
        },
    }
}

/// Payload Format Indicator is 0 or 1, and Topic Alias is not 0.
pub open spec fn property_values_error(props: Properties) -> Option<ErrorKind> {
    if props.payload_format_indicator matches Some(v) && v > 1 {
        violation("Payload Format Indicator must be 0 or 1"@, None)
    } else if props.topic_alias == Some(0u16) {
        violation("Topic Alias must not be 0"@, None)
    } else {
        None
    }
}

/// A PUBLISH topic: a non-zero Topic Alias if present; an empty topic needs
/// such an alias, a non-empty one must be a valid topic name.
pub open spec fn publish_topic_error(topic: Seq<char>, topic_alias: Option<u16>) -> Option<ErrorKind> {
    if topic_alias == Some(0u16) {
        violation("Topic Alias must not be 0"@, None)
    } else if topic.len() == 0 {
        if topic_alias is None {
            violation("Topic name is empty and no Topic Alias is set"@, Some(3))
        } else {
            None
        }
    } else {
        topic_name_error(topic)
    }
}

/// The rule for a PUBLISH packet, its parts checked in order.
pub open spec fn publish_error(p: PublishPacket) -> Option<ErrorKind> {
    first_error(
        seq![
            publish_topic_error(p.topic_name@, p.properties.topic_alias),
            qos_packet_id_error(p.qos, p.packet_id),
            if p.qos == QoS::AtMostOnce && p.duplicate {
                violation("DUP flag must not be set for QoS 0 messages"@, Some(3))
            } else {
                None
            },
            property_values_error(p.properties),
            property_scope_error(p.properties, PacketType::Publish),
        ],
    )
}

/// The rule for a CONNACK packet.
pub open spec fn connack_error(p: ConnAckPacket) -> Option<ErrorKind> {
    first_error(
        seq![
            if p.session_present && p.reason_code != ReasonCode::Success {
                violation("Session Present must be 0 when Reason Code is not Success"@, Some(2))
            } else {
                None
            },
            reason_code_error(p.reason_code, PacketType::ConnAck),
            property_values_error(p.properties),
            property_scope_error(p.properties, PacketType::ConnAck),
        ],
    )
}

/// The rule for packets that hold a reason code and properties (DISCONNECT, AUTH).
pub open spec fn reason_and_properties_error(
    code: ReasonCode,
    props: Properties,
    t: PacketType,
) -> Option<ErrorKind> {
    first_error(
        seq![
            reason_code_error(code, t),
            property_values_error(props),
            property_scope_error(props, t),
        ],
    )
}

/// The rule for PUBACK, PUBREC, PUBREL and PUBCOMP packets.
pub open spec fn puback_like_error(
    packet_id: u16,
    code: ReasonCode,
    props: Properties,
    t: PacketType,
) -> Option<ErrorKind> {
    first_error(
        seq![
            packet_id_error(packet_id),
            reason_code_error(code, t),
            property_values_error(props),
            property_scope_error(props, t),
        ],
    )
}

/// The rule for a subscription option.
pub open spec fn subscription_option_error(o: SubscriptionOption) -> Option<ErrorKind> {
    if topic_filter_error_v5(o.topic_filter@) is Some {
        topic_filter_error_v5(o.topic_filter@)
    } else if o.retain_handling > 2 {
        violation("Retain handling must be 0, 1, or 2"@, Some(8))
    } else {
        None
    }
}

/// The rule for a SUBSCRIBE packet.
pub open spec fn subscribe_error(p: SubscribePacket) -> Option<ErrorKind> {
    first_error(
        seq![
            packet_id_error(p.packet_id),
            if p.topics@.len() == 0 {
                violation("SUBSCRIBE must contain at least one topic filter"@, Some(8))
            } else {
                None
            },
            property_values_error(p.properties),
            property_scope_error(p.properties, PacketType::Subscribe),
            first_error(p.topics@.map_values(|o: SubscriptionOption| subscription_option_error(o))),
        ],
    )
}

/// The message for a SUBACK or UNSUBACK without reason codes.
pub open spec fn empty_ack_text(t: PacketType) -> Seq<char> {
    if t == PacketType::SubAck {
        "SUBACK must contain at least one reason code"@
    } else {
        "UNSUBACK must contain at least one reason code"@
    }
}

/// The rule for a SUBACK or UNSUBACK packet.
pub open spec fn ack_list_error(
    packet_id: u16,
    props: Properties,
    codes: Seq<ReasonCode>,
    t: PacketType,
) -> Option<ErrorKind> {
    first_error(
        seq![
            packet_id_error(packet_id),
            if codes.len() == 0 {
                violation(empty_ack_text(t), Some(super::packet::packet_type_value(t)))
            } else {
                None
            },
            property_values_error(props),
            property_scope_error(props, t),
            first_error(codes.map_values(|c: ReasonCode| reason_code_error(c, t))),
        ],
    )
}

/// The rule for an UNSUBSCRIBE packet.
pub open spec fn unsubscribe_error(p: UnsubscribePacket) -> Option<ErrorKind> {
    first_error(
        seq![
            packet_id_error(p.packet_id),
            if p.topics@.len() == 0 {
                violation("UNSUBSCRIBE must contain at least one topic filter"@, Some(10))
            } else {
                None
            },
            property_values_error(p.properties),
            property_scope_error(p.properties, PacketType::Unsubscribe),
            first_error(p.topics@.map_values(|f: String| topic_filter_error_v5(f@))),
        ],
    )
}

/// The rule for any MQTT v5.0 packet.
pub open spec fn packet_error(p: Packet) -> Option<ErrorKind> {
    match p {
        Packet::Connect(x) => connect_error(x),
        Packet::ConnAck(x) => connack_error(x),
        Packet::Publish(x) => publish_error(x),
        Packet::PubAck(x) => puback_like_error(x.packet_id, x.reason_code, x.properties, PacketType::PubAck),
        Packet::PubRec(x) => puback_like_error(x.packet_id, x.reason_code, x.properties, PacketType::PubRec),
        Packet::PubRel(x) => puback_like_error(x.packet_id, x.reason_code, x.properties, PacketType::PubRel),
        Packet::PubComp(x) => puback_like_error(x.packet_id, x.reason_code, x.properties, PacketType::PubComp),
        Packet::Subscribe(x) => subscribe_error(x),
        Packet::SubAck(x) => ack_list_error(x.packet_id, x.properties, x.reason_codes@, PacketType::SubAck),
        Packet::Unsubscribe(x) => unsubscribe_error(x),
        Packet::UnsubAck(x) => ack_list_error(x.packet_id, x.properties, x.reason_codes@, PacketType::UnsubAck),
        Packet::PingReq(_) | Packet::PingResp(_) => None,
        Packet::Disconnect(x) => reason_and_properties_error(x.reason_code, x.properties, PacketType::Disconnect),
        Packet::Auth(x) => reason_and_properties_error(x.reason_code, x.properties, PacketType::Auth),
    }
}

/// Validates QoS level and packet identifier consistency.
pub fn validate_qos_packet_id(qos: QoS, packet_id: Option<u16>) -> (res: Result<(), MqttError>)
    ensures
        result_agrees(res, qos_packet_id_error(qos, packet_id)),
{
    match qos {
        QoS::AtMostOnce => {
            if packet_id.is_some() {
                return Err(
                    MqttError::protocol_violation(
                        "Packet identifier must not be present for QoS 0",
                        None,
                    ),
                );
            }
        },
        _ => match packet_id {
            Some(id) => v4::validate_packet_id(id)?,
            None => {
                return Err(
                    MqttError::protocol_violation(
                        "Packet identifier is required for QoS 1 and QoS 2",
                        None,
                    ),
                );
            },
        },
    }
    Ok(())
}

/// Validates common property value constraints.
pub fn validate_property_values(props: &Properties) -> (res: Result<(), MqttError>)
    ensures
        result_agrees(res, property_values_error(*props)),
{
    match props.payload_format_indicator {
        Some(pfi) => {
            if pfi > 1 {
                return Err(
                    MqttError::protocol_violation("Payload Format Indicator must be 0 or 1", None),
                );
            }
        },
        None => {},
    }
    match props.topic_alias {
        Some(alias) => {
            if alias == 0 {
                return Err(MqttError::protocol_violation("Topic Alias must not be 0", None));
            }
        },
        None => {},
    }
    Ok(())
}

/// Validates a PUBLISH topic name together with an optional Topic Alias.
pub fn validate_publish_topic(topic: &str, topic_alias: Option<u16>) -> (res: Result<
    (),
    MqttError,
>)
    ensures
        result_agrees(res, publish_topic_error(topic@, topic_alias)),
{
    let mut alias_props = Properties::new();
    alias_props.topic_alias = topic_alias;
    validate_property_values(&alias_props)?;
    let has_alias = match topic_alias {
        Some(a) => a != 0,
        None => false,
    };
    if topic.is_empty() {
        if !has_alias {
            return Err(
                MqttError::protocol_violation(
                    "Topic name is empty and no Topic Alias is set",
                    Some(3),
                ),
            );
        }
    } else {
        validate_topic_name(topic)?;
    }
    Ok(())
}

/// Validates a PUBLISH packet.
pub fn validate_publish_packet(packet: &PublishPacket) -> (res: Result<(), MqttError>)
    ensures
        result_agrees(res, publish_error(*packet)),
{
    reveal_with_fuel(first_error, 6);
    validate_publish_topic(packet.topic_name.as_str(), packet.properties.topic_alias)?;
    validate_qos_packet_id(packet.qos, packet.packet_id)?;
    if packet.qos == QoS::AtMostOnce && packet.duplicate {
        return Err(
            MqttError::protocol_violation("DUP flag must not be set for QoS 0 messages", Some(3)),
        );
    }
    validate_property_values(&packet.properties)?;
    validate_property_scope(&packet.properties, PacketType::Publish)?;
    Ok(())
}

/// Validates a CONNACK packet.
pub fn validate_connack_packet(packet: &ConnAckPacket) -> (res: Result<(), MqttError>)
    ensures
        result_agrees(res, connack_error(*packet)),
{
    reveal_with_fuel(first_error, 5);
    if packet.session_present && packet.reason_code != ReasonCode::Success {
        return Err(
            MqttError::protocol_violation(
                "Session Present must be 0 when Reason Code is not Success",
                Some(2),
            ),
        );
    }
    validate_reason_code_for_packet(packet.reason_code, PacketType::ConnAck)?;
    validate_property_values(&packet.properties)?;
    validate_property_scope(&packet.properties, PacketType::ConnAck)?;
    Ok(())
}

/// Validates a packet made of a reason code and properties.
fn validate_reason_and_properties(
    code: ReasonCode,
    props: &Properties,
    packet_type: PacketType,
) -> (res: Result<(), MqttError>)
    ensures
        result_agrees(res, reason_and_properties_error(code, *props, packet_type)),
{
    reveal_with_fuel(first_error, 4);
    validate_reason_code_for_packet(code, packet_type)?;
    validate_property_values(props)?;
    validate_property_scope(props, packet_type)?;
    Ok(())
}

/// Validates a DISCONNECT packet.
pub fn validate_disconnect_packet(packet: &DisconnectPacket) -> (res: Result<(), MqttError>)
    ensures
        result_agrees(
            res,
            reason_and_properties_error(packet.reason_code, packet.properties, PacketType::Disconnect),
        ),
{
    validate_reason_and_properties(packet.reason_code, &packet.properties, PacketType::Disconnect)
}

/// Validates an AUTH packet.
pub fn validate_auth_packet(packet: &AuthPacket) -> (res: Result<(), MqttError>)
    ensures
        result_agrees(
            res,
            reason_and_properties_error(packet.reason_code, packet.properties, PacketType::Auth),
        ),
{
    validate_reason_and_properties(packet.reason_code, &packet.properties, PacketType::Auth)
}

/// Validates a subscription option in SUBSCRIBE.
pub fn validate_subscription_option(option: &SubscriptionOption) -> (res: Result<(), MqttError>)
    ensures
        result_agrees(res, subscription_option_error(*option)),
{
    validate_topic_filter(option.topic_filter.as_str())?;
    if option.retain_handling > 2 {
        return Err(MqttError::protocol_violation("Retain handling must be 0, 1, or 2", Some(8)));
    }
    Ok(())
}

/// Validates each subscription option in order.
fn validate_subscription_options(topics: &Vec<SubscriptionOption>) -> (res: Result<(), MqttError>)
    ensures
        result_agrees(
            res,
            first_error(topics@.map_values(|o: SubscriptionOption| subscription_option_error(o))),
        ),
{
    let ghost errs = topics@.map_values(|o: SubscriptionOption| subscription_option_error(o));
    assert(errs.skip(0) =~= errs);
    let mut i: usize = 0;
    while i < topics.len()
        invariant
            i <= topics@.len(),
            errs == topics@.map_values(|o: SubscriptionOption| subscription_option_error(o)),
            first_error(errs) == first_error(errs.skip(i as int)),
        decreases topics@.len() - i,
    {
        assert(errs.skip(i as int)[0] == errs[i as int]);
        validate_subscription_option(&topics[i])?;
        proof {
            lemma_first_error_step(errs, i as int);
        }
        i += 1;
    }
    assert(errs.skip(i as int).len() == 0);
    Ok(())
}

/// Validates each reason code in order for packet type `t`.
fn validate_reason_codes(codes: &Vec<ReasonCode>, t: PacketType) -> (res: Result<(), MqttError>)
    ensures
        result_agrees(res, first_error(codes@.map_values(|c: ReasonCode| reason_code_error(c, t)))),
{
    let ghost errs = codes@.map_values(|c: ReasonCode| reason_code_error(c, t));
    assert(errs.skip(0) =~= errs);
    let mut i: usize = 0;
    while i < codes.len()
        invariant
            i <= codes@.len(),
            errs == codes@.map_values(|c: ReasonCode| reason_code_error(c, t)),
            first_error(errs) == first_error(errs.skip(i as int)),
        decreases codes@.len() - i,
    {
        assert(errs.skip(i as int)[0] == errs[i as int]);
        validate_reason_code_for_packet(codes[i], t)?;
        proof {
            lemma_first_error_step(errs, i as int);
        }
        i += 1;
    }
    assert(errs.skip(i as int).len() == 0);
    Ok(())
}

/// Validates each topic filter in order.
fn validate_topic_filters(filters: &Vec<String>) -> (res: Result<(), MqttError>)
    ensures
        result_agrees(res, first_error(filters@.map_values(|f: String| topic_filter_error_v5(f@)))),
{
    let ghost errs = filters@.map_values(|f: String| topic_filter_error_v5(f@));
    assert(errs.skip(0) =~= errs);
    let mut i: usize = 0;
    while i < filters.len()
        invariant
            i <= filters@.len(),
            errs == filters@.map_values(|f: String| topic_filter_error_v5(f@)),
            first_error(errs) == first_error(errs.skip(i as int)),
        decreases filters@.len() - i,
    {
        assert(errs.skip(i as int)[0] == errs[i as int]);
        validate_topic_filter(filters[i].as_str())?;
        proof {
            lemma_first_error_step(errs, i as int);
        }
        i += 1;
    }
    assert(errs.skip(i as int).len() == 0);
    Ok(())
}

/// Validates a SUBSCRIBE packet.
pub fn validate_subscribe_packet(packet: &SubscribePacket) -> (res: Result<(), MqttError>)
    ensures
        result_agrees(res, subscribe_error(*packet)),
{
    reveal_with_fuel(first_error, 6);
    v4::validate_packet_id(packet.packet_id)?;
    if packet.topics.len() == 0 {
        return Err(
            MqttError::protocol_violation("SUBSCRIBE must contain at least one topic filter", Some(8)),
        );
    }
    validate_property_values(&packet.properties)?;
    validate_property_scope(&packet.properties, PacketType::Subscribe)?;
    validate_subscription_options(&packet.topics)?;
    Ok(())
}

/// Validates a SUBACK or UNSUBACK packet.
fn validate_ack_list(
    packet_id: u16,
    props: &Properties,
    codes: &Vec<ReasonCode>,
    packet_type: PacketType,
) -> (res: Result<(), MqttError>)
    requires
        packet_type == PacketType::SubAck || packet_type == PacketType::UnsubAck,
    ensures
        result_agrees(res, ack_list_error(packet_id, *props, codes@, packet_type)),
{
    reveal_with_fuel(first_error, 6);
    v4::validate_packet_id(packet_id)?;
    if codes.len() == 0 {
        let message = match packet_type {
            PacketType::SubAck => "SUBACK must contain at least one reason code",
            _ => "UNSUBACK must contain at least one reason code",
        };
        return Err(MqttError::protocol_violation(message, Some(packet_type.as_u8())));
    }
    validate_property_values(props)?;
    validate_property_scope(props, packet_type)?;
    validate_reason_codes(codes, packet_type)?;
    Ok(())
}

/// Validates a SUBACK packet.
pub fn validate_suback_packet(packet: &SubAckPacket) -> (res: Result<(), MqttError>)
    ensures
        result_agrees(
            res,
            ack_list_error(packet.packet_id, packet.properties, packet.reason_codes@, PacketType::SubAck),
        ),
{
    validate_ack_list(packet.packet_id, &packet.properties, &packet.reason_codes, PacketType::SubAck)
}

/// Validates an UNSUBSCRIBE packet.
pub fn validate_unsubscribe_packet(packet: &UnsubscribePacket) -> (res: Result<(), MqttError>)
    ensures
        result_agrees(res, unsubscribe_error(*packet)),
{
    reveal_with_fuel(first_error, 6);
    v4::validate_packet_id(packet.packet_id)?;
    if packet.topics.len() == 0 {
        return Err(
            MqttError::protocol_violation(
                "UNSUBSCRIBE must contain at least one topic filter",
                Some(10),
            ),
        );
    }
    validate_property_values(&packet.properties)?;
    validate_property_scope(&packet.properties, PacketType::Unsubscribe)?;
    validate_topic_filters(&packet.topics)?;
    Ok(())
}

/// Validates an UNSUBACK packet.
pub fn validate_unsuback_packet(packet: &UnsubAckPacket) -> (res: Result<(), MqttError>)
    ensures
        result_agrees(
            res,
            ack_list_error(
                packet.packet_id,
                packet.properties,
                packet.reason_codes@,
                PacketType::UnsubAck,
            ),
        ),
{
    validate_ack_list(
        packet.packet_id,
        &packet.properties,
        &packet.reason_codes,
        PacketType::UnsubAck,
    )
}

/// Validates a PUBACK-like packet: identifier, reason code and properties.
fn validate_puback_like(
    packet_id: u16,
    reason_code: ReasonCode,
    properties: &Properties,
    packet_type: PacketType,
) -> (res: Result<(), MqttError>)
    ensures
        result_agrees(res, puback_like_error(packet_id, reason_code, *properties, packet_type)),
{
    reveal_with_fuel(first_error, 5);
    v4::validate_packet_id(packet_id)?;
    validate_reason_code_for_packet(reason_code, packet_type)?;
    validate_property_values(properties)?;
    validate_property_scope(properties, packet_type)?;
    Ok(())
}

/// Validates a PUBACK packet.
pub fn validate_puback_packet(packet: &PubAckPacket) -> (res: Result<(), MqttError>)
    ensures
        result_agrees(
            res,
            puback_like_error(packet.packet_id, packet.reason_code, packet.properties, PacketType::PubAck),
        ),
{
    validate_puback_like(packet.packet_id, packet.reason_code, &packet.properties, PacketType::PubAck)
}

/// Validates a PUBREC packet.
pub fn validate_pubrec_packet(packet: &PubRecPacket) -> (res: Result<(), MqttError>)
    ensures
        result_agrees(
            res,
            puback_like_error(packet.packet_id, packet.reason_code, packet.properties, PacketType::PubRec),
        ),
{
    validate_puback_like(packet.packet_id, packet.reason_code, &packet.properties, PacketType::PubRec)
}

/// Validates a PUBREL packet.
pub fn validate_pubrel_packet(packet: &PubRelPacket) -> (res: Result<(), MqttError>)
    ensures
        result_agrees(
            res,
            puback_like_error(packet.packet_id, packet.reason_code, packet.properties, PacketType::PubRel),
        ),
{
    validate_puback_like(packet.packet_id, packet.reason_code, &packet.properties, PacketType::PubRel)
}

/// Validates a PUBCOMP packet.
pub fn validate_pubcomp_packet(packet: &PubCompPacket) -> (res: Result<(), MqttError>)
    ensures
        result_agrees(
            res,
            puback_like_error(
                packet.packet_id,
                packet.reason_code,
                packet.properties,
                PacketType::PubComp,
            ),
        ),
{
    validate_puback_like(packet.packet_id, packet.reason_code, &packet.properties, PacketType::PubComp)
}

/// Validates any MQTT v5.0 packet before encode or after decode.
pub fn validate_packet(packet: &Packet) -> (res: Result<(), MqttError>)
    ensures
        result_agrees(res, packet_error(*packet)),
{
    match packet {
        Packet::Connect(p) => validate_connect_packet(p),
        Packet::ConnAck(p) => validate_connack_packet(p),
        Packet::Publish(p) => validate_publish_packet(p),
        Packet::PubAck(p) => validate_puback_packet(p),
        Packet::PubRec(p) => validate_pubrec_packet(p),
        Packet::PubRel(p) => validate_pubrel_packet(p),
        Packet::PubComp(p) => validate_pubcomp_packet(p),
        Packet::Subscribe(p) => validate_subscribe_packet(p),
        Packet::SubAck(p) => validate_suback_packet(p),
        Packet::Unsubscribe(p) => validate_unsubscribe_packet(p),
        Packet::UnsubAck(p) => validate_unsuback_packet(p),
        Packet::PingReq(_) | Packet::PingResp(_) => Ok(()),
        Packet::Disconnect(p) => validate_disconnect_packet(p),
        Packet::Auth(p) => validate_auth_packet(p),
    }
}

// ============================================================================
// Laws
// ============================================================================

/// The packet types that may carry property `p`, as the "used in" column of
/// the property table of MQTT v5.0 (section 2.2.2.2) lists them; the Will
/// properties of a CONNECT are checked on their own and are not counted here.
pub open spec fn property_used_in(p: Property, t: PacketType) -> bool {
    match p {
        Property::PayloadFormatIndicator | Property::MessageExpiryInterval | Property::ContentType
        | Property::ResponseTopic | Property::CorrelationData | Property::TopicAlias => t
            is Publish,
        Property::SubscriptionIdentifier => t is Publish || t is Subscribe,
        Property::SessionExpiryInterval => t is Connect || t is ConnAck || t is Disconnect,
        Property::AuthenticationMethod | Property::AuthenticationData => t is Connect || t
            is ConnAck || t is Auth,
        Property::RequestProblemInformation | Property::RequestResponseInformation => t
            is Connect,
        Property::WillDelayInterval => false,
        Property::ServerReference => t is ConnAck || t is Disconnect,
        Property::ReasonString => t is ConnAck || t is PubAck || t is PubRec || t is PubRel || t
            is PubComp || t is SubAck || t is UnsubAck || t is Disconnect || t is Auth,
        Property::ReceiveMaximum | Property::TopicAliasMaximum | Property::MaximumPacketSize => t
            is Connect || t is ConnAck,
        Property::AssignedClientIdentifier | Property::ServerKeepAlive
        | Property::ResponseInformation | Property::MaximumQoS | Property::RetainAvailable
        | Property::WildcardSubscriptionAvailable | Property::SubscriptionIdentifiersAvailable
        | Property::SharedSubscriptionAvailable => t is ConnAck,
        Property::UserProperty => true,
    }
}

/// The property scope check follows the property table of MQTT v5.0
/// (section 2.2.2.2): a property that it names as not allowed is present
/// and not used in that packet type; and for every packet type that carries
/// properties, the check passes exactly when each property present is one
/// that the table lets that packet type carry. (PINGREQ and PINGRESP carry
/// no properties; the check passes for them.)
#[verifier::rlimit(50)]
pub proof fn lemma_property_scope_table(props: Properties, t: PacketType)
    ensures
        first_out_of_scope(props, t) matches Some(p) ==> is_present(props, p)
            && !property_used_in(p, t),
        !(t is PingReq) && !(t is PingResp) ==> (property_scope_error(props, t) is None <==> forall|
            p: Property,
        | #[trigger] is_present(props, p) ==> property_used_in(p, t)),
        t is PingReq || t is PingResp ==> property_scope_error(props, t) is None,
{
    reveal_with_fuel(first_present_from, 28);
}

/// The packet types whose reason codes are checked: CONNACK, PUBACK,
/// PUBREC, PUBREL, PUBCOMP, SUBACK, UNSUBACK, DISCONNECT and AUTH.
pub open spec fn carries_reason_codes(t: PacketType) -> bool {
    t is ConnAck || t is PubAck || t is PubRec || t is PubRel || t is PubComp || t is SubAck || t
        is UnsubAck || t is Disconnect || t is Auth
}

/// The packet types that accept the reason code with wire value `v`, one
/// row per code value in the manner of the reason code table of MQTT v5.0
/// (section 2.4). 0x00 (Success, Normal disconnection, Granted QoS 0) is
/// accepted everywhere; 0x01 and 0x02 (Granted QoS 1 and 2) only in SUBACK.
pub open spec fn code_accepted_in(v: u8, t: PacketType) -> bool {
    if v == 0x00 {
        true
    } else if v == 0x01 || v == 0x02 {
        t is SubAck
    } else if v == 0x04 || v == 0x8B || v == 0x8D || v == 0x8E || v == 0x96 || v == 0x98 || v
        == 0xA0 {
        t is Disconnect
    } else if v == 0x10 {
        t is PubAck || t is PubRec || t is UnsubAck
    } else if v == 0x18 || v == 0x19 {
        t is Auth
    } else if v == 0x80 || v == 0x83 || v == 0x90 || v == 0x97 {
        t is ConnAck || t is PubAck || t is PubRec || t is SubAck || t is UnsubAck || t
            is Disconnect
    } else if v == 0x81 || v == 0x82 || v == 0x89 || v == 0x8C || v == 0x93 || v == 0x94 || v
        == 0x9A || v == 0x9B || v == 0x9C || v == 0x9D {
        t is ConnAck || t is Disconnect
    } else if v == 0x84 || v == 0x85 || v == 0x86 || v == 0x88 || v == 0x8A || v == 0x9F {
        t is ConnAck
    } else if v == 0x87 {
        t is ConnAck || t is SubAck || t is UnsubAck || t is Disconnect
    } else if v == 0x8F {
        t is SubAck || t is UnsubAck || t is Disconnect
    } else if v == 0x92 {
        t is PubAck || t is PubRec || t is PubRel || t is PubComp
    } else if v == 0x99 {
        t is ConnAck || t is PubAck || t is PubRec || t is Disconnect
    } else if v == 0x9E || v == 0xA1 || v == 0xA2 {
        t is SubAck || t is Disconnect
    } else {
        false
    }
}

/// Which reason codes each packet type accepts, by wire value: a packet
/// type without reason codes accepts every code; any other accepts a code
/// exactly when its value's row of [`code_accepted_in`] names that type,
/// and refuses any other code with an invalid-reason-code error that
/// carries the code's value and the packet type's name. In particular the
/// Granted QoS codes 0x00, 0x01 and 0x02 are all accepted in a SUBACK, and
/// 0x01 and 0x02 in no other packet type with reason codes.
#[verifier::rlimit(50)]
pub proof fn lemma_reason_code_table(c: ReasonCode, t: PacketType)
    ensures
        reason_code_error(c, t) is None <==> (!carries_reason_codes(t) || code_accepted_in(
            super::packet::reason_code_value(c),
            t,
        )),
        reason_code_error(c, t) is Some ==> reason_code_error(c, t) == Some(
            ErrorKind::InvalidReasonCode {
                code: super::packet::reason_code_value(c),
                context: packet_type_name(t),
            },
        ),
        super::packet::reason_code_value(c) <= 2 ==> reason_code_error(c, PacketType::SubAck) is None,
{
}

} // verus!
