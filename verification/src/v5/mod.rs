//! MQTT v5.0 (protocol level 5): packets and their builders, reason codes,
//! properties and validation.

pub mod builder;
pub mod packet;
pub mod property_id;
pub mod validation;

pub use builder::{
    ConnectPacketBuilder, PublishPacketBuilder, SubscribePacketBuilder, UnsubscribePacketBuilder,
};
pub use packet::{
    AuthPacket, ConnAckPacket, ConnectPacket, DisconnectPacket, Packet, PacketType, PingReqPacket,
    PingRespPacket, Properties, PubAckPacket, PubCompPacket, PubRecPacket, PubRelPacket,
    PublishPacket, QoS, ReasonCode, SubAckPacket, SubscribePacket, SubscriptionOption,
    UnsubAckPacket, UnsubscribePacket,
};
pub use property_id::PropertyType;
pub use validation::{
    parse_shared_subscription, validate_auth_packet, validate_client_id, validate_connack_packet,
    validate_connect_flags, validate_connect_packet, validate_connect_properties,
    validate_credentials_flags, validate_disconnect_packet, validate_fixed_header_flags,
    validate_packet, validate_property_scope, validate_property_values, validate_protocol_level,
    validate_protocol_name, validate_puback_packet, validate_pubcomp_packet,
    validate_publish_packet, validate_publish_topic, validate_pubrec_packet,
    validate_pubrel_packet, validate_qos_packet_id, validate_reason_code_for_packet,
    validate_suback_packet, validate_subscribe_packet, validate_subscription_option,
    validate_topic_filter, validate_topic_name, validate_unsuback_packet,
    validate_unsubscribe_packet, validate_will_message, validate_will_properties, Property,
    SharedSubscription,
};
