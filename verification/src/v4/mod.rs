//! MQTT v3.1.1 (protocol level 4): packets and their builders, return codes,
//! validation, encoding and decoding.

pub mod builder;
pub mod decoder;
pub mod encoder;
pub mod packet;
pub mod return_codes;
pub mod validation;
pub mod wire;

pub use builder::{
    ConnectPacketBuilder, PublishPacketBuilder, SubscribePacketBuilder, UnsubscribePacketBuilder,
};
pub use encoder::MqttCodec;
pub use decoder::MqttDecoder;
pub use packet::{
    ConnAckPacket, ConnectPacket, DisconnectPacket, Packet, PacketType, PingReqPacket,
    PingRespPacket, PubAckPacket, PubCompPacket, PubRecPacket, PubRelPacket, PublishPacket, QoS,
    SubAckPacket, SubscribePacket, UnsubAckPacket, UnsubscribePacket,
};
pub use return_codes::{ConnectReturnCode, SubAckReturnCode};
pub use validation::{
    validate_client_id, validate_connack_packet, validate_connect_packet,
    validate_credentials_flags, validate_fixed_header_flags, validate_packet, validate_packet_id,
    validate_topic_filter, validate_topic_name, validate_will_message,
};
