//! Protocol pieces of the broker side: telling the protocol version of a
//! new connection from its first CONNECT bytes, topic filter levels and the
//! packet type numbers, with the MQTT 3.1 codec, the fixed header, the
//! MQTT 5.0 CONNACK codes and the server settings in the submodules.

pub mod connack_v5;
pub mod header;
pub mod settings;
pub mod v3;

pub use v3::ConnectAckCode;

use vstd::prelude::*;

use bytes::BytesMut;

use crate::bytes_buf::{bytes_mut_as_slice, bytes_mut_view};

verus! {

/// The MQTT protocol version of a connection.
#[derive(Debug, Clone, Copy, PartialEq, Eq, Structural)]
pub enum ProtocolVersion {
    /// MQTT 3.1 (protocol name "MQIsdp", level 3).
    MQTT3,
    /// MQTT 3.1.1 (protocol name "MQTT", level 4).
    MQTT4,
    /// MQTT 5.0 (protocol name "MQTT", level 5).
    MQTT5,
}

/// Errors of the broker-side decoders.
#[derive(Debug, Clone, Copy, PartialEq, Eq, Structural)]
pub enum DecodeError {
    /// A known protocol name with an unknown protocol level, or a
    /// Remaining Length that runs past four bytes.
    InvalidPacketType,
    /// Neither protocol name is where a CONNECT packet carries it.
    BadTransport,
}

/// The protocol name of MQTT 3.1.
pub open spec fn mqisdp() -> Seq<u8> {
    seq![0x4Du8, 0x51u8, 0x49u8, 0x73u8, 0x64u8, 0x70u8]
}

/// The protocol name of MQTT 3.1.1 and 5.0.
pub open spec fn mqtt_name() -> Seq<u8> {
    seq![0x4Du8, 0x51u8, 0x54u8, 0x54u8]
}

/// The protocol version told by the first bytes of a CONNECT frame whose
/// Remaining Length takes one byte: "MQIsdp" at bytes 4 to 9 with level 3
/// at byte 10, or "MQTT" at bytes 4 to 7 with level 4 or 5 at byte 8.
pub open spec fn version_spec(b: Seq<u8>) -> Result<Option<ProtocolVersion>, DecodeError> {
    if b.subrange(4, 10) == mqisdp() {
        if b.len() > 10 && b[10] == 3 {
            Ok(Some(ProtocolVersion::MQTT3))
        } else {
            Err(DecodeError::InvalidPacketType)
        }
    } else if b.subrange(4, 8) == mqtt_name() {
        if b[8] == 4 {
            Ok(Some(ProtocolVersion::MQTT4))
        } else if b[8] == 5 {
            Ok(Some(ProtocolVersion::MQTT5))
        } else {
            Err(DecodeError::InvalidPacketType)
        }
    } else {
        Err(DecodeError::BadTransport)
    }
}

/// Whether bytes `start` to `start + name.len()` of `b` spell `name`.
fn bytes_at(b: &[u8], start: usize, name: &[u8]) -> (r: bool)
    requires
        start + name@.len() <= b@.len(),
    ensures
        r == (b@.subrange(start as int, start + name@.len()) == name@),
{
    let blen = b.len();
    let mut i: usize = 0;
    while i < name.len()
        invariant
            i <= name@.len(),
            start + name@.len() <= b@.len(),
            blen == b@.len(),
            forall|j: int| 0 <= j < i ==> b@[start + j] == name@[j],
        decreases name@.len() - i,
    {
        if b[start + i] != name[i] {
            assert(b@.subrange(start as int, start + name@.len())[i as int] != name@[i as int]);
            return false;
        }
        i += 1;
    }
    assert(b@.subrange(start as int, start + name@.len()) =~= name@);
    true
}

/// Tells the protocol version from the first bytes of a connection; the
/// buffer must hold at least ten bytes.
pub fn read_version(buf: &[u8]) -> (res: Result<Option<ProtocolVersion>, DecodeError>)
    requires
        buf@.len() >= 10,
    ensures
        res == version_spec(buf@),
{
    let mqisdp_name: [u8; 6] = [0x4D, 0x51, 0x49, 0x73, 0x64, 0x70];
    let mqtt: [u8; 4] = [0x4D, 0x51, 0x54, 0x54];
    assert(mqisdp_name@ =~= mqisdp());
    assert(mqtt@ =~= mqtt_name());
    if bytes_at(buf, 4, &mqisdp_name) {
        if buf.len() > 10 && buf[10] == 3 {
            Ok(Some(ProtocolVersion::MQTT3))
        } else {
            Err(DecodeError::InvalidPacketType)
        }
    } else if bytes_at(buf, 4, &mqtt) {
        if buf[8] == 4 {
            Ok(Some(ProtocolVersion::MQTT4))
        } else if buf[8] == 5 {
            Ok(Some(ProtocolVersion::MQTT5))
        } else {
            Err(DecodeError::InvalidPacketType)
        }
    } else {
        Err(DecodeError::BadTransport)
    }
}

/// Tells the protocol version of a new connection without consuming its bytes.
#[derive(Debug)]
pub struct VersionCodec;

impl VersionCodec {
    /// Tells the protocol version from the buffered bytes, which it leaves
    /// in place; the buffer must hold at least ten bytes.
    pub fn decode(&mut self, buf: &mut BytesMut) -> (res: Result<Option<ProtocolVersion>, DecodeError>)
        requires
            bytes_mut_view(*old(buf)).len() >= 10,
        ensures
            res == version_spec(bytes_mut_view(*old(buf))),
            bytes_mut_view(*final(buf)) == bytes_mut_view(*old(buf)),
    {
        read_version(bytes_mut_as_slice(buf))
    }
}

/// One level of a topic filter.
#[derive(Debug, Clone, PartialEq, Eq, Hash, Structural)]
pub enum TopicFilterLevel {
    Normal,
    System,
    Blank,
    /// The single-level wildcard `+`.
    SingleWildcard,
    /// The multi-level wildcard `#`.
    MultiWildcard,
}

/// A topic filter as a list of levels.
#[derive(Debug, Clone)]
pub struct TopicFilter(pub Vec<TopicFilterLevel>);

/// The packet types by number, with 0 reserved.
#[derive(Debug, Clone, Copy, PartialEq, Eq, Structural)]
pub enum PacketType {
    RESERVED,
    CONNECT,
    CONNACK,
    PUBLISH,
    PUBACK,
    PUBREC,
    PUBREL,
    PUBCOMP,
    SUBSCRIBE,
    SUBACK,
    UNSUBSCRIBE,
    UNSUBACK,
    PINGREQ,
    PINGRESP,
    DISCONNECT,
    AUTH,
}

/// The packet type number of a packet type.
pub open spec fn packet_type_number(t: PacketType) -> u8 {
    match t {
        PacketType::RESERVED => 0,
        PacketType::CONNECT => 1,
        PacketType::CONNACK => 2,
        PacketType::PUBLISH => 3,
        PacketType::PUBACK => 4,
        PacketType::PUBREC => 5,
        PacketType::PUBREL => 6,
        PacketType::PUBCOMP => 7,
        PacketType::SUBSCRIBE => 8,
        PacketType::SUBACK => 9,
        PacketType::UNSUBSCRIBE => 10,
        PacketType::UNSUBACK => 11,
        PacketType::PINGREQ => 12,
        PacketType::PINGRESP => 13,
        PacketType::DISCONNECT => 14,
        PacketType::AUTH => 15,
    }
}

impl PacketType {
    /// The packet type with number `num`, which must be at most 15.
    pub fn from(num: u8) -> (t: PacketType)
        requires
            num <= 15,
        ensures
            packet_type_number(t) == num,
    {
        match num {
            0 => PacketType::RESERVED,
            1 => PacketType::CONNECT,
            2 => PacketType::CONNACK,
            3 => PacketType::PUBLISH,
            4 => PacketType::PUBACK,
            5 => PacketType::PUBREC,
            6 => PacketType::PUBREL,
            7 => PacketType::PUBCOMP,
            8 => PacketType::SUBSCRIBE,
            9 => PacketType::SUBACK,
            10 => PacketType::UNSUBSCRIBE,
            11 => PacketType::UNSUBACK,
            12 => PacketType::PINGREQ,
            13 => PacketType::PINGRESP,
            14 => PacketType::DISCONNECT,
            _ => PacketType::AUTH,
        }
    }
}

} // verus!
