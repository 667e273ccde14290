//! MQTT v5.0 property identifiers and the wire types of their values.

use vstd::prelude::*;

use crate::error::{ErrorKind, MqttError};
use crate::v4::wire::be_u16;

verus! {

/// Payload Format Indicator (0x01). Used in: PUBLISH, Will Properties.
pub const PROPERTY_PAYLOAD_FORMAT_INDICATOR: u8 = 0x01;
/// Message Expiry Interval (0x02). Used in: PUBLISH, Will Properties.
pub const PROPERTY_MESSAGE_EXPIRY_INTERVAL: u8 = 0x02;
/// Content Type (0x03). Used in: PUBLISH, Will Properties.
pub const PROPERTY_CONTENT_TYPE: u8 = 0x03;
/// Response Topic (0x08). Used in: PUBLISH, Will Properties.
pub const PROPERTY_RESPONSE_TOPIC: u8 = 0x08;
/// Correlation Data (0x09). Used in: PUBLISH, Will Properties.
pub const PROPERTY_CORRELATION_DATA: u8 = 0x09;
/// Subscription Identifier (0x0B). Used in: PUBLISH, SUBSCRIBE.
pub const PROPERTY_SUBSCRIPTION_IDENTIFIER: u8 = 0x0B;
/// Session Expiry Interval (0x11). Used in: CONNECT, CONNACK, DISCONNECT.
pub const PROPERTY_SESSION_EXPIRY_INTERVAL: u8 = 0x11;
/// Assigned Client Identifier (0x12). Used in: CONNACK.
pub const PROPERTY_ASSIGNED_CLIENT_IDENTIFIER: u8 = 0x12;
/// Server Keep Alive (0x13). Used in: CONNACK.
pub const PROPERTY_SERVER_KEEP_ALIVE: u8 = 0x13;
/// Authentication Method (0x15). Used in: CONNECT, CONNACK, AUTH.
pub const PROPERTY_AUTHENTICATION_METHOD: u8 = 0x15;
/// Authentication Data (0x16). Used in: CONNECT, CONNACK, AUTH.
pub const PROPERTY_AUTHENTICATION_DATA: u8 = 0x16;
/// Request Problem Information (0x17). Used in: CONNECT.
pub const PROPERTY_REQUEST_PROBLEM_INFORMATION: u8 = 0x17;
/// Will Delay Interval (0x18). Used in: Will Properties.
pub const PROPERTY_WILL_DELAY_INTERVAL: u8 = 0x18;
/// Request Response Information (0x19). Used in: CONNECT.
pub const PROPERTY_REQUEST_RESPONSE_INFORMATION: u8 = 0x19;
/// Response Information (0x1A). Used in: CONNACK.
pub const PROPERTY_RESPONSE_INFORMATION: u8 = 0x1A;
/// Server Reference (0x1C). Used in: CONNACK, DISCONNECT.
pub const PROPERTY_SERVER_REFERENCE: u8 = 0x1C;
/// Reason String (0x1F). Used in: all packets except PUBLISH.
pub const PROPERTY_REASON_STRING: u8 = 0x1F;
/// Receive Maximum (0x21). Used in: CONNECT, CONNACK.
pub const PROPERTY_RECEIVE_MAXIMUM: u8 = 0x21;
/// Topic Alias Maximum (0x22). Used in: CONNECT, CONNACK.
pub const PROPERTY_TOPIC_ALIAS_MAXIMUM: u8 = 0x22;
/// Topic Alias (0x23): a variable byte integer that stands for the topic
/// name. Used in: PUBLISH.
pub const PROPERTY_TOPIC_ALIAS: u8 = 0x23;
/// Maximum QoS (0x24). Used in: CONNACK.
pub const PROPERTY_MAXIMUM_QOS: u8 = 0x24;
/// Retain Available (0x25). Used in: CONNACK.
pub const PROPERTY_RETAIN_AVAILABLE: u8 = 0x25;
/// User Property (0x26). Used in: all packets.
pub const PROPERTY_USER_PROPERTY: u8 = 0x26;
/// Maximum Packet Size (0x27). Used in: CONNECT, CONNACK.
pub const PROPERTY_MAXIMUM_PACKET_SIZE: u8 = 0x27;
/// Wildcard Subscription Available (0x28). Used in: CONNACK.
pub const PROPERTY_WILDCARD_SUBSCRIPTION_AVAILABLE: u8 = 0x28;
/// Subscription Identifier Available (0x29). Used in: CONNACK.
pub const PROPERTY_SUBSCRIPTION_IDENTIFIER_AVAILABLE: u8 = 0x29;
/// Shared Subscription Available (0x2A). Used in: CONNACK.
pub const PROPERTY_SHARED_SUBSCRIPTION_AVAILABLE: u8 = 0x2A;

/// Wire formats of MQTT v5.0 property values.
#[derive(Debug, Clone, Copy, PartialEq, Eq, Structural)]
pub enum PropertyType {
    /// Single byte.
    Byte,
    /// Two-byte unsigned integer.
    TwoByteInteger,
    /// Four-byte unsigned integer.
    FourByteInteger,
    /// Variable byte integer (1-4 bytes).
    VariableByteInteger,
    /// UTF-8 encoded string.
    Utf8String,
    /// UTF-8 string pair (key-value).
    Utf8StringPair,
    /// Binary data.
    BinaryData,
}

/// The wire format of the value of the property with identifier `id`.
pub open spec fn property_type_of(id: u8) -> Option<PropertyType> {
    if id == 0x01 || id == 0x17 || id == 0x19 || id == 0x24 || id == 0x25 || id == 0x28 || id
        == 0x29 || id == 0x2A {
        Some(PropertyType::Byte)
    } else if id == 0x13 || id == 0x21 || id == 0x22 {
        Some(PropertyType::TwoByteInteger)
    } else if id == 0x02 || id == 0x11 || id == 0x18 || id == 0x27 {
        Some(PropertyType::FourByteInteger)
    } else if id == 0x0B || id == 0x23 {
        Some(PropertyType::VariableByteInteger)
    } else if id == 0x03 || id == 0x08 || id == 0x12 || id == 0x15 || id == 0x1A || id == 0x1C
        || id == 0x1F {
        Some(PropertyType::Utf8String)
    } else if id == 0x26 {
        Some(PropertyType::Utf8StringPair)
    } else if id == 0x09 || id == 0x16 {
        Some(PropertyType::BinaryData)
    } else {
        None
    }
}

/// The length of a variable byte integer at the start of `s`: up to and
/// including the first byte without the continuation bit, or `None` if
/// every byte carries it.
pub open spec fn vbi_length(s: Seq<u8>) -> Option<nat>
    decreases s.len(),
{
    if s.len() == 0 {
        None
    } else if s[0] < 128 {
        Some(1)
    } else {
        match vbi_length(s.drop_first()) {
            Some(n) => Some(n + 1),
            None => None,
        }
    }
}

/// Skipping a length-prefixed field (string or binary data) at the start of
/// `s`: the number of bytes skipped, and the error if the field is cut short.
pub open spec fn skip_prefixed(s: Seq<u8>) -> (nat, Option<ErrorKind>) {
    if s.len() < 2 {
        (0, Some(ErrorKind::IncompletePacket { expected: 2, actual: s.len() as usize }))
    } else {
        let len = be_u16(s[0], s[1]) as nat;
        if s.len() < 2 + len {
            (
                0,
                Some(
                    ErrorKind::IncompletePacket {
                        expected: (2 + len) as usize,
                        actual: s.len() as usize,
                    },
                ),
            )
        } else {
            (2 + len, None)
        }
    }
}

/// Skipping a property value of wire format `t` at the start of `s`: the
/// number of bytes skipped (also when an error stops the skip) and the error.
pub open spec fn skip_spec(t: PropertyType, s: Seq<u8>) -> (nat, Option<ErrorKind>) {
    match t {
        PropertyType::Byte => if s.len() < 1 {
            (0, Some(ErrorKind::IncompletePacket { expected: 1, actual: 0 }))
        } else {
            (1, None)
        },
        PropertyType::TwoByteInteger => if s.len() < 2 {
            (0, Some(ErrorKind::IncompletePacket { expected: 2, actual: s.len() as usize }))
        } else {
            (2, None)
        },
        PropertyType::FourByteInteger => if s.len() < 4 {
            (0, Some(ErrorKind::IncompletePacket { expected: 4, actual: s.len() as usize }))
        } else {
            (4, None)
        },
        PropertyType::VariableByteInteger => match vbi_length(s) {
            Some(n) => (n, None),
            None => (s.len(), Some(ErrorKind::IncompletePacket { expected: 1, actual: 0 })),
        },
        PropertyType::Utf8String => skip_prefixed(s),
        PropertyType::Utf8StringPair => {
            let (n1, e1) = skip_prefixed(s);
            if e1 is Some {
                (n1, e1)
            } else {
                let (n2, e2) = skip_prefixed(s.skip(n1 as int));
                (n1 + n2, e2)
            }
        },
        PropertyType::BinaryData => skip_prefixed(s),
    }
}

/// Skips a length-prefixed field at byte `pos`; returns the new position.
fn skip_utf8_string(buf: &[u8], pos: usize) -> (res: (usize, Result<(), MqttError>))
    requires
        pos <= buf@.len(),
    ensures
        res.0 == pos + skip_prefixed(buf@.skip(pos as int)).0,
        res.0 <= buf@.len(),
        match skip_prefixed(buf@.skip(pos as int)).1 {
            None => res.1 is Ok,
            Some(k) => res.1 matches Err(e) && e.kind() == k,
        },
{
    let avail = buf.len() - pos;
    if avail < 2 {
        return (pos, Err(MqttError::incomplete(2, avail)));
    }
    let len = (buf[pos] as usize) * 256 + (buf[pos + 1] as usize);
    assert(len == be_u16(buf@[pos as int], buf@[pos + 1]) as nat);
    if avail < 2 + len {
        return (pos, Err(MqttError::incomplete(2 + len, avail)));
    }
    (pos + 2 + len, Ok(()))
}

impl PropertyType {
    /// Returns the wire format of the property with identifier `id`.
    pub fn from_id(id: u8) -> (res: Option<PropertyType>)
        ensures
            res == property_type_of(id),
    {
        if id == PROPERTY_PAYLOAD_FORMAT_INDICATOR || id == PROPERTY_REQUEST_PROBLEM_INFORMATION
            || id == PROPERTY_REQUEST_RESPONSE_INFORMATION || id == PROPERTY_MAXIMUM_QOS || id
            == PROPERTY_RETAIN_AVAILABLE || id == PROPERTY_WILDCARD_SUBSCRIPTION_AVAILABLE || id
            == PROPERTY_SUBSCRIPTION_IDENTIFIER_AVAILABLE || id
            == PROPERTY_SHARED_SUBSCRIPTION_AVAILABLE {
            Some(PropertyType::Byte)
        } else if id == PROPERTY_SERVER_KEEP_ALIVE || id == PROPERTY_RECEIVE_MAXIMUM || id
            == PROPERTY_TOPIC_ALIAS_MAXIMUM {
            Some(PropertyType::TwoByteInteger)
        } else if id == PROPERTY_MESSAGE_EXPIRY_INTERVAL || id == PROPERTY_SESSION_EXPIRY_INTERVAL
            || id == PROPERTY_WILL_DELAY_INTERVAL || id == PROPERTY_MAXIMUM_PACKET_SIZE {
            Some(PropertyType::FourByteInteger)
        } else if id == PROPERTY_SUBSCRIPTION_IDENTIFIER || id == PROPERTY_TOPIC_ALIAS {
            Some(PropertyType::VariableByteInteger)
        } else if id == PROPERTY_CONTENT_TYPE || id == PROPERTY_RESPONSE_TOPIC || id
            == PROPERTY_ASSIGNED_CLIENT_IDENTIFIER || id == PROPERTY_AUTHENTICATION_METHOD || id
            == PROPERTY_RESPONSE_INFORMATION || id == PROPERTY_SERVER_REFERENCE || id
            == PROPERTY_REASON_STRING {
            Some(PropertyType::Utf8String)
        } else if id == PROPERTY_USER_PROPERTY {
            Some(PropertyType::Utf8StringPair)
        } else if id == PROPERTY_CORRELATION_DATA || id == PROPERTY_AUTHENTICATION_DATA {
            Some(PropertyType::BinaryData)
        } else {
            None
        }
    }

    /// Skips the wire representation of a property value of this format at
    /// byte `pos` of `buf`.
    ///
    /// Returns the position after the skipped bytes together with the
    /// outcome; when an error stops the skip, the position says how far it got.
    pub fn skip_value(self, buf: &[u8], pos: usize) -> (res: (usize, Result<(), MqttError>))
        requires
            pos <= buf@.len(),
        ensures
            res.0 == pos + skip_spec(self, buf@.skip(pos as int)).0,
            match skip_spec(self, buf@.skip(pos as int)).1 {
                None => res.1 is Ok,
                Some(k) => res.1 matches Err(e) && e.kind() == k,
            },
    {
        let avail = buf.len() - pos;
        match self {
            PropertyType::Byte => {
                if avail < 1 {
                    return (pos, Err(MqttError::incomplete(1, 0)));
                }
                (pos + 1, Ok(()))
            },
            PropertyType::TwoByteInteger => {
                if avail < 2 {
                    return (pos, Err(MqttError::incomplete(2, avail)));
                }
                (pos + 2, Ok(()))
            },
            PropertyType::FourByteInteger => {
                if avail < 4 {
                    return (pos, Err(MqttError::incomplete(4, avail)));
                }
                (pos + 4, Ok(()))
            },
            PropertyType::VariableByteInteger => skip_variable_byte_integer(buf, pos),
            PropertyType::Utf8String => skip_utf8_string(buf, pos),
            PropertyType::Utf8StringPair => {
                let (p1, r1) = skip_utf8_string(buf, pos);
                if r1.is_err() {
                    return (p1, r1);
                }
                assert(buf@.skip(pos as int).skip(p1 - pos) =~= buf@.skip(p1 as int));
                skip_utf8_string(buf, p1)
            },
            PropertyType::BinaryData => skip_utf8_string(buf, pos),
        }
    }
}

/// Skips a variable byte integer at byte `pos`: up to and including the
/// first byte without the continuation bit.
fn skip_variable_byte_integer(buf: &[u8], pos: usize) -> (res: (usize, Result<(), MqttError>))
    requires
        pos <= buf@.len(),
    ensures
        res.0 == pos + skip_spec(PropertyType::VariableByteInteger, buf@.skip(pos as int)).0,
        match skip_spec(PropertyType::VariableByteInteger, buf@.skip(pos as int)).1 {
            None => res.1 is Ok,
            Some(k) => res.1 matches Err(e) && e.kind() == k,
        },
{
    let mut i: usize = pos;
    while i < buf.len()
        invariant
            pos <= i <= buf@.len(),
            vbi_length(buf@.skip(pos as int)) == match vbi_length(buf@.skip(i as int)) {
                Some(n) => Some(n + (i - pos) as nat),
                None => None,
            },
        decreases buf@.len() - i,
    {
        let encoded_byte = buf[i];
        assert(buf@.skip(i as int).drop_first() =~= buf@.skip(i + 1));
        i += 1;
        if (encoded_byte & 0x80) == 0 {
            assert(encoded_byte < 128) by (bit_vector)
                requires
                    (encoded_byte & 0x80) == 0,
            ;
            return (i, Ok(()));
        }
        assert(encoded_byte >= 128) by (bit_vector)
            requires
                (encoded_byte & 0x80) != 0,
        ;
    }
    assert(buf@.skip(i as int).len() == 0);
    (i, Err(MqttError::incomplete(1, 0)))
}

// ============================================================================
// Laws
// ============================================================================

/// The wire format of each property, one row per identifier, as the
/// property table of MQTT v5.0 (section 2.2.2.2) lists them; Topic Alias
/// (0x23) is read as a variable byte integer, as its documentation here
/// says. Identifiers outside the table have no format.
pub open spec fn format_row(id: u8) -> Option<PropertyType> {
    match id {
        0x01u8 => Some(PropertyType::Byte),
        0x02u8 => Some(PropertyType::FourByteInteger),
        0x03u8 => Some(PropertyType::Utf8String),
        0x08u8 => Some(PropertyType::Utf8String),
        0x09u8 => Some(PropertyType::BinaryData),
        0x0Bu8 => Some(PropertyType::VariableByteInteger),
        0x11u8 => Some(PropertyType::FourByteInteger),
        0x12u8 => Some(PropertyType::Utf8String),
        0x13u8 => Some(PropertyType::TwoByteInteger),
        0x15u8 => Some(PropertyType::Utf8String),
        0x16u8 => Some(PropertyType::BinaryData),
        0x17u8 => Some(PropertyType::Byte),
        0x18u8 => Some(PropertyType::FourByteInteger),
        0x19u8 => Some(PropertyType::Byte),
        0x1Au8 => Some(PropertyType::Utf8String),
        0x1Cu8 => Some(PropertyType::Utf8String),
        0x1Fu8 => Some(PropertyType::Utf8String),
        0x21u8 => Some(PropertyType::TwoByteInteger),
        0x22u8 => Some(PropertyType::TwoByteInteger),
        0x23u8 => Some(PropertyType::VariableByteInteger),
        0x24u8 => Some(PropertyType::Byte),
        0x25u8 => Some(PropertyType::Byte),
        0x26u8 => Some(PropertyType::Utf8StringPair),
        0x27u8 => Some(PropertyType::FourByteInteger),
        0x28u8 => Some(PropertyType::Byte),
        0x29u8 => Some(PropertyType::Byte),
        0x2Au8 => Some(PropertyType::Byte),
        _ => None,
    }
}

/// The number of bytes a value of fixed-width format `t` occupies.
pub open spec fn fixed_width(t: PropertyType) -> Option<nat> {
    match t {
        PropertyType::Byte => Some(1),
        PropertyType::TwoByteInteger => Some(2),
        PropertyType::FourByteInteger => Some(4),
        _ => None,
    }
}

/// Every property identifier has the wire format of its row of the
/// property table, and skipping the value of a property of fixed width
/// consumes exactly that width whenever the buffer holds it: a Message
/// Expiry Interval, Session Expiry Interval, Will Delay Interval or Maximum
/// Packet Size value takes four bytes, a Server Keep Alive, Receive Maximum
/// or Topic Alias Maximum value two, and the byte properties one.
pub proof fn lemma_property_formats(id: u8, s: Seq<u8>)
    ensures
        property_type_of(id) == format_row(id),
        property_type_of(id) is Some && fixed_width(property_type_of(id)->Some_0) is Some ==> ({
            let t = property_type_of(id)->Some_0;
            let w = fixed_width(t)->Some_0;
            &&& s.len() >= w ==> skip_spec(t, s) == (w, Option::<ErrorKind>::None)
            &&& s.len() < w ==> skip_spec(t, s).0 == 0 && skip_spec(t, s).1 is Some
        }),
{
}

} // verus!
