//! Error types for MQTT packet encoding, decoding and validation.
//!
//! Every error value has a [`ErrorKind`]: its variant together with the
//! data it carries, texts as character sequences. Contracts throughout the
//! crate state which kind of error a function returns on which input.

use vstd::prelude::*;
use vstd::string::to_string_from_display_ensures;

use crate::text::{decimal, hex_byte, hex_byte_text, join, join3, number_text};

verus! {

/// Declares `std::str::Utf8Error` so that it can be carried in [`MqttError`].
#[verifier::external_type_specification]
#[verifier::external_body]
pub struct ExUtf8Error(std::str::Utf8Error);

/// Declares `std::string::FromUtf8Error` so that it can be carried in [`MqttError`].
#[verifier::external_type_specification]
#[verifier::external_body]
pub struct ExFromUtf8Error(std::string::FromUtf8Error);

/// Declares `std::io::Error` so that it can be carried in [`MqttError`].
#[verifier::external_type_specification]
#[verifier::external_body]
pub struct ExIoError(std::io::Error);

/// The main error type for MQTT codec operations.
#[derive(Debug)]
pub enum MqttError {
    /// The packet does not conform to the MQTT protocol specification.
    ProtocolViolation {
        /// Human-readable description of the violation.
        message: String,
        /// The packet type where the violation occurred, if known.
        packet_type: Option<u8>,
    },
    /// A client identifier does not meet the protocol requirements.
    InvalidClientId {
        /// The invalid client identifier.
        client_id: String,
        /// The reason why the client ID is invalid.
        reason: ClientIdErrorReason,
    },
    /// A topic name does not meet the requirements for PUBLISH.
    InvalidTopicName {
        /// The invalid topic name.
        topic: String,
        /// The reason why the topic name is invalid.
        reason: TopicErrorReason,
    },
    /// A topic filter does not meet the requirements for SUBSCRIBE/UNSUBSCRIBE.
    InvalidTopicFilter {
        /// The invalid topic filter.
        filter: String,
        /// The reason why the topic filter is invalid.
        reason: TopicFilterErrorReason,
    },
    /// A return code value is not valid (MQTT v3.1.1).
    InvalidReturnCode {
        /// The invalid return code value.
        code: u8,
    },
    /// A reason code value is not valid for the packet type (MQTT v5.0).
    InvalidReasonCode {
        /// The invalid reason code value.
        code: u8,
        /// The context (packet type) where the error occurred.
        context: String,
    },
    /// A property is not valid for the packet type or has an invalid value.
    InvalidProperty {
        /// The property identifier.
        property_id: u8,
        /// The reason why the property is invalid.
        reason: String,
    },
    /// The packet structure is invalid.
    MalformedPacket {
        /// Human-readable description of the malformation.
        message: String,
    },
    /// The remaining length encoding is invalid or too long.
    InvalidRemainingLength {
        /// The invalid length value.
        length: usize,
    },
    /// Not enough bytes to decode a field.
    IncompletePacket {
        /// The expected number of bytes.
        expected: usize,
        /// The actual number of bytes available.
        actual: usize,
    },
    /// A packet exceeds the negotiated Maximum Packet Size (MQTT v5.0).
    PacketTooLarge {
        /// The actual packet size in bytes.
        size: usize,
        /// The maximum allowed packet size in bytes.
        max_size: usize,
    },
    /// A byte string is not valid UTF-8.
    Utf8Error(std::str::Utf8Error),
    /// Converting bytes to a `String` failed.
    StringUtf8Error(std::string::FromUtf8Error),
    /// An I/O error.
    Io(std::io::Error),
    /// Generic error with a message.
    Other(String),
}

/// Reasons why a client ID is invalid.
#[derive(Debug, Clone, Copy, PartialEq, Eq, Structural)]
pub enum ClientIdErrorReason {
    /// The client ID exceeds the maximum allowed length (65535 bytes).
    TooLong,
    /// The client ID contains characters that are not allowed.
    InvalidCharacters,
    /// The client ID is empty but Clean Session is set to 0.
    EmptyWithNonCleanSession,
}

/// Reasons why a topic name is invalid.
#[derive(Debug, Clone, Copy, PartialEq, Eq, Structural)]
pub enum TopicErrorReason {
    /// The topic name is empty.
    Empty,
    /// The topic name contains a null character (U+0000).
    ContainsNull,
    /// The topic name contains wildcard characters (+ or #).
    ContainsWildcard,
    /// The topic name is not valid UTF-8.
    InvalidUtf8,
    /// The topic name exceeds the maximum length.
    TooLong,
}

/// Reasons why a topic filter is invalid.
#[derive(Debug, Clone, Copy, PartialEq, Eq, Structural)]
pub enum TopicFilterErrorReason {
    /// The topic filter is empty.
    Empty,
    /// The topic filter contains a null character (U+0000).
    ContainsNull,
    /// The multi-level wildcard (#) is not at the end.
    InvalidMultiLevelWildcard,
    /// The single-level wildcard (+) is not used correctly.
    InvalidSingleLevelWildcard,
    /// The topic filter is not valid UTF-8.
    InvalidUtf8,
    /// The topic filter exceeds the maximum length.
    TooLong,
}

/// The human-readable description of a reason.
pub open spec fn client_id_reason_text(r: ClientIdErrorReason) -> Seq<char> {
    match r {
        ClientIdErrorReason::TooLong => "exceeds maximum length of 65535 bytes"@,
        ClientIdErrorReason::InvalidCharacters => "contains invalid characters (must be UTF-8)"@,
        ClientIdErrorReason::EmptyWithNonCleanSession => "empty client ID requires Clean Session = 1"@,
    }
}

impl ClientIdErrorReason {
    /// The human-readable description of the reason.
    pub fn description(&self) -> (s: &'static str)
        ensures
            s@ == client_id_reason_text(*self),
    {
        match self {
            ClientIdErrorReason::TooLong => "exceeds maximum length of 65535 bytes",
            ClientIdErrorReason::InvalidCharacters => "contains invalid characters (must be UTF-8)",
            ClientIdErrorReason::EmptyWithNonCleanSession => "empty client ID requires Clean Session = 1",
        }
    }
}

/// The human-readable description of a reason.
pub open spec fn topic_reason_text(r: TopicErrorReason) -> Seq<char> {
    match r {
        TopicErrorReason::Empty => "topic name cannot be empty"@,
        TopicErrorReason::ContainsNull => "topic name cannot contain null character (U+0000)"@,
        TopicErrorReason::ContainsWildcard => "topic name cannot contain wildcards (+ or #)"@,
        TopicErrorReason::InvalidUtf8 => "topic name is not valid UTF-8"@,
        TopicErrorReason::TooLong => "topic name exceeds maximum length"@,
    }
}

impl TopicErrorReason {
    /// The human-readable description of the reason.
    pub fn description(&self) -> (s: &'static str)
        ensures
            s@ == topic_reason_text(*self),
    {
        match self {
            TopicErrorReason::Empty => "topic name cannot be empty",
            TopicErrorReason::ContainsNull => "topic name cannot contain null character (U+0000)",
            TopicErrorReason::ContainsWildcard => "topic name cannot contain wildcards (+ or #)",
            TopicErrorReason::InvalidUtf8 => "topic name is not valid UTF-8",
            TopicErrorReason::TooLong => "topic name exceeds maximum length",
        }
    }
}

/// The human-readable description of a reason.
pub open spec fn filter_reason_text(r: TopicFilterErrorReason) -> Seq<char> {
    match r {
        TopicFilterErrorReason::Empty => "topic filter cannot be empty"@,
        TopicFilterErrorReason::ContainsNull => "topic filter cannot contain null character (U+0000)"@,
        TopicFilterErrorReason::InvalidMultiLevelWildcard => "multi-level wildcard (#) must be the last character"@,
        TopicFilterErrorReason::InvalidSingleLevelWildcard => "single-level wildcard (+) must occupy an entire level"@,
        TopicFilterErrorReason::InvalidUtf8 => "topic filter is not valid UTF-8"@,
        TopicFilterErrorReason::TooLong => "topic filter exceeds maximum length"@,
    }
}

impl TopicFilterErrorReason {
    /// The human-readable description of the reason.
    pub fn description(&self) -> (s: &'static str)
        ensures
            s@ == filter_reason_text(*self),
    {
        match self {
            TopicFilterErrorReason::Empty => "topic filter cannot be empty",
            TopicFilterErrorReason::ContainsNull => "topic filter cannot contain null character (U+0000)",
            TopicFilterErrorReason::InvalidMultiLevelWildcard => "multi-level wildcard (#) must be the last character",
            TopicFilterErrorReason::InvalidSingleLevelWildcard => "single-level wildcard (+) must occupy an entire level",
            TopicFilterErrorReason::InvalidUtf8 => "topic filter is not valid UTF-8",
            TopicFilterErrorReason::TooLong => "topic filter exceeds maximum length",
        }
    }
}

/// The variant of an [`MqttError`] with its data, texts taken as character
/// sequences; the errors of the UTF-8 decoders and of I/O by variant alone.
#[allow(inconsistent_fields)]
pub enum ErrorKind {
    ProtocolViolation { message: Seq<char>, packet_type: Option<u8> },
    InvalidClientId { client_id: Seq<char>, reason: ClientIdErrorReason },
    InvalidTopicName { topic: Seq<char>, reason: TopicErrorReason },
    InvalidTopicFilter { filter: Seq<char>, reason: TopicFilterErrorReason },
    InvalidReturnCode { code: u8 },
    InvalidReasonCode { code: u8, context: Seq<char> },
    InvalidProperty { property_id: u8, reason: Seq<char> },
    MalformedPacket { message: Seq<char> },
    InvalidRemainingLength { length: usize },
    IncompletePacket { expected: usize, actual: usize },
    PacketTooLarge { size: usize, max_size: usize },
    Utf8Error,
    StringUtf8Error,
    Io,
    Other { message: Seq<char> },
}

/// A protocol violation with the given message and packet type.
pub open spec fn violation(message: Seq<char>, packet_type: Option<u8>) -> Option<ErrorKind> {
    Some(ErrorKind::ProtocolViolation { message, packet_type })
}

/// Whether a validation result agrees with the expected outcome: `Ok` when
/// no error is expected, otherwise an error of exactly the expected kind.
pub open spec fn result_agrees(res: Result<(), MqttError>, expected: Option<ErrorKind>) -> bool {
    match expected {
        None => res is Ok,
        Some(k) => res matches Err(e) && e.kind() == k,
    }
}

/// The text an error displays; the errors that carry a UTF-8 or I/O error
/// display that error's own text, which is not modelled here.
pub open spec fn error_text(e: MqttError) -> Seq<char> {
    match e {
        MqttError::ProtocolViolation { message, .. } => "Protocol violation: "@ + message@,
        MqttError::InvalidClientId { client_id, reason } => "Invalid client ID '"@ + client_id@
            + "': "@ + client_id_reason_text(reason),
        MqttError::InvalidTopicName { topic, reason } => "Invalid topic name '"@ + topic@ + "': "@
            + topic_reason_text(reason),
        MqttError::InvalidTopicFilter { filter, reason } => "Invalid topic filter '"@ + filter@
            + "': "@ + filter_reason_text(reason),
        MqttError::InvalidReturnCode { code } => "Invalid return code: 0x"@ + hex_byte(code),
        MqttError::InvalidReasonCode { code, context } => "Invalid reason code 0x"@ + hex_byte(
            code,
        ) + " for "@ + context@,
        MqttError::InvalidProperty { property_id, reason } => "Invalid property 0x"@ + hex_byte(
            property_id,
        ) + ": "@ + reason@,
        MqttError::MalformedPacket { message } => "Malformed packet: "@ + message@,
        MqttError::InvalidRemainingLength { length } => "Invalid remaining length: "@ + decimal(
            length as nat,
        ),
        MqttError::IncompletePacket { expected, actual } => "Incomplete packet: expected "@
            + decimal(expected as nat) + " bytes, got "@ + decimal(actual as nat),
        MqttError::PacketTooLarge { size, max_size } => "Packet too large: "@ + decimal(
            size as nat,
        ) + " bytes exceeds maximum of "@ + decimal(max_size as nat) + " bytes"@,
        MqttError::Other(m) => m@,
        _ => Seq::empty(),
    }
}

impl MqttError {
    /// The kind of this error: its variant and structured fields.
    pub open spec fn kind(&self) -> ErrorKind {
        match self {
            MqttError::ProtocolViolation { message, packet_type } => ErrorKind::ProtocolViolation {
                message: message@,
                packet_type: *packet_type,
            },
            MqttError::InvalidClientId { client_id, reason } => ErrorKind::InvalidClientId {
                client_id: client_id@,
                reason: *reason,
            },
            MqttError::InvalidTopicName { topic, reason } => ErrorKind::InvalidTopicName {
                topic: topic@,
                reason: *reason,
            },
            MqttError::InvalidTopicFilter { filter, reason } => ErrorKind::InvalidTopicFilter {
                filter: filter@,
                reason: *reason,
            },
            MqttError::InvalidReturnCode { code } => ErrorKind::InvalidReturnCode { code: *code },
            MqttError::InvalidReasonCode { code, context } => ErrorKind::InvalidReasonCode {
                code: *code,
                context: context@,
            },
            MqttError::InvalidProperty { property_id, reason } => ErrorKind::InvalidProperty {
                property_id: *property_id,
                reason: reason@,
            },
            MqttError::MalformedPacket { message } => ErrorKind::MalformedPacket {
                message: message@,
            },
            MqttError::InvalidRemainingLength { length } => ErrorKind::InvalidRemainingLength {
                length: *length,
            },
            MqttError::IncompletePacket { expected, actual } => ErrorKind::IncompletePacket {
                expected: *expected,
                actual: *actual,
            },
            MqttError::PacketTooLarge { size, max_size } => ErrorKind::PacketTooLarge {
                size: *size,
                max_size: *max_size,
            },
            MqttError::Utf8Error(_) => ErrorKind::Utf8Error,
            MqttError::StringUtf8Error(_) => ErrorKind::StringUtf8Error,
            MqttError::Io(_) => ErrorKind::Io,
            MqttError::Other(message) => ErrorKind::Other { message: message@ },
        }
    }

    /// The text this error displays.
    pub fn description(&self) -> (s: String)
        ensures
            match self {
                MqttError::Utf8Error(e) => exists|t: String|
                    to_string_from_display_ensures::<std::str::Utf8Error>(e, t) && s@
                        == "UTF-8 encoding error: "@ + t@,
                MqttError::StringUtf8Error(e) => exists|t: String|
                    to_string_from_display_ensures::<std::string::FromUtf8Error>(e, t) && s@
                        == "String encoding error: "@ + t@,
                MqttError::Io(e) => exists|t: String|
                    to_string_from_display_ensures::<std::io::Error>(e, t) && s@ == "I/O error: "@
                        + t@,
                _ => s@ == error_text(*self),
            },
    {
        match self {
            MqttError::ProtocolViolation { message, .. } => join(
                "Protocol violation: ",
                message.as_str(),
            ),
            MqttError::InvalidClientId { client_id, reason } => {
                let head = join3("Invalid client ID '", client_id.as_str(), "': ");
                join(head.as_str(), reason.description())
            },
            MqttError::InvalidTopicName { topic, reason } => {
                let head = join3("Invalid topic name '", topic.as_str(), "': ");
                join(head.as_str(), reason.description())
            },
            MqttError::InvalidTopicFilter { filter, reason } => {
                let head = join3("Invalid topic filter '", filter.as_str(), "': ");
                join(head.as_str(), reason.description())
            },
            MqttError::InvalidReturnCode { code } => {
                let hex = hex_byte_text(*code);
                join("Invalid return code: 0x", hex.as_str())
            },
            MqttError::InvalidReasonCode { code, context } => {
                let hex = hex_byte_text(*code);
                let head = join3("Invalid reason code 0x", hex.as_str(), " for ");
                join(head.as_str(), context.as_str())
            },
            MqttError::InvalidProperty { property_id, reason } => {
                let hex = hex_byte_text(*property_id);
                let head = join3("Invalid property 0x", hex.as_str(), ": ");
                join(head.as_str(), reason.as_str())
            },
            MqttError::MalformedPacket { message } => join("Malformed packet: ", message.as_str()),
            MqttError::InvalidRemainingLength { length } => {
                let n = number_text(*length as u64);
                join("Invalid remaining length: ", n.as_str())
            },
            MqttError::IncompletePacket { expected, actual } => {
                let e = number_text(*expected as u64);
                let a = number_text(*actual as u64);
                let head = join3("Incomplete packet: expected ", e.as_str(), " bytes, got ");
                join(head.as_str(), a.as_str())
            },
            MqttError::PacketTooLarge { size, max_size } => {
                let n = number_text(*size as u64);
                let m = number_text(*max_size as u64);
                let head = join3("Packet too large: ", n.as_str(), " bytes exceeds maximum of ");
                join3(head.as_str(), m.as_str(), " bytes")
            },
            MqttError::Utf8Error(e) => {
                let t = e.to_string();
                join("UTF-8 encoding error: ", t.as_str())
            },
            MqttError::StringUtf8Error(e) => {
                let t = e.to_string();
                join("String encoding error: ", t.as_str())
            },
            MqttError::Io(e) => {
                let t = e.to_string();
                join("I/O error: ", t.as_str())
            },
            MqttError::Other(m) => m.clone(),
        }
    }

    /// Creates a new protocol violation error.
    pub fn protocol_violation(message: &str, packet_type: Option<u8>) -> (e: Self)
        ensures
            e matches MqttError::ProtocolViolation { message: m, packet_type: t }
                && m@ == message@ && t == packet_type,
    {
        MqttError::ProtocolViolation { message: message.to_owned(), packet_type }
    }

    /// Creates a new malformed packet error.
    pub fn malformed(message: &str) -> (e: Self)
        ensures
            e matches MqttError::MalformedPacket { message: m } && m@ == message@,
    {
        MqttError::MalformedPacket { message: message.to_owned() }
    }

    /// Creates a new malformed packet error from an owned message.
    pub fn malformed_owned(message: String) -> (e: Self)
        ensures
            e matches MqttError::MalformedPacket { message: m } && m@ == message@,
    {
        MqttError::MalformedPacket { message }
    }

    /// Creates a new incomplete packet error.
    pub fn incomplete(expected: usize, actual: usize) -> (e: Self)
        ensures
            e == (MqttError::IncompletePacket { expected, actual }),
    {
        MqttError::IncompletePacket { expected, actual }
    }

    /// Creates a new invalid client ID error.
    pub fn invalid_client_id(client_id: &str, reason: ClientIdErrorReason) -> (e: Self)
        ensures
            e.kind() == (ErrorKind::InvalidClientId { client_id: client_id@, reason }),
    {
        MqttError::InvalidClientId { client_id: client_id.to_owned(), reason }
    }

    /// Creates a new invalid topic name error.
    pub fn invalid_topic_name(topic: &str, reason: TopicErrorReason) -> (e: Self)
        ensures
            e.kind() == (ErrorKind::InvalidTopicName { topic: topic@, reason }),
    {
        MqttError::InvalidTopicName { topic: topic.to_owned(), reason }
    }

    /// Creates a new invalid topic filter error.
    pub fn invalid_topic_filter(filter: &str, reason: TopicFilterErrorReason) -> (e: Self)
        ensures
            e.kind() == (ErrorKind::InvalidTopicFilter { filter: filter@, reason }),
    {
        MqttError::InvalidTopicFilter { filter: filter.to_owned(), reason }
    }

    /// Creates a new invalid return code error (MQTT v3.1.1).
    pub fn invalid_return_code(code: u8) -> (e: Self)
        ensures
            e == (MqttError::InvalidReturnCode { code }),
    {
        MqttError::InvalidReturnCode { code }
    }

    /// Creates a new invalid reason code error (MQTT v5.0).
    pub fn invalid_reason_code(code: u8, context: &str) -> (e: Self)
        ensures
            e matches MqttError::InvalidReasonCode { code: c, context: ctx } && c == code
                && ctx@ == context@,
    {
        MqttError::InvalidReasonCode { code, context: context.to_owned() }
    }

    /// Creates a new invalid property error (MQTT v5.0).
    pub fn invalid_property(property_id: u8, reason: &str) -> (e: Self)
        ensures
            e matches MqttError::InvalidProperty { property_id: p, reason: r } && p == property_id
                && r@ == reason@,
    {
        MqttError::InvalidProperty { property_id, reason: reason.to_owned() }
    }

    /// Creates a new packet too large error.
    pub fn packet_too_large(size: usize, max_size: usize) -> (e: Self)
        ensures
            e == (MqttError::PacketTooLarge { size, max_size }),
    {
        MqttError::PacketTooLarge { size, max_size }
    }
}

} // verus!
