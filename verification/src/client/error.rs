//! Client error types.

use vstd::prelude::*;

use vstd::string::to_string_from_display_ensures;

use crate::error::{error_text, MqttError};
use crate::text::{decimal, join, number_text};

verus! {

/// Errors that can occur during MQTT client operations.
#[derive(Debug)]
pub enum ClientError {
    /// Network I/O error.
    Io(std::io::Error),
    /// TLS handshake or configuration error.
    Tls(String),
    /// Codec encode/decode error.
    Codec(MqttError),
    /// Connection was refused by the broker.
    ConnectionRefused { reason: String },
    /// Operation timed out.
    Timeout,
    /// Client has been disconnected.
    Disconnected,
    /// The internal channel was closed unexpectedly.
    ChannelClosed,
    /// An unexpected control packet was received.
    UnexpectedPacket(String),
    /// QoS must be 0, 1, or 2.
    InvalidQoS(u8),
}

/// The text a client error displays, apart from the errors that carry an
/// I/O error or an error of the codec whose text is not modelled here.
pub open spec fn client_error_text(e: ClientError) -> Seq<char> {
    match e {
        ClientError::Tls(m) => "TLS error: "@ + m@,
        ClientError::Codec(c) => "codec error: "@ + error_text(c),
        ClientError::ConnectionRefused { reason } => "connection refused: "@ + reason@,
        ClientError::Timeout => "operation timed out"@,
        ClientError::Disconnected => "client disconnected"@,
        ClientError::ChannelClosed => "internal channel closed"@,
        ClientError::UnexpectedPacket(m) => "unexpected packet: "@ + m@,
        ClientError::InvalidQoS(q) => "invalid QoS level: "@ + decimal(q as nat),
        ClientError::Io(_) => Seq::empty(),
    }
}

impl ClientError {
    /// The text this error displays.
    pub fn description(&self) -> (s: String)
        ensures
            match self {
                ClientError::Io(e) => exists|t: String|
                    to_string_from_display_ensures::<std::io::Error>(e, t) && s@ == "I/O error: "@
                        + t@,
                ClientError::Codec(c) => match c {
                    MqttError::Utf8Error(_) | MqttError::StringUtf8Error(_) | MqttError::Io(_) =>
                        s@.len() >= "codec error: "@.len() && s@.take("codec error: "@.len() as int)
                            == "codec error: "@,
                    _ => s@ == client_error_text(*self),
                },
                _ => s@ == client_error_text(*self),
            },
    {
        match self {
            ClientError::Io(e) => {
                let t = e.to_string();
                join("I/O error: ", t.as_str())
            },
            ClientError::Tls(m) => join("TLS error: ", m.as_str()),
            ClientError::Codec(c) => {
                let t = c.description();
                let s = join("codec error: ", t.as_str());
                proof {
                    assert(s@.take("codec error: "@.len() as int) =~= "codec error: "@);
                }
                s
            },
            ClientError::ConnectionRefused { reason } => join("connection refused: ", reason.as_str()),
            ClientError::Timeout => "operation timed out".to_owned(),
            ClientError::Disconnected => "client disconnected".to_owned(),
            ClientError::ChannelClosed => "internal channel closed".to_owned(),
            ClientError::UnexpectedPacket(m) => join("unexpected packet: ", m.as_str()),
            ClientError::InvalidQoS(q) => {
                let n = number_text(*q as u64);
                join("invalid QoS level: ", n.as_str())
            },
        }
    }
}

impl From<MqttError> for ClientError {
    fn from(e: MqttError) -> (c: ClientError) {
        ClientError::Codec(e)
    }
}

impl vstd::std_specs::convert::FromSpecImpl<MqttError> for ClientError {
    open spec fn obeys_from_spec() -> bool {
        true
    }

    open spec fn from_spec(e: MqttError) -> ClientError {
        ClientError::Codec(e)
    }
}

impl From<std::io::Error> for ClientError {
    fn from(e: std::io::Error) -> (c: ClientError) {
        ClientError::Io(e)
    }
}

impl vstd::std_specs::convert::FromSpecImpl<std::io::Error> for ClientError {
    open spec fn obeys_from_spec() -> bool {
        true
    }

    open spec fn from_spec(e: std::io::Error) -> ClientError {
        ClientError::Io(e)
    }
}

} // verus!
