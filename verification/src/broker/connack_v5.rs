//! The CONNACK of an MQTT 5.0 broker: its return codes with their wire
//! values, and the acknowledgement with its properties.

use vstd::prelude::*;

use super::DecodeError;

verus! {

/// The return codes in a CONNACK, for both MQTT 3.1.1 and 5.0.
#[derive(Debug, Clone, Copy, PartialEq, Eq, Structural)]
pub enum ConnectReturnCode {
    Success,
    RefusedProtocolVersion,
    BadClientId,
    ServiceUnavailable,
    UnspecifiedError,
    MalformedPacket,
    ProtocolError,
    ImplementationSpecificError,
    UnsupportedProtocolVersion,
    ClientIdentifierNotValid,
    BadUserNamePassword,
    NotAuthorized,
    ServerUnavailable,
    ServerBusy,
    Banned,
    BadAuthenticationMethod,
    TopicNameInvalid,
    PacketTooLarge,
    QuotaExceeded,
    PayloadFormatInvalid,
    RetainNotSupported,
    QoSNotSupported,
    UseAnotherServer,
    ServerMoved,
    ConnectionRateExceeded,
}

/// The MQTT 5.0 wire value of a return code; the three codes of MQTT 3.1.1
/// alone (`RefusedProtocolVersion`, `BadClientId`, `ServiceUnavailable`)
/// have none.
pub open spec fn code_value(c: ConnectReturnCode) -> Option<u8> {
    match c {
        ConnectReturnCode::Success => Some(0u8),
        ConnectReturnCode::UnspecifiedError => Some(128u8),
        ConnectReturnCode::MalformedPacket => Some(129u8),
        ConnectReturnCode::ProtocolError => Some(130u8),
        ConnectReturnCode::ImplementationSpecificError => Some(131u8),
        ConnectReturnCode::UnsupportedProtocolVersion => Some(132u8),
        ConnectReturnCode::ClientIdentifierNotValid => Some(133u8),
        ConnectReturnCode::BadUserNamePassword => Some(134u8),
        ConnectReturnCode::NotAuthorized => Some(135u8),
        ConnectReturnCode::ServerUnavailable => Some(136u8),
        ConnectReturnCode::ServerBusy => Some(137u8),
        ConnectReturnCode::Banned => Some(138u8),
        ConnectReturnCode::BadAuthenticationMethod => Some(140u8),
        ConnectReturnCode::TopicNameInvalid => Some(144u8),
        ConnectReturnCode::PacketTooLarge => Some(149u8),
        ConnectReturnCode::QuotaExceeded => Some(151u8),
        ConnectReturnCode::PayloadFormatInvalid => Some(153u8),
        ConnectReturnCode::RetainNotSupported => Some(154u8),
        ConnectReturnCode::QoSNotSupported => Some(155u8),
        ConnectReturnCode::UseAnotherServer => Some(156u8),
        ConnectReturnCode::ServerMoved => Some(157u8),
        ConnectReturnCode::ConnectionRateExceeded => Some(159u8),
        _ => None,
    }
}

/// The return code with MQTT 5.0 wire value `num`, if there is one.
pub open spec fn code_of(num: u8) -> Option<ConnectReturnCode> {
    if num == 0 {
        Some(ConnectReturnCode::Success)
    } else if num == 128 {
        Some(ConnectReturnCode::UnspecifiedError)
    } else if num == 129 {
        Some(ConnectReturnCode::MalformedPacket)
    } else if num == 130 {
        Some(ConnectReturnCode::ProtocolError)
    } else if num == 131 {
        Some(ConnectReturnCode::ImplementationSpecificError)
    } else if num == 132 {
        Some(ConnectReturnCode::UnsupportedProtocolVersion)
    } else if num == 133 {
        Some(ConnectReturnCode::ClientIdentifierNotValid)
    } else if num == 134 {
        Some(ConnectReturnCode::BadUserNamePassword)
    } else if num == 135 {
        Some(ConnectReturnCode::NotAuthorized)
    } else if num == 136 {
        Some(ConnectReturnCode::ServerUnavailable)
    } else if num == 137 {
        Some(ConnectReturnCode::ServerBusy)
    } else if num == 138 {
        Some(ConnectReturnCode::Banned)
    } else if num == 140 {
        Some(ConnectReturnCode::BadAuthenticationMethod)
    } else if num == 144 {
        Some(ConnectReturnCode::TopicNameInvalid)
    } else if num == 149 {
        Some(ConnectReturnCode::PacketTooLarge)
    } else if num == 151 {
        Some(ConnectReturnCode::QuotaExceeded)
    } else if num == 153 {
        Some(ConnectReturnCode::PayloadFormatInvalid)
    } else if num == 154 {
        Some(ConnectReturnCode::RetainNotSupported)
    } else if num == 155 {
        Some(ConnectReturnCode::QoSNotSupported)
    } else if num == 156 {
        Some(ConnectReturnCode::UseAnotherServer)
    } else if num == 157 {
        Some(ConnectReturnCode::ServerMoved)
    } else if num == 159 {
        Some(ConnectReturnCode::ConnectionRateExceeded)
    } else {
        None
    }
}

impl ConnectReturnCode {
    /// The MQTT 5.0 wire value of the code; the code must have one.
    pub fn to_u8(&self) -> (v: u8)
        requires
            code_value(*self) is Some,
        ensures
            code_value(*self) == Some(v),
    {
        match self {
            ConnectReturnCode::Success => 0,
            ConnectReturnCode::UnspecifiedError => 128,
            ConnectReturnCode::MalformedPacket => 129,
            ConnectReturnCode::ProtocolError => 130,
            ConnectReturnCode::ImplementationSpecificError => 131,
            ConnectReturnCode::UnsupportedProtocolVersion => 132,
            ConnectReturnCode::ClientIdentifierNotValid => 133,
            ConnectReturnCode::BadUserNamePassword => 134,
            ConnectReturnCode::NotAuthorized => 135,
            ConnectReturnCode::ServerUnavailable => 136,
            ConnectReturnCode::ServerBusy => 137,
            ConnectReturnCode::Banned => 138,
            ConnectReturnCode::BadAuthenticationMethod => 140,
            ConnectReturnCode::TopicNameInvalid => 144,
            ConnectReturnCode::PacketTooLarge => 149,
            ConnectReturnCode::QuotaExceeded => 151,
            ConnectReturnCode::PayloadFormatInvalid => 153,
            ConnectReturnCode::RetainNotSupported => 154,
            ConnectReturnCode::QoSNotSupported => 155,
            ConnectReturnCode::UseAnotherServer => 156,
            ConnectReturnCode::ServerMoved => 157,
            ConnectReturnCode::ConnectionRateExceeded => 159,
            // Not reached: `requires` rules out the codes without a value.
            _ => 0,
        }
    }

    /// The code with MQTT 5.0 wire value `num`, which must be one.
    pub fn from_u8(num: u8) -> (res: Result<ConnectReturnCode, DecodeError>)
        requires
            code_of(num) is Some,
        ensures
            res == Ok::<ConnectReturnCode, DecodeError>(code_of(num)->0),
    {
        let code = if num == 0 {
            ConnectReturnCode::Success
        } else if num == 128 {
            ConnectReturnCode::UnspecifiedError
        } else if num == 129 {
            ConnectReturnCode::MalformedPacket
        } else if num == 130 {
            ConnectReturnCode::ProtocolError
        } else if num == 131 {
            ConnectReturnCode::ImplementationSpecificError
        } else if num == 132 {
            ConnectReturnCode::UnsupportedProtocolVersion
        } else if num == 133 {
            ConnectReturnCode::ClientIdentifierNotValid
        } else if num == 134 {
            ConnectReturnCode::BadUserNamePassword
        } else if num == 135 {
            ConnectReturnCode::NotAuthorized
        } else if num == 136 {
            ConnectReturnCode::ServerUnavailable
        } else if num == 137 {
            ConnectReturnCode::ServerBusy
        } else if num == 138 {
            ConnectReturnCode::Banned
        } else if num == 140 {
            ConnectReturnCode::BadAuthenticationMethod
        } else if num == 144 {
            ConnectReturnCode::TopicNameInvalid
        } else if num == 149 {
            ConnectReturnCode::PacketTooLarge
        } else if num == 151 {
            ConnectReturnCode::QuotaExceeded
        } else if num == 153 {
            ConnectReturnCode::PayloadFormatInvalid
        } else if num == 154 {
            ConnectReturnCode::RetainNotSupported
        } else if num == 155 {
            ConnectReturnCode::QoSNotSupported
        } else if num == 156 {
            ConnectReturnCode::UseAnotherServer
        } else if num == 157 {
            ConnectReturnCode::ServerMoved
        } else {
            ConnectReturnCode::ConnectionRateExceeded
        };
        Ok(code)
    }
}

/// Reading back the wire value of a code gives the code, and every wire
/// value that names a code is that code's value.
pub proof fn lemma_code_value_roundtrip(c: ConnectReturnCode, num: u8)
    ensures
        code_value(c) matches Some(v) ==> code_of(v) == Some(c),
        code_of(num) matches Some(d) ==> code_value(d) == Some(num),
{
}

/// The properties of an MQTT 5.0 CONNACK.
#[derive(Debug, Clone, PartialEq, Eq)]
pub struct ConnAckProperties {
    pub session_expiry_interval: Option<u32>,
    pub receive_max: Option<u16>,
    pub max_qos: Option<u8>,
    pub retain_available: Option<u8>,
    pub max_packet_size: Option<u32>,
    pub assigned_client_identifier: Option<String>,
    pub topic_alias_max: Option<u16>,
    pub reason_string: Option<String>,
    pub user_properties: Vec<(String, String)>,
    pub wildcard_subscription_available: Option<u8>,
    pub subscription_identifiers_available: Option<u8>,
    pub shared_subscription_available: Option<u8>,
    pub server_keep_alive: Option<u16>,
    pub response_information: Option<String>,
    pub server_reference: Option<String>,
    pub authentication_method: Option<String>,
    pub authentication_data: Option<Vec<u8>>,
}

/// The acknowledgement of a connection request.
#[derive(Debug, Clone, PartialEq, Eq)]
pub struct ConnAck {
    pub session_present: bool,
    pub code: ConnectReturnCode,
    pub properties: Option<ConnAckProperties>,
}

} // verus!
