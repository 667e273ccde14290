//! MQTT v3.1.1 return codes: CONNACK return codes and SUBACK return codes.

use vstd::prelude::*;

use super::packet::QoS;

verus! {

/// CONNACK return code (MQTT v3.1.1, section 3.2.2.3).
#[derive(Debug, Clone, Copy, PartialEq, Eq, Structural)]
pub enum ConnectReturnCode {
    /// 0x00 Connection accepted.
    Accepted,
    /// 0x01 The server does not support the requested protocol level.
    UnacceptableProtocolVersion,
    /// 0x02 The client identifier is not allowed by the server.
    IdentifierRejected,
    /// 0x03 The MQTT service is unavailable.
    ServerUnavailable,
    /// 0x04 The user name or password is malformed.
    BadUserNameOrPassword,
    /// 0x05 The client is not authorized to connect.
    NotAuthorized,
}

/// The wire value of a CONNACK return code.
pub open spec fn connect_return_code_value(code: ConnectReturnCode) -> u8 {
    match code {
        ConnectReturnCode::Accepted => 0x00,
        ConnectReturnCode::UnacceptableProtocolVersion => 0x01,
        ConnectReturnCode::IdentifierRejected => 0x02,
        ConnectReturnCode::ServerUnavailable => 0x03,
        ConnectReturnCode::BadUserNameOrPassword => 0x04,
        ConnectReturnCode::NotAuthorized => 0x05,
    }
}

/// The CONNACK return code with wire value `value`, if there is one.
pub open spec fn connect_return_code_from_value(value: u8) -> Option<ConnectReturnCode> {
    if value == 0x00 {
        Some(ConnectReturnCode::Accepted)
    } else if value == 0x01 {
        Some(ConnectReturnCode::UnacceptableProtocolVersion)
    } else if value == 0x02 {
        Some(ConnectReturnCode::IdentifierRejected)
    } else if value == 0x03 {
        Some(ConnectReturnCode::ServerUnavailable)
    } else if value == 0x04 {
        Some(ConnectReturnCode::BadUserNameOrPassword)
    } else if value == 0x05 {
        Some(ConnectReturnCode::NotAuthorized)
    } else {
        None
    }
}

/// The human-readable text of a CONNACK return code.
pub open spec fn connect_return_code_text(code: ConnectReturnCode) -> Seq<char> {
    match code {
        ConnectReturnCode::Accepted => "Connection accepted"@,
        ConnectReturnCode::UnacceptableProtocolVersion => "Connection refused: unacceptable protocol version"@,
        ConnectReturnCode::IdentifierRejected => "Connection refused: identifier rejected"@,
        ConnectReturnCode::ServerUnavailable => "Connection refused: server unavailable"@,
        ConnectReturnCode::BadUserNameOrPassword => "Connection refused: bad user name or password"@,
        ConnectReturnCode::NotAuthorized => "Connection refused: not authorized"@,
    }
}

impl ConnectReturnCode {
    /// Converts a wire value into a return code; an unknown value is returned as the error.
    pub fn try_from(value: u8) -> (res: Result<ConnectReturnCode, u8>)
        ensures
            match connect_return_code_from_value(value) {
                Some(c) => res == Ok::<ConnectReturnCode, u8>(c),
                None => res == Err::<ConnectReturnCode, u8>(value),
            },
    {
        match value {
            0x00 => Ok(ConnectReturnCode::Accepted),
            0x01 => Ok(ConnectReturnCode::UnacceptableProtocolVersion),
            0x02 => Ok(ConnectReturnCode::IdentifierRejected),
            0x03 => Ok(ConnectReturnCode::ServerUnavailable),
            0x04 => Ok(ConnectReturnCode::BadUserNameOrPassword),
            0x05 => Ok(ConnectReturnCode::NotAuthorized),
            _ => Err(value),
        }
    }

    /// The wire value of this return code.
    pub fn as_u8(&self) -> (v: u8)
        ensures
            v == connect_return_code_value(*self),
    {
        match self {
            ConnectReturnCode::Accepted => 0x00,
            ConnectReturnCode::UnacceptableProtocolVersion => 0x01,
            ConnectReturnCode::IdentifierRejected => 0x02,
            ConnectReturnCode::ServerUnavailable => 0x03,
            ConnectReturnCode::BadUserNameOrPassword => 0x04,
            ConnectReturnCode::NotAuthorized => 0x05,
        }
    }

    /// Whether the connection was accepted.
    pub fn is_success(&self) -> (b: bool)
        ensures
            b <==> *self == ConnectReturnCode::Accepted,
    {
        match self {
            ConnectReturnCode::Accepted => true,
            _ => false,
        }
    }

    /// Whether the connection was refused.
    pub fn is_error(&self) -> (b: bool)
        ensures
            b <==> *self != ConnectReturnCode::Accepted,
    {
        !self.is_success()
    }

    /// A human-readable description of the return code.
    pub fn description(&self) -> (s: &'static str)
        ensures
            s@ == connect_return_code_text(*self),
    {
        match self {
            ConnectReturnCode::Accepted => "Connection accepted",
            ConnectReturnCode::UnacceptableProtocolVersion => "Connection refused: unacceptable protocol version",
            ConnectReturnCode::IdentifierRejected => "Connection refused: identifier rejected",
            ConnectReturnCode::ServerUnavailable => "Connection refused: server unavailable",
            ConnectReturnCode::BadUserNameOrPassword => "Connection refused: bad user name or password",
            ConnectReturnCode::NotAuthorized => "Connection refused: not authorized",
        }
    }
}

impl From<ConnectReturnCode> for u8 {
    fn from(code: ConnectReturnCode) -> (v: u8) {
        code.as_u8()
    }
}

impl vstd::std_specs::convert::FromSpecImpl<ConnectReturnCode> for u8 {
    open spec fn obeys_from_spec() -> bool {
        true
    }

    open spec fn from_spec(code: ConnectReturnCode) -> u8 {
        connect_return_code_value(code)
    }
}

/// SUBACK return code (MQTT v3.1.1, section 3.9.3).
#[derive(Debug, Clone, Copy, PartialEq, Eq, Structural)]
pub enum SubAckReturnCode {
    /// 0x00 Success, maximum QoS 0.
    SuccessQoS0,
    /// 0x01 Success, maximum QoS 1.
    SuccessQoS1,
    /// 0x02 Success, maximum QoS 2.
    SuccessQoS2,
    /// 0x80 Failure.
    Failure,
}

/// The wire value of a SUBACK return code.
pub open spec fn suback_return_code_value(code: SubAckReturnCode) -> u8 {
    match code {
        SubAckReturnCode::SuccessQoS0 => 0x00,
        SubAckReturnCode::SuccessQoS1 => 0x01,
        SubAckReturnCode::SuccessQoS2 => 0x02,
        SubAckReturnCode::Failure => 0x80,
    }
}

/// The SUBACK return code with wire value `value`, if there is one.
pub open spec fn suback_return_code_from_value(value: u8) -> Option<SubAckReturnCode> {
    if value == 0x00 {
        Some(SubAckReturnCode::SuccessQoS0)
    } else if value == 0x01 {
        Some(SubAckReturnCode::SuccessQoS1)
    } else if value == 0x02 {
        Some(SubAckReturnCode::SuccessQoS2)
    } else if value == 0x80 {
        Some(SubAckReturnCode::Failure)
    } else {
        None
    }
}

impl SubAckReturnCode {
    /// Converts a wire value into a return code; an unknown value is returned as the error.
    pub fn try_from(value: u8) -> (res: Result<SubAckReturnCode, u8>)
        ensures
            match suback_return_code_from_value(value) {
                Some(c) => res == Ok::<SubAckReturnCode, u8>(c),
                None => res == Err::<SubAckReturnCode, u8>(value),
            },
    {
        match value {
            0x00 => Ok(SubAckReturnCode::SuccessQoS0),
            0x01 => Ok(SubAckReturnCode::SuccessQoS1),
            0x02 => Ok(SubAckReturnCode::SuccessQoS2),
            0x80 => Ok(SubAckReturnCode::Failure),
            _ => Err(value),
        }
    }

    /// The wire value of this return code.
    pub fn as_u8(&self) -> (v: u8)
        ensures
            v == suback_return_code_value(*self),
    {
        match self {
            SubAckReturnCode::SuccessQoS0 => 0x00,
            SubAckReturnCode::SuccessQoS1 => 0x01,
            SubAckReturnCode::SuccessQoS2 => 0x02,
            SubAckReturnCode::Failure => 0x80,
        }
    }

    /// Whether the subscription was granted.
    pub fn is_success(&self) -> (b: bool)
        ensures
            b <==> *self != SubAckReturnCode::Failure,
    {
        match self {
            SubAckReturnCode::Failure => false,
            _ => true,
        }
    }

    /// The granted QoS, for a successful subscription.
    pub fn qos(&self) -> (q: Option<QoS>)
        ensures
            q == match *self {
                SubAckReturnCode::SuccessQoS0 => Some(QoS::AtMostOnce),
                SubAckReturnCode::SuccessQoS1 => Some(QoS::AtLeastOnce),
                SubAckReturnCode::SuccessQoS2 => Some(QoS::ExactlyOnce),
                SubAckReturnCode::Failure => None,
            },
    {
        match self {
            SubAckReturnCode::SuccessQoS0 => Some(QoS::AtMostOnce),
            SubAckReturnCode::SuccessQoS1 => Some(QoS::AtLeastOnce),
            SubAckReturnCode::SuccessQoS2 => Some(QoS::ExactlyOnce),
            SubAckReturnCode::Failure => None,
        }
    }

    /// A human-readable description of the return code.
    pub fn description(&self) -> (s: &'static str)
        ensures
            s@ == match *self {
                SubAckReturnCode::SuccessQoS0 => "Success - Maximum QoS 0"@,
                SubAckReturnCode::SuccessQoS1 => "Success - Maximum QoS 1"@,
                SubAckReturnCode::SuccessQoS2 => "Success - Maximum QoS 2"@,
                SubAckReturnCode::Failure => "Failure"@,
            },
    {
        match self {
            SubAckReturnCode::SuccessQoS0 => "Success - Maximum QoS 0",
            SubAckReturnCode::SuccessQoS1 => "Success - Maximum QoS 1",
            SubAckReturnCode::SuccessQoS2 => "Success - Maximum QoS 2",
            SubAckReturnCode::Failure => "Failure",
        }
    }
}

impl From<SubAckReturnCode> for u8 {
    fn from(code: SubAckReturnCode) -> (v: u8) {
        code.as_u8()
    }
}

impl vstd::std_specs::convert::FromSpecImpl<SubAckReturnCode> for u8 {
    open spec fn obeys_from_spec() -> bool {
        true
    }

    open spec fn from_spec(code: SubAckReturnCode) -> u8 {
        suback_return_code_value(code)
    }
}

/// Converting a CONNACK return code to its wire value and back gives the same code.
pub proof fn lemma_connect_return_code_roundtrip(code: ConnectReturnCode)
    ensures
        connect_return_code_from_value(connect_return_code_value(code)) == Some(code),
{
}

/// Every wire value that names a CONNACK return code is that code's wire value.
pub proof fn lemma_connect_return_code_value_roundtrip(value: u8)
    ensures
        connect_return_code_from_value(value) matches Some(c) ==> connect_return_code_value(c)
            == value,
{
}

/// Converting a SUBACK return code to its wire value and back gives the same code.
pub proof fn lemma_suback_return_code_roundtrip(code: SubAckReturnCode)
    ensures
        suback_return_code_from_value(suback_return_code_value(code)) == Some(code),
{
}

/// Every wire value that names a SUBACK return code is that code's wire value.
pub proof fn lemma_suback_return_code_value_roundtrip(value: u8)
    ensures
        suback_return_code_from_value(value) matches Some(c) ==> suback_return_code_value(c)
            == value,
{
}

} // verus!
