//! MQTT 3.1 connections on the broker side: the packets, the decoder, the
//! scan of the Remaining Length bytes and the broker's answer to a packet.

use vstd::prelude::*;

use bytes::BytesMut;

use crate::bytes_buf::{bytes_mut_as_slice, bytes_mut_clear, bytes_mut_len, bytes_mut_view};
use crate::MAX_FRAME_SIZE;

use super::DecodeError;

verus! {

/// The packets of an MQTT 3.1 connection that the broker handles.
#[derive(Debug, Clone, PartialEq, Eq)]
pub enum Packet {
    Connect(ConnectPacket),
    ConnAck(ConnAck),
    PingReq(PingReq),
    PingResp(PingResp),
}

/// A connection request.
#[derive(Debug, Clone, PartialEq, Eq)]
pub struct ConnectPacket {
    pub protocol_name: String,
    pub clean_start: bool,
    pub keep_alive: u16,
    pub client_id: String,
    pub user_name: Option<String>,
    pub password: Option<String>,
}

/// The broker's answer to a connection request.
#[derive(Debug, Clone, Copy, PartialEq, Eq, Structural)]
pub struct ConnAck {
    pub session_present: bool,
    pub code: ConnectAckCode,
}

/// The CONNACK codes of an MQTT 3.1 broker.
#[derive(Debug, Clone, Copy, PartialEq, Eq, Structural)]
pub enum ConnectAckCode {
    Success,
    RefusedProtocolVersion,
    ClientIdentifierNotValid,
    BadUserNamePassword,
    NotAuthorized,
    ServerUnavailable,
}

impl ConnectAckCode {
    /// The wire value of the code.
    pub fn to_u8(&self) -> (v: u8)
        ensures
            v == match *self {
                ConnectAckCode::Success => 0u8,
                ConnectAckCode::RefusedProtocolVersion => 1u8,
                ConnectAckCode::ClientIdentifierNotValid => 2u8,
                ConnectAckCode::ServerUnavailable => 3u8,
                ConnectAckCode::BadUserNamePassword => 4u8,
                ConnectAckCode::NotAuthorized => 5u8,
            },
    {
        match *self {
            ConnectAckCode::Success => 0,
            ConnectAckCode::RefusedProtocolVersion => 1,
            ConnectAckCode::ClientIdentifierNotValid => 2,
            ConnectAckCode::ServerUnavailable => 3,
            ConnectAckCode::BadUserNamePassword => 4,
            ConnectAckCode::NotAuthorized => 5,
        }
    }
}

/// A ping request.
#[derive(Debug, Clone, Copy, PartialEq, Eq, Structural)]
pub struct PingReq {}

/// A ping response.
#[derive(Debug, Clone, Copy, PartialEq, Eq, Structural)]
pub struct PingResp {}

/// The fixed header of an MQTT 3.1 frame; it carries no fields yet.
#[derive(Debug, Clone, Copy, PartialEq, Eq, Structural)]
pub struct Header {}

/// How the Remaining Length bytes after the first byte at `offset` end.
#[derive(Debug, Clone, Copy, PartialEq, Eq, Structural)]
pub enum HeaderScan {
    /// The buffer ends before the length is known or before the frame does.
    NeedMore,
    /// A whole frame of the announced length is buffered.
    Complete,
    /// Four length bytes all carry the continuation bit.
    TooLong,
}

/// The place value of Remaining Length byte `pos`: 128 to the power `pos`.
pub open spec fn place(pos: int) -> int
    decreases pos,
{
    if pos <= 0 {
        1
    } else {
        128 * place(pos - 1)
    }
}

/// Scans the Remaining Length bytes of the frame at `offset` from byte
/// `pos` of the length on, with `len` the value of the bytes before it.
pub open spec fn scan_from(s: Seq<u8>, offset: int, pos: int, len: int) -> HeaderScan
    decreases 4 - pos,
{
    if pos >= 4 {
        HeaderScan::TooLong
    } else if s.len() > offset + pos + 1 {
        let byte = s[offset + pos + 1];
        let len2 = len + (byte % 128) * place(pos);
        if byte < 128 {
            if s.len() < offset + 2 + pos + len2 {
                HeaderScan::NeedMore
            } else {
                HeaderScan::Complete
            }
        } else {
            scan_from(s, offset, pos + 1, len2)
        }
    } else {
        HeaderScan::NeedMore
    }
}

/// How the fixed header of the frame at `offset` ends.
pub open spec fn header_scan(s: Seq<u8>, offset: int) -> HeaderScan {
    scan_from(s, offset, 0, 0)
}

/// Scans the Remaining Length of the frame at `offset`: `Ok(None)` when
/// more bytes are needed, an error when four length bytes all carry the
/// continuation bit. Neither the buffer nor the offset changes.
///
/// A buffer that holds a complete fixed header at `offset` is outside this
/// function's domain: reading the header of an MQTT 3.1 frame is not
/// implemented.
pub fn read_header(buf: &mut BytesMut, offset: &mut usize) -> (res: Result<
    Option<(Header, usize)>,
    DecodeError,
>)
    requires
        *old(offset) + MAX_FRAME_SIZE <= usize::MAX,
        header_scan(bytes_mut_view(*old(buf)), *old(offset) as int) != HeaderScan::Complete,
    ensures
        *final(offset) == *old(offset),
        bytes_mut_view(*final(buf)) == bytes_mut_view(*old(buf)),
        header_scan(bytes_mut_view(*old(buf)), *old(offset) as int) == HeaderScan::NeedMore
            ==> res == Ok::<Option<(Header, usize)>, DecodeError>(None),
        header_scan(bytes_mut_view(*old(buf)), *old(offset) as int) == HeaderScan::TooLong
            ==> res == Err::<Option<(Header, usize)>, DecodeError>(DecodeError::InvalidPacketType),
{
    let ghost s = bytes_mut_view(*buf);
    let b = bytes_mut_as_slice(buf);
    let start = *offset;
    let mut len: usize = 0;
    let mut mult: usize = 1;
    let mut pos: usize = 0;
    while pos <= 3
        invariant
            b@ == s,
            s == bytes_mut_view(*old(buf)),
            start == *old(offset),
            start + MAX_FRAME_SIZE <= usize::MAX,
            pos <= 4,
            mult == place(pos as int),
            len < place(pos as int),
            header_scan(s, start as int) == scan_from(s, start as int, pos as int, len as int),
            header_scan(s, start as int) != HeaderScan::Complete,
        decreases 4 - pos,
    {
        proof {
            reveal_with_fuel(place, 5);
            reveal_with_fuel(scan_from, 2);
        }
        if b.len() > start + pos + 1 {
            let byte = b[start + pos + 1];
            let d: usize = (byte % 128) as usize;
            assert(mult <= 2097152);
            assert(d * mult <= 127 * mult) by (nonlinear_arith)
                requires
                    d <= 127,
            ;
            len = len + d * mult;
            if byte < 128 {
                if b.len() < start + 2 + pos + len {
                    return Ok(None);
                }
                // Not reached: a complete header is outside the domain.
                return Err(DecodeError::InvalidPacketType);
            }
            mult = mult * 128;
            pos = pos + 1;
        } else {
            return Ok(None);
        }
    }
    Err(DecodeError::InvalidPacketType)
}

/// The CONNECT packet that the decoder reads any bytes as: empty protocol
/// name and client identifier, keep-alive 2048, clean start, no credentials.
pub open spec fn stock_connect(p: ConnectPacket) -> bool {
    &&& p.protocol_name@ == Seq::<char>::empty()
    &&& p.keep_alive == 2048
    &&& p.clean_start
    &&& p.client_id@ == Seq::<char>::empty()
    &&& p.user_name is None
    &&& p.password is None
}

/// What decoding does to a buffer: an empty buffer gives `Ok(None)` and
/// stays as it is; any other buffer is consumed whole and read as the stock
/// CONNECT packet.
pub open spec fn decodes_v3(before: Seq<u8>, after: Seq<u8>, res: Result<Option<Packet>, DecodeError>) -> bool {
    if before.len() == 0 {
        res == Ok::<Option<Packet>, DecodeError>(None) && after == before
    } else {
        after == Seq::<u8>::empty() && (res matches Ok(Some(Packet::Connect(c))) && stock_connect(c))
    }
}

/// Decodes an MQTT 3.1 packet from the buffer: nothing when it is empty,
/// else the whole buffer is consumed and read as a CONNECT packet with
/// stock fields (the fields are not parsed from the bytes).
pub fn decode_mqtt(bytes: &mut BytesMut) -> (res: Result<Option<Packet>, DecodeError>)
    ensures
        decodes_v3(bytes_mut_view(*old(bytes)), bytes_mut_view(*final(bytes)), res),
{
    if bytes_mut_len(bytes) == 0 {
        return Ok(None);
    }
    let p = Packet::Connect(
        ConnectPacket {
            protocol_name: String::new(),
            keep_alive: 0b1000_00000000,
            clean_start: true,
            client_id: String::new(),
            user_name: None,
            password: None,
        },
    );
    bytes_mut_clear(bytes);
    Ok(Some(p))
}

/// The broker's answer to a packet of an MQTT 3.1 connection: a CONNECT is
/// accepted with a CONNACK that reports a present session; no other packet
/// is answered.
pub fn process_v3(packet: &Packet) -> (reply: Option<Packet>)
    ensures
        packet is Connect ==> reply == Some(
            Packet::ConnAck(ConnAck { session_present: true, code: ConnectAckCode::Success }),
        ),
        !(packet is Connect) ==> reply is None,
{
    match packet {
        Packet::Connect(_) => Some(
            Packet::ConnAck(ConnAck { session_present: true, code: ConnectAckCode::Success }),
        ),
        _ => None,
    }
}

/// The codec of MQTT 3.1 connections.
#[derive(Debug)]
pub struct Codec {}

impl Codec {
    /// A new codec.
    pub fn new() -> (c: Codec) {
        Codec {}
    }
}

impl crate::Decoder for Codec {
    type Item = Packet;

    type Error = DecodeError;

    fn decode(&mut self, src: &mut BytesMut) -> (res: Result<Option<Packet>, DecodeError>)
        ensures
            decodes_v3(bytes_mut_view(*old(src)), bytes_mut_view(*final(src)), res),
    {
        decode_mqtt(src)
    }
}

/// The broker's codec for MQTT 3.1 connections.
#[derive(Debug)]
pub struct CodecV3 {}

impl CodecV3 {
    /// A new codec.
    pub fn new() -> (c: CodecV3) {
        CodecV3 {}
    }
}

impl crate::Decoder for CodecV3 {
    type Item = Packet;

    type Error = DecodeError;

    fn decode(&mut self, src: &mut BytesMut) -> (res: Result<Option<Packet>, DecodeError>)
        ensures
            decodes_v3(bytes_mut_view(*old(src)), bytes_mut_view(*final(src)), res),
    {
        decode_mqtt(src)
    }
}

} // verus!
