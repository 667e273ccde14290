//! MQTT v3.1.1 packet decoder.
//!
//! The decoding rules are stated as spec functions over byte sequences:
//! [`decode_spec`] for a whole frame and one spec function per packet body.
//! The executable decoder is proved to follow them exactly, including which
//! error it reports and how many bytes it consumes from the buffer.

use vstd::prelude::*;

use crate::bytes_buf::{bytes_mut_as_slice, bytes_mut_len, bytes_mut_split_to, bytes_mut_view};
use crate::error::{result_agrees, ErrorKind, MqttError};
use crate::text::decimal;
use bytes::BytesMut;

use super::packet::{
    qos_from_value, qos_value, ConnAckPacket, ConnectPacket, ConnectPacketView, DisconnectPacket, Packet,
    PacketView, PingReqPacket, PingRespPacket, PubAckPacket, PubCompPacket, PubRecPacket,
    PubRelPacket, PublishPacket, PublishPacketView, QoS, SubAckPacket, SubAckPacketView,
    SubscribePacket, SubscribePacketView, UnsubAckPacket, UnsubscribePacket,
    UnsubscribePacketView,
};
use super::return_codes::{connect_return_code_from_value, suback_return_code_from_value,
    ConnectReturnCode, SubAckReturnCode};
use super::validation::{
    connack_error, connect_error, fixed_header_flags_error, packet_error, packet_id_error,
    topic_filter_error, topic_name_error, validate_connack_packet, validate_connect_packet,
    validate_fixed_header_flags, validate_packet, validate_packet_id, validate_topic_filter,
    validate_topic_name,
};
use super::wire::{
    be_u16, binary_field, parse_binary_data, parse_remaining_length, parse_utf8_string,
    remaining_length, slice_range, slice_to_vec, string_field, RemainingLength, lemma_string_field_consumes, lemma_binary_field_consumes,
};

verus! {

// ============================================================================
// Decoding rules
// ============================================================================

/// An optional UTF-8 string field, present when `flag` is set.
pub open spec fn opt_string_field(flag: bool, s: Seq<u8>) -> Result<(Option<Seq<char>>, nat), ErrorKind> {
    if !flag {
        Ok((None, 0))
    } else {
        match string_field(s) {
            Ok((v, n)) => Ok((Some(v), n)),
            Err(e) => Err(e),
        }
    }
}

/// An optional binary field, present when `flag` is set.
pub open spec fn opt_binary_field(flag: bool, s: Seq<u8>) -> Result<(Option<Seq<u8>>, nat), ErrorKind> {
    if !flag {
        Ok((None, 0))
    } else {
        match binary_field(s) {
            Ok((v, n)) => Ok((Some(v), n)),
            Err(e) => Err(e),
        }
    }
}

/// The will topic field of a CONNECT payload: read when the Will Flag is
/// set, and then held to the topic name rule.
pub open spec fn will_topic_field(flag: bool, s: Seq<u8>) -> Result<(Option<Seq<char>>, nat), ErrorKind> {
    match opt_string_field(flag, s) {
        Ok((Some(t), n)) => match topic_name_error(t) {
            Some(e) => Err(e),
            None => Ok((Some(t), n)),
        },
        other => other,
    }
}

/// The payload of a CONNECT packet after the variable header: client
/// identifier, will topic, will message, user name and password, each read
/// when its flag is set.
pub open spec fn connect_payload(
    d: Seq<u8>,
    will_flag: bool,
    username_flag: bool,
    password_flag: bool,
) -> Result<
    (Seq<char>, Option<Seq<char>>, Option<Seq<u8>>, Option<Seq<char>>, Option<Seq<u8>>),
    ErrorKind,
> {
    match string_field(d) {
        Err(e) => Err(e),
        Ok((client_id, n1)) => {
            let d1 = d.skip(n1 as int);
            match will_topic_field(will_flag, d1) {
                Err(e) => Err(e),
                Ok((will_topic, n2)) => {
                    let d2 = d1.skip(n2 as int);
                    match opt_binary_field(will_flag, d2) {
                        Err(e) => Err(e),
                        Ok((will_message, n3)) => {
                            let d3 = d2.skip(n3 as int);
                            match opt_string_field(username_flag, d3) {
                                Err(e) => Err(e),
                                Ok((username, n4)) => {
                                    let d4 = d3.skip(n4 as int);
                                    match opt_binary_field(password_flag, d4) {
                                        Err(e) => Err(e),
                                        Ok((password, _)) => Ok(
                                            (client_id, will_topic, will_message, username, password),
                                        ),
                                    }
                                },
                            }
                        },
                    }
                },
            }
        },
    }
}

/// Decoding rule for the body of a CONNECT packet.
pub open spec fn connect_body(d: Seq<u8>) -> Result<ConnectPacketView, ErrorKind> {
    match string_field(d) {
        Err(e) => Err(e),
        Ok((protocol_name, n)) => {
            let r = d.skip(n as int);
            if r.len() < 4 {
                Err(ErrorKind::IncompletePacket { expected: 4, actual: r.len() as usize })
            } else {
                let protocol_level = r[0];
                let flags = r[1];
                if flags & 0x01 != 0 {
                    Err(ErrorKind::ProtocolViolation {
                        message: "CONNECT reserved bit must be 0"@,
                        packet_type: Some(1),
                    })
                } else {
                    match qos_from_value((flags & 0x18) >> 3u8) {
                        None => Err(ErrorKind::ProtocolViolation {
                            message: "Invalid Will QoS: Invalid QoS value: must be 0, 1, or 2"@,
                            packet_type: Some(1),
                        }),
                        Some(will_qos) => {
                            let username_flag = flags & 0x80 != 0;
                            let password_flag = flags & 0x40 != 0;
                            let will_retain = flags & 0x20 != 0;
                            let will_flag = flags & 0x04 != 0;
                            let clean_session = flags & 0x02 != 0;
                            let keep_alive = be_u16(r[2], r[3]);
                            match connect_payload(
                                r.skip(4),
                                will_flag,
                                username_flag,
                                password_flag,
                            ) {
                                Err(e) => Err(e),
                                Ok((client_id, will_topic, will_message, username, password)) => {
                                    let p = ConnectPacketView {
                                        protocol_name,
                                        protocol_level,
                                        clean_session,
                                        will_flag,
                                        will_qos,
                                        will_retain,
                                        password_flag,
                                        username_flag,
                                        keep_alive,
                                        client_id,
                                        will_topic,
                                        will_message,
                                        username,
                                        password,
                                    };
                                    match connect_error(p) {
                                        Some(e) => Err(e),
                                        None => Ok(p),
                                    }
                                },
                            }
                        },
                    }
                }
            }
        },
    }
}

/// Decoding rule for the body of a CONNACK packet.
pub open spec fn connack_body(d: Seq<u8>) -> Result<ConnAckPacket, ErrorKind> {
    if d.len() < 2 {
        Err(ErrorKind::IncompletePacket { expected: 2, actual: d.len() as usize })
    } else if d[0] & 0xFE != 0 {
        Err(ErrorKind::ProtocolViolation {
            message: "CONNACK reserved bits must be 0"@,
            packet_type: Some(2),
        })
    } else {
        match connect_return_code_from_value(d[1]) {
            None => Err(ErrorKind::InvalidReturnCode { code: d[1] }),
            Some(return_code) => {
                let p = ConnAckPacket { session_present: d[0] & 0x01 != 0, return_code };
                match connack_error(p) {
                    Some(e) => Err(e),
                    None => Ok(p),
                }
            },
        }
    }
}

/// Decoding rule for the body of a PUBLISH packet whose first byte is `first`.
pub open spec fn publish_body(first: u8, d: Seq<u8>) -> Result<PublishPacketView, ErrorKind> {
    let duplicate = first & 0x08 != 0;
    let retain = first & 0x01 != 0;
    match qos_from_value((first & 0x06) >> 1u8) {
        None => Err(ErrorKind::ProtocolViolation {
            message: "Invalid PUBLISH QoS: Invalid QoS value: must be 0, 1, or 2"@,
            packet_type: Some(3),
        }),
        Some(qos) => match string_field(d) {
            Err(e) => Err(e),
            Ok((topic_name, n)) => {
                let r = d.skip(n as int);
                match topic_name_error(topic_name) {
                    Some(e) => Err(e),
                    None => if qos != QoS::AtMostOnce {
                        if r.len() < 2 {
                            Err(ErrorKind::IncompletePacket { expected: 2, actual: r.len() as usize })
                        } else {
                            let id = be_u16(r[0], r[1]);
                            match packet_id_error(id) {
                                Some(e) => Err(e),
                                None => Ok(
                                    PublishPacketView {
                                        topic_name,
                                        packet_id: Some(id),
                                        payload: r.skip(2),
                                        qos,
                                        duplicate,
                                        retain,
                                    },
                                ),
                            }
                        }
                    } else if duplicate {
                        Err(ErrorKind::ProtocolViolation {
                            message: "DUP flag should not be set for QoS 0 messages"@,
                            packet_type: Some(3),
                        })
                    } else {
                        Ok(
                            PublishPacketView {
                                topic_name,
                                packet_id: None,
                                payload: r,
                                qos,
                                duplicate,
                                retain,
                            },
                        )
                    },
                }
            },
        },
    }
}

/// Decoding rule for a body that holds only a non-zero packet identifier.
pub open spec fn packet_id_body(d: Seq<u8>) -> Result<u16, ErrorKind> {
    if d.len() < 2 {
        Err(ErrorKind::IncompletePacket { expected: 2, actual: d.len() as usize })
    } else {
        let id = be_u16(d[0], d[1]);
        match packet_id_error(id) {
            Some(e) => Err(e),
            None => Ok(id),
        }
    }
}

/// Decoding rule for the topic list of a SUBSCRIBE packet: (filter, QoS)
/// entries until the body ends.
pub open spec fn subscribe_topics(d: Seq<u8>) -> Result<Seq<(Seq<char>, QoS)>, ErrorKind>
    decreases d.len(),
{
    if d.len() == 0 {
        Ok(Seq::empty())
    } else {
        match string_field(d) {
            Err(e) => Err(e),
            Ok((filter, n)) => match topic_filter_error(filter) {
                Some(e) => Err(e),
                None => {
                    proof {
                        lemma_string_field_consumes(d);
                    }
                    let r = d.skip(n as int);
                    if r.len() == 0 {
                        Err(ErrorKind::IncompletePacket { expected: 1, actual: 0 })
                    } else {
                        match qos_from_value(r[0]) {
                            None => Err(ErrorKind::ProtocolViolation {
                                message: "Invalid QoS in SUBSCRIBE: Invalid QoS value: must be 0, 1, or 2"@,
                                packet_type: Some(8),
                            }),
                            Some(qos) => match subscribe_topics(r.skip(1)) {
                                Err(e) => Err(e),
                                Ok(rest) => Ok(seq![(filter, qos)] + rest),
                            },
                        }
                    }
                },
            },
        }
    }
}

/// Decoding rule for the body of a SUBSCRIBE packet.
pub open spec fn subscribe_body(d: Seq<u8>) -> Result<SubscribePacketView, ErrorKind> {
    match packet_id_body(d) {
        Err(e) => Err(e),
        Ok(packet_id) => match subscribe_topics(d.skip(2)) {
            Err(e) => Err(e),
            Ok(topics) => if topics.len() == 0 {
                Err(ErrorKind::ProtocolViolation {
                    message: "SUBSCRIBE must contain at least one topic filter"@,
                    packet_type: Some(8),
                })
            } else {
                Ok(SubscribePacketView { packet_id, topics })
            },
        },
    }
}

/// Decoding rule for the return codes of a SUBACK packet: one byte each.
pub open spec fn suback_codes(d: Seq<u8>) -> Result<Seq<SubAckReturnCode>, ErrorKind>
    decreases d.len(),
{
    if d.len() == 0 {
        Ok(Seq::empty())
    } else {
        match suback_return_code_from_value(d[0]) {
            None => Err(ErrorKind::InvalidReturnCode { code: d[0] }),
            Some(c) => match suback_codes(d.skip(1)) {
                Err(e) => Err(e),
                Ok(rest) => Ok(seq![c] + rest),
            },
        }
    }
}

/// Decoding rule for the body of a SUBACK packet.
pub open spec fn suback_body(d: Seq<u8>) -> Result<SubAckPacketView, ErrorKind> {
    match packet_id_body(d) {
        Err(e) => Err(e),
        Ok(packet_id) => match suback_codes(d.skip(2)) {
            Err(e) => Err(e),
            Ok(return_codes) => if return_codes.len() == 0 {
                Err(ErrorKind::ProtocolViolation {
                    message: "SUBACK must contain at least one return code"@,
                    packet_type: Some(9),
                })
            } else {
                Ok(SubAckPacketView { packet_id, return_codes })
            },
        },
    }
}

/// Decoding rule for the topic list of an UNSUBSCRIBE packet.
pub open spec fn unsubscribe_topics(d: Seq<u8>) -> Result<Seq<Seq<char>>, ErrorKind>
    decreases d.len(),
{
    if d.len() == 0 {
        Ok(Seq::empty())
    } else {
        match string_field(d) {
            Err(e) => Err(e),
            Ok((filter, n)) => match topic_filter_error(filter) {
                Some(e) => Err(e),
                None => {
                    proof {
                        lemma_string_field_consumes(d);
                    }
                    match unsubscribe_topics(d.skip(n as int)) {
                    Err(e) => Err(e),
                    Ok(rest) => Ok(seq![filter] + rest),
                    }
                },
            },
        }
    }
}

/// Decoding rule for the body of an UNSUBSCRIBE packet.
pub open spec fn unsubscribe_body(d: Seq<u8>) -> Result<UnsubscribePacketView, ErrorKind> {
    match packet_id_body(d) {
        Err(e) => Err(e),
        Ok(packet_id) => match unsubscribe_topics(d.skip(2)) {
            Err(e) => Err(e),
            Ok(topics) => if topics.len() == 0 {
                Err(ErrorKind::ProtocolViolation {
                    message: "UNSUBSCRIBE must contain at least one topic filter"@,
                    packet_type: Some(10),
                })
            } else {
                Ok(UnsubscribePacketView { packet_id, topics })
            },
        },
    }
}

/// Decoding rule for a packet body, by packet type number, before the final
/// whole-packet validation.
pub open spec fn body_spec(first: u8, packet_type: u8, d: Seq<u8>) -> Result<PacketView, ErrorKind> {
    if packet_type == 1 {
        match connect_body(d) {
            Ok(p) => Ok(PacketView::Connect(p)),
            Err(e) => Err(e),
        }
    } else if packet_type == 2 {
        match connack_body(d) {
            Ok(p) => Ok(PacketView::ConnAck(p)),
            Err(e) => Err(e),
        }
    } else if packet_type == 3 {
        match publish_body(first, d) {
            Ok(p) => Ok(PacketView::Publish(p)),
            Err(e) => Err(e),
        }
    } else if packet_type == 4 {
        match packet_id_body(d) {
            Ok(id) => Ok(PacketView::PubAck(PubAckPacket { packet_id: id })),
            Err(e) => Err(e),
        }
    } else if packet_type == 5 {
        match packet_id_body(d) {
            Ok(id) => Ok(PacketView::PubRec(PubRecPacket { packet_id: id })),
            Err(e) => Err(e),
        }
    } else if packet_type == 6 {
        match packet_id_body(d) {
            Ok(id) => Ok(PacketView::PubRel(PubRelPacket { packet_id: id })),
            Err(e) => Err(e),
        }
    } else if packet_type == 7 {
        match packet_id_body(d) {
            Ok(id) => Ok(PacketView::PubComp(PubCompPacket { packet_id: id })),
            Err(e) => Err(e),
        }
    } else if packet_type == 8 {
        match subscribe_body(d) {
            Ok(p) => Ok(PacketView::Subscribe(p)),
            Err(e) => Err(e),
        }
    } else if packet_type == 9 {
        match suback_body(d) {
            Ok(p) => Ok(PacketView::SubAck(p)),
            Err(e) => Err(e),
        }
    } else if packet_type == 10 {
        match unsubscribe_body(d) {
            Ok(p) => Ok(PacketView::Unsubscribe(p)),
            Err(e) => Err(e),
        }
    } else if packet_type == 11 {
        match packet_id_body(d) {
            Ok(id) => Ok(PacketView::UnsubAck(UnsubAckPacket { packet_id: id })),
            Err(e) => Err(e),
        }
    } else if packet_type == 12 {
        Ok(PacketView::PingReq)
    } else if packet_type == 13 {
        Ok(PacketView::PingResp)
    } else {
        Ok(PacketView::Disconnect)
    }
}

/// Decoding rule for a packet body followed by whole-packet validation.
#[verifier::opaque]
pub open spec fn packet_spec(first: u8, packet_type: u8, d: Seq<u8>) -> Result<PacketView, ErrorKind> {
    match body_spec(first, packet_type, d) {
        Err(e) => Err(e),
        Ok(p) => match packet_error(p) {
            Some(e) => Err(e),
            None => Ok(p),
        },
    }
}

/// The outcome of decoding from the front of a buffer.
pub enum DecodeOutcome {
    /// More bytes are needed; nothing is consumed.
    NeedMore,
    /// The fixed header is rejected; nothing is consumed.
    Reject(ErrorKind),
    /// A frame of `len` bytes is consumed and decoded to `result`.
    Frame { len: nat, result: Result<PacketView, ErrorKind> },
}

/// Decoding rule for the front of a byte buffer.
///
/// Fewer than two bytes: more are needed. The packet type (upper nibble of
/// the first byte) must be 1 to 14 and the flags (lower nibble) must fit the
/// type. The Remaining Length follows; a field that does not end within four
/// bytes is rejected. When the buffer ends within the Remaining Length
/// field, or before the whole frame, more bytes are needed. Otherwise the
/// frame is consumed and its body decoded.
pub open spec fn decode_spec(s: Seq<u8>) -> DecodeOutcome {
    if s.len() < 2 {
        DecodeOutcome::NeedMore
    } else {
        let first = s[0];
        let packet_type = first >> 4u8;
        let flags = first & 0x0F;
        if packet_type == 0 || packet_type > 14 {
            DecodeOutcome::Reject(
                ErrorKind::MalformedPacket {
                    message: "Invalid packet type: "@ + decimal(packet_type as nat),
                },
            )
        } else if fixed_header_flags_error(packet_type, flags) is Some {
            DecodeOutcome::Reject(fixed_header_flags_error(packet_type, flags)->0)
        } else {
            match remaining_length(s.skip(1)) {
                RemainingLength::Overflow { value } => DecodeOutcome::Reject(
                    ErrorKind::InvalidRemainingLength { length: value as usize },
                ),
                RemainingLength::NeedMore => DecodeOutcome::NeedMore,
                RemainingLength::Length { value, size } => {
                    let total = 1 + size + value;
                    if s.len() < total {
                        DecodeOutcome::NeedMore
                    } else {
                        DecodeOutcome::Frame {
                            len: total,
                            result: packet_spec(
                                first,
                                packet_type,
                                s.subrange(1 + size as int, total as int),
                            ),
                        }
                    }
                },
            }
        }
    }
}

// ============================================================================
// Decoder
// ============================================================================

/// Prepends decoded items to the outcome of decoding the rest of a list.
pub open spec fn prepend_items<T>(items: Seq<T>, rest: Result<Seq<T>, ErrorKind>) -> Result<Seq<T>, ErrorKind> {
    match rest {
        Ok(r) => Ok(items + r),
        Err(e) => Err(e),
    }
}

/// Reads the big-endian 16-bit integer at byte `pos`.
fn read_u16(buf: &[u8], pos: usize) -> (v: u16)
    requires
        pos + 2 <= buf@.len(),
    ensures
        v == be_u16(buf@[pos as int], buf@[pos + 1]),
{
    (buf[pos] as u16) * 256 + (buf[pos + 1] as u16)
}

/// Reads an optional length-prefixed string at byte `pos`, when `flag` is set.
fn parse_opt_string(flag: bool, buf: &[u8], pos: usize) -> (res: Result<(Option<String>, usize), MqttError>)
    requires
        pos <= buf@.len(),
    ensures
        match opt_string_field(flag, buf@.skip(pos as int)) {
            Ok((v, n)) => res matches Ok((r, p)) && super::packet::opt_str_view(r) == v && p == pos + n
                && p <= buf@.len(),
            Err(k) => res matches Err(e) && e.kind() == k,
        },
{
    if !flag {
        return Ok((None, pos));
    }
    let (s, p) = parse_utf8_string(buf, pos)?;
    Ok((Some(s), p))
}

/// Reads an optional length-prefixed binary field at byte `pos`, when `flag` is set.
fn parse_opt_binary(flag: bool, buf: &[u8], pos: usize) -> (res: Result<(Option<Vec<u8>>, usize), MqttError>)
    requires
        pos <= buf@.len(),
    ensures
        match opt_binary_field(flag, buf@.skip(pos as int)) {
            Ok((v, n)) => res matches Ok((r, p)) && super::packet::opt_bytes_view(r) == v && p == pos + n
                && p <= buf@.len(),
            Err(k) => res matches Err(e) && e.kind() == k,
        },
{
    if !flag {
        return Ok((None, pos));
    }
    let (b, p) = parse_binary_data(buf, pos)?;
    Ok((Some(b), p))
}

/// Reads the will topic at byte `pos` when `flag` is set, and validates it as a topic name.
fn parse_will_topic(flag: bool, buf: &[u8], pos: usize) -> (res: Result<(Option<String>, usize), MqttError>)
    requires
        pos <= buf@.len(),
    ensures
        match will_topic_field(flag, buf@.skip(pos as int)) {
            Ok((v, n)) => res matches Ok((r, p)) && super::packet::opt_str_view(r) == v && p == pos + n
                && p <= buf@.len(),
            Err(k) => res matches Err(e) && e.kind() == k,
        },
{
    let (topic, p) = parse_opt_string(flag, buf, pos)?;
    match &topic {
        Some(t) => {
            validate_topic_name(t.as_str())?;
        },
        None => {},
    }
    Ok((topic, p))
}

/// The view of the decoded CONNECT payload fields.
pub open spec fn connect_payload_view(
    t: (String, Option<String>, Option<Vec<u8>>, Option<String>, Option<Vec<u8>>),
) -> (Seq<char>, Option<Seq<char>>, Option<Seq<u8>>, Option<Seq<char>>, Option<Seq<u8>>) {
    (
        t.0@,
        super::packet::opt_str_view(t.1),
        super::packet::opt_bytes_view(t.2),
        super::packet::opt_str_view(t.3),
        super::packet::opt_bytes_view(t.4),
    )
}

/// Parses the payload of a CONNECT packet starting at byte `pos`.
fn parse_connect_payload(
    buf: &[u8],
    pos: usize,
    will_flag: bool,
    username_flag: bool,
    password_flag: bool,
) -> (res: Result<(String, Option<String>, Option<Vec<u8>>, Option<String>, Option<Vec<u8>>), MqttError>)
    requires
        pos <= buf@.len(),
    ensures
        match connect_payload(buf@.skip(pos as int), will_flag, username_flag, password_flag) {
            Ok(v) => res matches Ok(t) && connect_payload_view(t) == v,
            Err(k) => res matches Err(e) && e.kind() == k,
        },
{
    let ghost d = buf@.skip(pos as int);
    let (client_id, p1) = parse_utf8_string(buf, pos)?;
    assert(d.skip(p1 - pos) =~= buf@.skip(p1 as int));
    let (will_topic, p2) = parse_will_topic(will_flag, buf, p1)?;
    assert(buf@.skip(p1 as int).skip(p2 - p1) =~= buf@.skip(p2 as int));
    let (will_message, p3) = parse_opt_binary(will_flag, buf, p2)?;
    assert(buf@.skip(p2 as int).skip(p3 - p2) =~= buf@.skip(p3 as int));
    let (username, p4) = parse_opt_string(username_flag, buf, p3)?;
    assert(buf@.skip(p3 as int).skip(p4 - p3) =~= buf@.skip(p4 as int));
    let (password, _p5) = parse_opt_binary(password_flag, buf, p4)?;
    Ok((client_id, will_topic, will_message, username, password))
}

/// Parses the body of a CONNECT packet.
fn parse_connect_packet(buf: &[u8]) -> (res: Result<Packet, MqttError>)
    ensures
        match connect_body(buf@) {
            Ok(p) => res matches Ok(Packet::Connect(q)) && q@ == p,
            Err(k) => res matches Err(e) && e.kind() == k,
        },
{
    assert(buf@.skip(0) =~= buf@);
    let (protocol_name, pos) = parse_utf8_string(buf, 0)?;
    assert(pos <= buf.len());
    let ghost r = buf@.skip(pos as int);
    if buf.len() - pos < 4 {
        return Err(MqttError::incomplete(4, buf.len() - pos));
    }
    let protocol_level = buf[pos];
    let connect_flags = buf[pos + 1];
    if (connect_flags & 0x01) != 0 {
        return Err(MqttError::protocol_violation("CONNECT reserved bit must be 0", Some(1)));
    }
    let username_flag = (connect_flags & 0x80) != 0;
    let password_flag = (connect_flags & 0x40) != 0;
    let will_retain = (connect_flags & 0x20) != 0;
    let will_qos = match QoS::try_from((connect_flags & 0x18) >> 3) {
        Ok(q) => q,
        Err(_) => {
            return Err(MqttError::protocol_violation("Invalid Will QoS: Invalid QoS value: must be 0, 1, or 2", Some(1)));
        },
    };
    let will_flag = (connect_flags & 0x04) != 0;
    let clean_session = (connect_flags & 0x02) != 0;
    let keep_alive = read_u16(buf, pos + 2);
    let pos = pos + 4;
    assert(r.skip(4) =~= buf@.skip(pos as int));
    let (client_id, will_topic, will_message, username, password) = parse_connect_payload(
        buf,
        pos,
        will_flag,
        username_flag,
        password_flag,
    )?;
    let packet = ConnectPacket {
        protocol_name,
        protocol_level,
        clean_session,
        will_flag,
        will_qos,
        will_retain,
        password_flag,
        username_flag,
        keep_alive,
        client_id,
        will_topic,
        will_message,
        username,
        password,
    };
    validate_connect_packet(&packet)?;
    Ok(Packet::Connect(packet))
}

/// Parses the body of a CONNACK packet.
fn parse_connack_packet(buf: &[u8]) -> (res: Result<Packet, MqttError>)
    ensures
        match connack_body(buf@) {
            Ok(p) => res matches Ok(Packet::ConnAck(q)) && q == p,
            Err(k) => res matches Err(e) && e.kind() == k,
        },
{
    if buf.len() < 2 {
        return Err(MqttError::incomplete(2, buf.len()));
    }
    let connect_flags = buf[0];
    if (connect_flags & 0xFE) != 0 {
        return Err(MqttError::protocol_violation("CONNACK reserved bits must be 0", Some(2)));
    }
    let session_present = (connect_flags & 0x01) != 0;
    let return_code_raw = buf[1];
    let return_code = match ConnectReturnCode::try_from(return_code_raw) {
        Ok(c) => c,
        Err(code) => {
            return Err(MqttError::invalid_return_code(code));
        },
    };
    let packet = ConnAckPacket { session_present, return_code };
    validate_connack_packet(&packet)?;
    Ok(Packet::ConnAck(packet))
}

/// Parses the body of a PUBLISH packet whose first byte is `first_byte`.
fn parse_publish_packet(first_byte: u8, buf: &[u8]) -> (res: Result<Packet, MqttError>)
    ensures
        match publish_body(first_byte, buf@) {
            Ok(p) => res matches Ok(Packet::Publish(q)) && q@ == p,
            Err(k) => res matches Err(e) && e.kind() == k,
        },
{
    let duplicate = (first_byte & 0x08) != 0;
    let qos = match QoS::try_from((first_byte & 0x06) >> 1) {
        Ok(q) => q,
        Err(_) => {
            return Err(MqttError::protocol_violation("Invalid PUBLISH QoS: Invalid QoS value: must be 0, 1, or 2", Some(3)));
        },
    };
    let retain = (first_byte & 0x01) != 0;
    assert(buf@.skip(0) =~= buf@);
    let (topic_name, pos) = parse_utf8_string(buf, 0)?;
    validate_topic_name(topic_name.as_str())?;
    let ghost r = buf@.skip(pos as int);
    let (packet_id, start) = if qos != QoS::AtMostOnce {
        if buf.len() - pos < 2 {
            return Err(MqttError::incomplete(2, buf.len() - pos));
        }
        let id = read_u16(buf, pos);
        validate_packet_id(id)?;
        assert(r.skip(2) =~= buf@.skip(pos + 2));
        (Some(id), pos + 2)
    } else {
        if duplicate {
            return Err(
                MqttError::protocol_violation("DUP flag should not be set for QoS 0 messages", Some(3)),
            );
        }
        (None, pos)
    };
    let payload = slice_to_vec(slice_range(buf, start, buf.len()));
    assert(buf@.subrange(start as int, buf@.len() as int) =~= buf@.skip(start as int));
    Ok(
        Packet::Publish(
            PublishPacket { topic_name, packet_id, payload, qos, duplicate, retain },
        ),
    )
}

/// Parses a body that holds a single non-zero packet identifier.
fn parse_packet_id(buf: &[u8]) -> (res: Result<u16, MqttError>)
    ensures
        match packet_id_body(buf@) {
            Ok(id) => res matches Ok(v) && v == id,
            Err(k) => res matches Err(e) && e.kind() == k,
        },
{
    if buf.len() < 2 {
        return Err(MqttError::incomplete(2, buf.len()));
    }
    let packet_id = read_u16(buf, 0);
    validate_packet_id(packet_id)?;
    Ok(packet_id)
}

/// Parses the body of a SUBSCRIBE packet.
fn parse_subscribe_packet(buf: &[u8]) -> (res: Result<Packet, MqttError>)
    ensures
        match subscribe_body(buf@) {
            Ok(p) => res matches Ok(Packet::Subscribe(q)) && q@ == p,
            Err(k) => res matches Err(e) && e.kind() == k,
        },
{
    let packet_id = parse_packet_id(buf)?;
    let mut topics: Vec<(String, QoS)> = Vec::new();
    let mut pos: usize = 2;
    let ghost whole = subscribe_topics(buf@.skip(2));
    while pos < buf.len()
        invariant
            2 <= pos <= buf@.len(),
            whole == subscribe_topics(buf@.skip(2)),
            packet_id_body(buf@) == Ok::<u16, ErrorKind>(packet_id),
            whole == prepend_items(
                super::packet::topic_qos_view(topics@),
                subscribe_topics(buf@.skip(pos as int)),
            ),
        decreases buf@.len() - pos,
    {
        let ghost d = buf@.skip(pos as int);
        let (topic_filter, p1) = parse_utf8_string(buf, pos)?;
        validate_topic_filter(topic_filter.as_str())?;
        assert(d.skip(p1 - pos) =~= buf@.skip(p1 as int));
        if p1 >= buf.len() {
            return Err(MqttError::incomplete(1, 0));
        }
        let requested_qos = buf[p1];
        let qos = match QoS::try_from(requested_qos) {
            Ok(q) => q,
            Err(_) => {
                return Err(MqttError::protocol_violation("Invalid QoS in SUBSCRIBE: Invalid QoS value: must be 0, 1, or 2", Some(8)));
            },
        };
        assert(buf@.skip(p1 as int).skip(1) =~= buf@.skip(p1 + 1));
        let ghost old_view = super::packet::topic_qos_view(topics@);
        topics.push((topic_filter, qos));
        assert(super::packet::topic_qos_view(topics@) =~= old_view + seq![(topic_filter@, qos)]);
        assert(old_view + (seq![(topic_filter@, qos)] + subscribe_topics(
            buf@.skip(p1 + 1),
        )->Ok_0) =~= (old_view + seq![(topic_filter@, qos)]) + subscribe_topics(
            buf@.skip(p1 + 1),
        )->Ok_0);
        pos = p1 + 1;
    }
    assert(buf@.skip(pos as int).len() == 0);
    assert(super::packet::topic_qos_view(topics@) + Seq::<(Seq<char>, QoS)>::empty() =~= super::packet::topic_qos_view(topics@));
    if topics.len() == 0 {
        return Err(
            MqttError::protocol_violation("SUBSCRIBE must contain at least one topic filter", Some(8)),
        );
    }
    Ok(Packet::Subscribe(SubscribePacket { packet_id, topics }))
}

/// Parses the body of a SUBACK packet.
fn parse_suback_packet(buf: &[u8]) -> (res: Result<Packet, MqttError>)
    ensures
        match suback_body(buf@) {
            Ok(p) => res matches Ok(Packet::SubAck(q)) && q@ == p,
            Err(k) => res matches Err(e) && e.kind() == k,
        },
{
    let packet_id = parse_packet_id(buf)?;
    let mut return_codes: Vec<SubAckReturnCode> = Vec::new();
    let mut pos: usize = 2;
    let ghost whole = suback_codes(buf@.skip(2));
    while pos < buf.len()
        invariant
            2 <= pos <= buf@.len(),
            whole == suback_codes(buf@.skip(2)),
            packet_id_body(buf@) == Ok::<u16, ErrorKind>(packet_id),
            whole == prepend_items(return_codes@, suback_codes(buf@.skip(pos as int))),
        decreases buf@.len() - pos,
    {
        let code = buf[pos];
        let return_code = match SubAckReturnCode::try_from(code) {
            Ok(c) => c,
            Err(_) => {
                return Err(MqttError::invalid_return_code(code));
            },
        };
        assert(buf@.skip(pos as int).skip(1) =~= buf@.skip(pos + 1));
        let ghost old_codes = return_codes@;
        return_codes.push(return_code);
        assert(old_codes + (seq![return_code] + suback_codes(buf@.skip(pos + 1))->Ok_0) =~= return_codes@
            + suback_codes(buf@.skip(pos + 1))->Ok_0);
        pos += 1;
    }
    assert(buf@.skip(pos as int).len() == 0);
    assert(return_codes@ + Seq::<SubAckReturnCode>::empty() =~= return_codes@);
    if return_codes.len() == 0 {
        return Err(
            MqttError::protocol_violation("SUBACK must contain at least one return code", Some(9)),
        );
    }
    Ok(Packet::SubAck(SubAckPacket { packet_id, return_codes }))
}

/// Parses the body of an UNSUBSCRIBE packet.
fn parse_unsubscribe_packet(buf: &[u8]) -> (res: Result<Packet, MqttError>)
    ensures
        match unsubscribe_body(buf@) {
            Ok(p) => res matches Ok(Packet::Unsubscribe(q)) && q@ == p,
            Err(k) => res matches Err(e) && e.kind() == k,
        },
{
    let packet_id = parse_packet_id(buf)?;
    let mut topics: Vec<String> = Vec::new();
    let mut pos: usize = 2;
    let ghost whole = unsubscribe_topics(buf@.skip(2));
    while pos < buf.len()
        invariant
            2 <= pos <= buf@.len(),
            whole == unsubscribe_topics(buf@.skip(2)),
            packet_id_body(buf@) == Ok::<u16, ErrorKind>(packet_id),
            whole == prepend_items(
                super::packet::strings_view(topics@),
                unsubscribe_topics(buf@.skip(pos as int)),
            ),
        decreases buf@.len() - pos,
    {
        let ghost d = buf@.skip(pos as int);
        let (topic_filter, p1) = parse_utf8_string(buf, pos)?;
        validate_topic_filter(topic_filter.as_str())?;
        assert(d.skip(p1 - pos) =~= buf@.skip(p1 as int));
        let ghost old_view = super::packet::strings_view(topics@);
        topics.push(topic_filter);
        assert(super::packet::strings_view(topics@) =~= old_view + seq![topic_filter@]);
        assert(old_view + (seq![topic_filter@] + unsubscribe_topics(buf@.skip(p1 as int))->Ok_0)
            =~= (old_view + seq![topic_filter@]) + unsubscribe_topics(buf@.skip(p1 as int))->Ok_0);
        pos = p1;
    }
    assert(buf@.skip(pos as int).len() == 0);
    assert(super::packet::strings_view(topics@) + Seq::<Seq<char>>::empty() =~= super::packet::strings_view(topics@));
    if topics.len() == 0 {
        return Err(
            MqttError::protocol_violation(
                "UNSUBSCRIBE must contain at least one topic filter",
                Some(10),
            ),
        );
    }
    Ok(Packet::Unsubscribe(UnsubscribePacket { packet_id, topics }))
}

/// Parses a packet body by packet type number.
fn parse_body(first_byte: u8, packet_type: u8, buf: &[u8]) -> (res: Result<Packet, MqttError>)
    requires
        1 <= packet_type <= 14,
    ensures
        match body_spec(first_byte, packet_type, buf@) {
            Ok(p) => res matches Ok(q) && q@ == p,
            Err(k) => res matches Err(e) && e.kind() == k,
        },
{
    if packet_type == 1 {
        parse_connect_packet(buf)
    } else if packet_type == 2 {
        parse_connack_packet(buf)
    } else if packet_type == 3 {
        parse_publish_packet(first_byte, buf)
    } else if packet_type == 4 {
        let packet_id = parse_packet_id(buf)?;
        Ok(Packet::PubAck(PubAckPacket { packet_id }))
    } else if packet_type == 5 {
        let packet_id = parse_packet_id(buf)?;
        Ok(Packet::PubRec(PubRecPacket { packet_id }))
    } else if packet_type == 6 {
        let packet_id = parse_packet_id(buf)?;
        Ok(Packet::PubRel(PubRelPacket { packet_id }))
    } else if packet_type == 7 {
        let packet_id = parse_packet_id(buf)?;
        Ok(Packet::PubComp(PubCompPacket { packet_id }))
    } else if packet_type == 8 {
        parse_subscribe_packet(buf)
    } else if packet_type == 9 {
        parse_suback_packet(buf)
    } else if packet_type == 10 {
        parse_unsubscribe_packet(buf)
    } else if packet_type == 11 {
        let packet_id = parse_packet_id(buf)?;
        Ok(Packet::UnsubAck(UnsubAckPacket { packet_id }))
    } else if packet_type == 12 {
        Ok(Packet::PingReq(PingReqPacket))
    } else if packet_type == 13 {
        Ok(Packet::PingResp(PingRespPacket))
    } else {
        Ok(Packet::Disconnect(DisconnectPacket))
    }
}

/// Parses a packet body by packet type number and validates the packet.
fn parse_packet(first_byte: u8, packet_type: u8, buf: &[u8]) -> (res: Result<Packet, MqttError>)
    requires
        1 <= packet_type <= 14,
    ensures
        match packet_spec(first_byte, packet_type, buf@) {
            Ok(p) => res matches Ok(q) && q@ == p,
            Err(k) => res matches Err(e) && e.kind() == k,
        },
{
    reveal(packet_spec);
    let packet = parse_body(first_byte, packet_type, buf)?;
    validate_packet(&packet)?;
    Ok(packet)
}

/// The decoder's result and the buffer afterwards agree with [`decode_spec`]
/// on the buffer's contents before the call.
pub open spec fn decode_agrees(
    before: Seq<u8>,
    after: Seq<u8>,
    res: Result<Option<Packet>, MqttError>,
) -> bool {
    match decode_spec(before) {
        DecodeOutcome::NeedMore => res matches Ok(None) && after == before,
        DecodeOutcome::Reject(k) => res matches Err(e) && e.kind() == k && after == before,
        DecodeOutcome::Frame { len, result } => after == before.skip(len as int) && match result {
            Ok(p) => res matches Ok(Some(q)) && q@ == p,
            Err(k) => res matches Err(e) && e.kind() == k,
        },
    }
}

/// MQTT v3.1.1 packet decoder.
#[derive(Debug)]
pub struct MqttDecoder;

impl Default for MqttDecoder {
    fn default() -> (d: MqttDecoder) {
        MqttDecoder
    }
}

impl MqttDecoder {
    /// Creates a decoder.
    pub fn new() -> (d: MqttDecoder) {
        MqttDecoder
    }
}

impl crate::Decoder for MqttDecoder {
    type Item = Packet;

    type Error = MqttError;

    /// Decodes one MQTT v3.1.1 packet from the front of `src`.
    ///
    /// Returns `Ok(None)` and leaves `src` untouched when more bytes are
    /// needed; rejects an invalid fixed header without consuming anything;
    /// otherwise consumes one frame and returns its packet or the error
    /// found in it.
    fn decode(&mut self, src: &mut BytesMut) -> (res: Result<Option<Packet>, MqttError>)
        ensures
            decode_agrees(bytes_mut_view(*old(src)), bytes_mut_view(*final(src)), res),
    {
        let ghost before = bytes_mut_view(*src);
        let len = bytes_mut_len(src);
        if len < 2 {
            return Ok(None);
        }
        let data = bytes_mut_as_slice(src);
        let first_byte = data[0];
        let packet_type = first_byte >> 4;
        let flags = first_byte & 0x0F;
        if packet_type == 0 || packet_type > 14 {
            return Err(
                MqttError::malformed_owned(
                    crate::text::join(
                        "Invalid packet type: ",
                        crate::text::number_text(packet_type as u64).as_str(),
                    ),
                ),
            );
        }
        validate_fixed_header_flags(packet_type, flags)?;
        let (_, rest) = data.split_at(1);
        assert(rest@ =~= before.skip(1));
        let (rem_len, header_size) = parse_remaining_length(rest)?;
        if header_size == 0 {
            return Ok(None);
        }
        let total = 1 + header_size + rem_len;
        if len < total {
            return Ok(None);
        }
        let frame = bytes_mut_split_to(src, total);
        let frame_bytes = bytes_mut_as_slice(&frame);
        let body = slice_range(frame_bytes, 1 + header_size, total);
        assert(body@ =~= before.subrange(1 + header_size as int, total as int));
        let packet = parse_packet(first_byte, packet_type, body)?;
        Ok(Some(packet))
    }
}

// ============================================================================
// Laws
// ============================================================================

/// A CONNECT body is read as MQTT v3.1.1 (section 3.1.2) lays it out: a
/// length-prefixed protocol name, the protocol level, the Connect Flags
/// byte, and the keep alive as a big-endian 16-bit integer. The packet read
/// takes its flags from the Connect Flags byte: the User Name Flag from bit
/// 7, the Password Flag from bit 6, Will Retain from bit 5, the Will QoS
/// from bits 4 and 3, the Will Flag from bit 2 and Clean Session from bit 1;
/// bit 0 is 0 in every body that is read.
pub proof fn lemma_connect_body_layout(d: Seq<u8>)
    ensures
        connect_body(d) is Ok ==> {
            let c = connect_body(d)->Ok_0;
            let n = be_u16(d[0], d[1]) as int;
            let flags = d[n + 3];
            &&& d.len() >= n + 6
            &&& c.protocol_level == d[n + 2]
            &&& c.username_flag == (flags & 0x80 != 0)
            &&& c.password_flag == (flags & 0x40 != 0)
            &&& c.will_retain == (flags & 0x20 != 0)
            &&& qos_value(c.will_qos) == (flags & 0x18) >> 3u8
            &&& c.will_flag == (flags & 0x04 != 0)
            &&& c.clean_session == (flags & 0x02 != 0)
            &&& flags & 0x01 == 0
            &&& c.keep_alive == be_u16(d[n + 4], d[n + 5])
        },
{
    reveal(string_field);
    if connect_body(d) is Ok {
        let n = be_u16(d[0], d[1]) as int;
        let r = d.skip(n + 2);
        assert(r[0] == d[n + 2] && r[1] == d[n + 3] && r[2] == d[n + 4] && r[3] == d[n + 5]);
    }
}

/// Every CONNECT packet that the decoder returns from a buffer takes its
/// flags from the Connect Flags byte of the frame, which follows the first
/// byte, the Remaining Length, the length-prefixed protocol name and the
/// protocol level: the User Name Flag from bit 7 and the Password Flag from
/// bit 6 (MQTT v3.1.1, section 3.1.2.3).
pub proof fn lemma_decoded_connect_flags(s: Seq<u8>)
    ensures
        decode_spec(s) matches DecodeOutcome::Frame { len, result: Ok(PacketView::Connect(c)) }
            ==> {
            let h = 1 + remaining_length(s.skip(1))->Length_size as int;
            let n = be_u16(s[h], s[h + 1]) as int;
            let flags = s[h + n + 3];
            &&& s[0] >> 4u8 == 1
            &&& remaining_length(s.skip(1)) is Length
            &&& h + n + 6 <= len <= s.len()
            &&& c.protocol_level == s[h + n + 2]
            &&& c.username_flag == (flags & 0x80 != 0)
            &&& c.password_flag == (flags & 0x40 != 0)
            &&& c.will_retain == (flags & 0x20 != 0)
            &&& qos_value(c.will_qos) == (flags & 0x18) >> 3u8
            &&& c.will_flag == (flags & 0x04 != 0)
            &&& c.clean_session == (flags & 0x02 != 0)
            &&& c.keep_alive == be_u16(s[h + n + 4], s[h + n + 5])
        },
{
    reveal(packet_spec);
    if let DecodeOutcome::Frame { len, result: Ok(PacketView::Connect(c)) } = decode_spec(s) {
        let first = s[0];
        let t = first >> 4u8;
        let h = 1 + remaining_length(s.skip(1))->Length_size as int;
        let d = s.subrange(h, len as int);
        if t != 1 {
            lemma_body_spec_kind(first, t, d);
            assert(false);
        }
        assert(connect_body(d) == Ok::<ConnectPacketView, ErrorKind>(c));
        lemma_connect_body_layout(d);
        let n = be_u16(d[0], d[1]) as int;
        assert(d[0] == s[h] && d[1] == s[h + 1]);
        assert(d[n + 2] == s[h + n + 2] && d[n + 3] == s[h + n + 3]);
        assert(d[n + 4] == s[h + n + 4] && d[n + 5] == s[h + n + 5]);
    }
}

/// Only a packet type number of 1 yields a CONNECT packet.
proof fn lemma_body_spec_kind(first: u8, t: u8, d: Seq<u8>)
    requires
        body_spec(first, t, d) matches Ok(PacketView::Connect(_)),
    ensures
        t == 1,
{
}

} // verus!
