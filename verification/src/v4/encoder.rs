//! MQTT v3.1.1 packet encoder.
//!
//! The wire format of each packet is stated as a spec function over the
//! packet's view: [`frame_bytes`] for a whole frame, built from the first
//! byte, the Remaining Length and the packet body. The encoder is proved to
//! write exactly these bytes, and [`lemma_decode_encode`] proves that the
//! decoder reads every frame the encoder writes back as the packet that was
//! encoded.

use vstd::prelude::*;
use vstd::utf8::encode_utf8;

use crate::bytes_buf::{bytes_mut_extend, bytes_mut_view};
use crate::error::{ErrorKind, MqttError};
use bytes::BytesMut;

use super::decoder::{
    body_spec, connack_body, connect_body, connect_payload, decode_agrees, decode_spec, opt_binary_field,
    opt_string_field, packet_id_body, packet_spec, publish_body, subscribe_body,
    subscribe_topics, suback_body, suback_codes, unsubscribe_body, unsubscribe_topics,
    will_topic_field, DecodeOutcome, MqttDecoder,
};
use super::packet::{
    qos_from_value, qos_value, ConnAckPacket, ConnectPacketView, Packet, PacketView,
    PublishPacketView, QoS, SubAckPacketView, SubscribePacketView, UnsubscribePacketView,
};
use super::return_codes::{
    connect_return_code_value, lemma_connect_return_code_roundtrip,
    lemma_suback_return_code_roundtrip, suback_return_code_value, SubAckReturnCode,
};
use super::validation::{
    connect_error, credentials_error, fixed_header_flags_error, packet_error, packet_id_error,
    publish_error, publish_id_error, topic_filter_error, topic_filters_error, topic_name_error,
    will_error, validate_packet,
};
use super::wire::{
    be_u16, binary_bytes, binary_field, encode_remaining_length, lemma_binary_roundtrip,
    lemma_remaining_length_roundtrip, lemma_string_roundtrip, lemma_u16_bytes, remaining_length,
    string_bytes, string_field, u16_bytes, RemainingLength,
};

verus! {

/// The largest Remaining Length that four bytes can encode.
pub const MAX_REMAINING_LENGTH: usize = 268435455;

// ============================================================================
// Wire format
// ============================================================================

/// `bit` when `b` holds, else 0.
pub open spec fn flag_bit(b: bool, bit: u8) -> u8 {
    if b {
        bit
    } else {
        0
    }
}

/// An optional length-prefixed string: nothing when absent.
pub open spec fn opt_string_bytes(o: Option<Seq<char>>) -> Seq<u8> {
    match o {
        Some(t) => string_bytes(t),
        None => Seq::empty(),
    }
}

/// Optional length-prefixed binary data: nothing when absent.
pub open spec fn opt_binary_bytes(o: Option<Seq<u8>>) -> Seq<u8> {
    match o {
        Some(b) => binary_bytes(b),
        None => Seq::empty(),
    }
}

/// The Connect Flags byte: User Name, Password, Will Retain, Will QoS (two
/// bits), Will Flag and Clean Session, from the high bit down; bit 0 is reserved.
pub open spec fn connect_flags_byte(p: ConnectPacketView) -> u8 {
    flag_bit(p.username_flag, 0x80) | flag_bit(p.password_flag, 0x40) | flag_bit(
        p.will_retain,
        0x20,
    ) | (qos_value(p.will_qos) << 3u8) | flag_bit(p.will_flag, 0x04) | flag_bit(
        p.clean_session,
        0x02,
    )
}

/// The payload of a CONNECT packet: client identifier, then will topic and
/// will message when the Will Flag is set, then user name and password when
/// their flags are set.
pub open spec fn connect_payload_bytes(p: ConnectPacketView) -> Seq<u8> {
    string_bytes(p.client_id) + (if p.will_flag {
        opt_string_bytes(p.will_topic) + opt_binary_bytes(p.will_message)
    } else {
        Seq::empty()
    }) + (if p.username_flag {
        opt_string_bytes(p.username)
    } else {
        Seq::empty()
    }) + (if p.password_flag {
        opt_binary_bytes(p.password)
    } else {
        Seq::empty()
    })
}

/// The body of a CONNECT packet: protocol name, protocol level, connect
/// flags, keep alive, then the payload.
pub open spec fn connect_bytes(p: ConnectPacketView) -> Seq<u8> {
    string_bytes(p.protocol_name) + (seq![p.protocol_level, connect_flags_byte(p)] + u16_bytes(
        p.keep_alive,
    ) + connect_payload_bytes(p))
}

/// The body of a CONNACK packet: the Session Present flag and the return code.
pub open spec fn connack_bytes(p: ConnAckPacket) -> Seq<u8> {
    seq![flag_bit(p.session_present, 0x01), connect_return_code_value(p.return_code)]
}

/// The first byte of a PUBLISH packet: type 3, then DUP, QoS (two bits) and RETAIN.
pub open spec fn publish_first_byte(p: PublishPacketView) -> u8 {
    0x30u8 | flag_bit(p.duplicate, 0x08) | (qos_value(p.qos) << 1u8) | flag_bit(p.retain, 0x01)
}

/// The body of a PUBLISH packet: topic name, packet identifier when there
/// is one, then the payload.
pub open spec fn publish_bytes(p: PublishPacketView) -> Seq<u8> {
    string_bytes(p.topic_name) + ((match p.packet_id {
        Some(id) => u16_bytes(id),
        None => Seq::empty(),
    }) + p.payload)
}

/// The topic list of a SUBSCRIBE packet: each filter followed by its QoS byte.
pub open spec fn subscribe_topics_bytes(ts: Seq<(Seq<char>, QoS)>) -> Seq<u8>
    decreases ts.len(),
{
    if ts.len() == 0 {
        Seq::empty()
    } else {
        string_bytes(ts[0].0) + (seq![qos_value(ts[0].1)] + subscribe_topics_bytes(
            ts.drop_first(),
        ))
    }
}

/// The return codes of a SUBACK packet: one byte each.
pub open spec fn suback_codes_bytes(cs: Seq<SubAckReturnCode>) -> Seq<u8> {
    cs.map_values(|c: SubAckReturnCode| suback_return_code_value(c))
}

/// The topic list of an UNSUBSCRIBE packet: each filter in turn.
pub open spec fn unsubscribe_topics_bytes(ts: Seq<Seq<char>>) -> Seq<u8>
    decreases ts.len(),
{
    if ts.len() == 0 {
        Seq::empty()
    } else {
        string_bytes(ts[0]) + unsubscribe_topics_bytes(ts.drop_first())
    }
}

/// The first byte of the fixed header: packet type and flags.
pub open spec fn first_byte(p: PacketView) -> u8 {
    match p {
        PacketView::Connect(_) => 0x10,
        PacketView::ConnAck(_) => 0x20,
        PacketView::Publish(x) => publish_first_byte(x),
        PacketView::PubAck(_) => 0x40,
        PacketView::PubRec(_) => 0x50,
        PacketView::PubRel(_) => 0x62,
        PacketView::PubComp(_) => 0x70,
        PacketView::Subscribe(_) => 0x82,
        PacketView::SubAck(_) => 0x90,
        PacketView::Unsubscribe(_) => 0xA2,
        PacketView::UnsubAck(_) => 0xB0,
        PacketView::PingReq => 0xC0,
        PacketView::PingResp => 0xD0,
        PacketView::Disconnect => 0xE0,
    }
}

/// The body of a packet: variable header and payload.
pub open spec fn body_bytes(p: PacketView) -> Seq<u8> {
    match p {
        PacketView::Connect(c) => connect_bytes(c),
        PacketView::ConnAck(c) => connack_bytes(c),
        PacketView::Publish(x) => publish_bytes(x),
        PacketView::PubAck(x) => u16_bytes(x.packet_id),
        PacketView::PubRec(x) => u16_bytes(x.packet_id),
        PacketView::PubRel(x) => u16_bytes(x.packet_id),
        PacketView::PubComp(x) => u16_bytes(x.packet_id),
        PacketView::Subscribe(x) => u16_bytes(x.packet_id) + subscribe_topics_bytes(x.topics),
        PacketView::SubAck(x) => u16_bytes(x.packet_id) + suback_codes_bytes(x.return_codes),
        PacketView::Unsubscribe(x) => u16_bytes(x.packet_id) + unsubscribe_topics_bytes(x.topics),
        PacketView::UnsubAck(x) => u16_bytes(x.packet_id),
        PacketView::PingReq => Seq::empty(),
        PacketView::PingResp => Seq::empty(),
        PacketView::Disconnect => Seq::empty(),
    }
}

/// A whole frame: first byte, Remaining Length, body.
pub open spec fn frame_bytes(p: PacketView) -> Seq<u8> {
    seq![first_byte(p)] + (encode_remaining_length(body_bytes(p).len()) + body_bytes(p))
}

/// A string fits a 16-bit length prefix.
pub open spec fn string_fits(t: Seq<char>) -> bool {
    encode_utf8(t).len() <= 65535
}

/// An optional string fits a 16-bit length prefix when present.
pub open spec fn opt_string_fits(o: Option<Seq<char>>) -> bool {
    match o {
        Some(t) => string_fits(t),
        None => true,
    }
}

/// Optional binary data fits a 16-bit length prefix when present.
pub open spec fn opt_binary_fits(o: Option<Seq<u8>>) -> bool {
    match o {
        Some(b) => b.len() <= 65535,
        None => true,
    }
}

/// Every filter of a SUBSCRIBE topic list fits a 16-bit length prefix.
pub open spec fn topics_fit(ts: Seq<(Seq<char>, QoS)>) -> bool {
    forall|i: int| 0 <= i < ts.len() ==> #[trigger] string_fits(ts[i].0)
}

/// Every filter of an UNSUBSCRIBE topic list fits a 16-bit length prefix.
pub open spec fn filters_fit(ts: Seq<Seq<char>>) -> bool {
    forall|i: int| 0 <= i < ts.len() ==> #[trigger] string_fits(ts[i])
}

/// Every string and binary field that the encoding writes with a 16-bit
/// length prefix fits it.
pub open spec fn fields_fit(p: PacketView) -> bool {
    match p {
        PacketView::Connect(c) => {
            &&& string_fits(c.protocol_name)
            &&& string_fits(c.client_id)
            &&& c.will_flag ==> opt_string_fits(c.will_topic) && opt_binary_fits(c.will_message)
            &&& c.username_flag ==> opt_string_fits(c.username)
            &&& c.password_flag ==> opt_binary_fits(c.password)
        },
        PacketView::Publish(x) => string_fits(x.topic_name),
        PacketView::Subscribe(x) => topics_fit(x.topics),
        PacketView::Unsubscribe(x) => filters_fit(x.topics),
        _ => true,
    }
}

/// The error for a string or binary field longer than its 16-bit length
/// prefix allows.
pub open spec fn oversized_field() -> ErrorKind {
    ErrorKind::MalformedPacket { message: "field exceeds 65535 bytes"@ }
}

/// The encoding rule: a packet that breaks a validation rule is refused
/// with that rule's error; a string or binary field longer than 65535 bytes
/// makes the packet malformed; a body longer than the largest Remaining
/// Length makes it too large; any other packet is written as [`frame_bytes`].
pub open spec fn encode_spec(p: PacketView) -> Result<Seq<u8>, ErrorKind> {
    match packet_error(p) {
        Some(e) => Err(e),
        None => if !fields_fit(p) {
            Err(oversized_field())
        } else if body_bytes(p).len() > MAX_REMAINING_LENGTH {
            Err(
                ErrorKind::PacketTooLarge {
                    size: body_bytes(p).len() as usize,
                    max_size: MAX_REMAINING_LENGTH,
                },
            )
        } else {
            Ok(frame_bytes(p))
        },
    }
}

// ============================================================================
// Decoding what was encoded
// ============================================================================

/// The bits of the Connect Flags byte read back as the flags written.
proof fn lemma_connect_flags_bits(u: bool, pw: bool, wr: bool, q: u8, wf: bool, cs: bool, f: u8)
    requires
        q <= 2,
        f == flag_bit(u, 0x80) | flag_bit(pw, 0x40) | flag_bit(wr, 0x20) | (q << 3u8) | flag_bit(
            wf,
            0x04,
        ) | flag_bit(cs, 0x02),
    ensures
        f & 0x01 == 0,
        (f & 0x18) >> 3u8 == q,
        (f & 0x80 != 0) == u,
        (f & 0x40 != 0) == pw,
        (f & 0x20 != 0) == wr,
        (f & 0x04 != 0) == wf,
        (f & 0x02 != 0) == cs,
{
    assert(f & 0x01 == 0 && (f & 0x18) >> 3u8 == q && (f & 0x80 != 0) == u && (f & 0x40 != 0)
        == pw && (f & 0x20 != 0) == wr && (f & 0x04 != 0) == wf && (f & 0x02 != 0) == cs)
        by (bit_vector)
        requires
            q <= 2,
            f == (if u {
                0x80u8
            } else {
                0u8
            }) | (if pw {
                0x40u8
            } else {
                0u8
            }) | (if wr {
                0x20u8
            } else {
                0u8
            }) | (q << 3u8) | (if wf {
                0x04u8
            } else {
                0u8
            }) | (if cs {
                0x02u8
            } else {
                0u8
            }),
    ;
}

/// The bits of a PUBLISH first byte read back as the flags written.
proof fn lemma_publish_first_byte_bits(d: bool, q: u8, r: bool, f: u8)
    requires
        q <= 2,
        f == 0x30u8 | flag_bit(d, 0x08) | (q << 1u8) | flag_bit(r, 0x01),
    ensures
        f >> 4u8 == 3,
        (f & 0x08 != 0) == d,
        (f & 0x01 != 0) == r,
        (f & 0x06) >> 1u8 == q,
        ((f & 0x0F) / 2) % 4 == q,
{
    assert(f >> 4u8 == 3 && (f & 0x08 != 0) == d && (f & 0x01 != 0) == r && (f & 0x06) >> 1u8 == q
        && ((f & 0x0F) / 2) % 4 == q) by (bit_vector)
        requires
            q <= 2,
            f == 0x30u8 | (if d {
                0x08u8
            } else {
                0u8
            }) | (q << 1u8) | (if r {
                0x01u8
            } else {
                0u8
            }),
    ;
}

/// A non-zero packet identifier written as two bytes is read back.
proof fn lemma_packet_id_roundtrip(id: u16)
    requires
        packet_id_error(id) is None,
    ensures
        packet_id_body(u16_bytes(id)) == Ok::<u16, ErrorKind>(id),
{
    lemma_u16_bytes(id);
}

/// A valid CONNACK body is read back.
proof fn lemma_connack_roundtrip(p: ConnAckPacket)
    requires
        super::validation::connack_error(p) is None,
    ensures
        connack_body(connack_bytes(p)) == Ok::<ConnAckPacket, ErrorKind>(p),
{
    let d = connack_bytes(p);
    assert(0u8 & 0xFE == 0 && 1u8 & 0xFE == 0 && 1u8 & 0x01 != 0 && 0u8 & 0x01 == 0)
        by (bit_vector);
    lemma_connect_return_code_roundtrip(p.return_code);
    assert(d[0] == flag_bit(p.session_present, 0x01));
}

/// A valid PUBLISH body is read back, given the first byte written for it.
proof fn lemma_publish_roundtrip(p: PublishPacketView)
    requires
        publish_error(p) is None,
        string_fits(p.topic_name),
    ensures
        publish_body(publish_first_byte(p), publish_bytes(p)) == Ok::<PublishPacketView, ErrorKind>(
            p,
        ),
{
    let f = publish_first_byte(p);
    lemma_publish_first_byte_bits(p.duplicate, qos_value(p.qos), p.retain, f);
    let tail = (match p.packet_id {
        Some(id) => u16_bytes(id),
        None => Seq::empty(),
    }) + p.payload;
    lemma_string_roundtrip(p.topic_name, tail);
    let d = publish_bytes(p);
    let n = 2 + encode_utf8(p.topic_name).len();
    assert(d.skip(n as int) =~= tail);
    match p.packet_id {
        Some(id) => {
            lemma_u16_bytes(id);
            assert(tail.skip(2) =~= p.payload);
            assert(tail[0] == u16_bytes(id)[0] && tail[1] == u16_bytes(id)[1]);
        },
        None => {
            assert(tail =~= p.payload);
        },
    }
}

/// Every filter of a list that passes the list rule passes the filter rule.
proof fn lemma_topic_filters_each(fs: Seq<Seq<char>>)
    requires
        topic_filters_error(fs) is None,
    ensures
        forall|i: int| 0 <= i < fs.len() ==> #[trigger] topic_filter_error(fs[i]) is None,
    decreases fs.len(),
{
    if fs.len() > 0 {
        lemma_topic_filters_each(fs.drop_first());
        assert forall|i: int| 0 <= i < fs.len() implies #[trigger] topic_filter_error(fs[i]) is None by {
            if i > 0 {
                assert(fs[i] == fs.drop_first()[i - 1]);
            }
        }
    }
}

/// A SUBSCRIBE topic list is read back, whatever topics were valid filters.
proof fn lemma_subscribe_topics_roundtrip(ts: Seq<(Seq<char>, QoS)>)
    requires
        forall|i: int| 0 <= i < ts.len() ==> #[trigger] topic_filter_error(ts[i].0) is None,
        topics_fit(ts),
    ensures
        subscribe_topics(subscribe_topics_bytes(ts)) == Ok::<Seq<(Seq<char>, QoS)>, ErrorKind>(ts),
    decreases ts.len(),
{
    let d = subscribe_topics_bytes(ts);
    if ts.len() == 0 {
        assert(d.len() == 0);
        assert(Seq::<(Seq<char>, QoS)>::empty() =~= ts);
    } else {
        let t = ts[0];
        let rest = ts.drop_first();
        assert(topic_filter_error(ts[0].0) is None && string_fits(ts[0].0));
        assert forall|i: int| 0 <= i < rest.len() implies #[trigger] topic_filter_error(rest[i].0) is None
            && string_fits(rest[i].0) by {
            assert(rest[i] == ts[i + 1]);
            assert(topic_filter_error(ts[i + 1].0) is None && string_fits(ts[i + 1].0));
        }
        lemma_subscribe_topics_roundtrip(rest);
        let tail = seq![qos_value(t.1)] + subscribe_topics_bytes(rest);
        lemma_string_roundtrip(t.0, tail);
        let n = 2 + encode_utf8(t.0).len();
        assert(d.len() > 0);
        assert(d.skip(n as int) =~= tail);
        assert(tail.skip(1) =~= subscribe_topics_bytes(rest));
        assert(qos_from_value(qos_value(t.1)) == Some(t.1));
        assert(seq![(t.0, t.1)] + rest =~= ts);
    }
}

/// A SUBACK return code list is read back.
proof fn lemma_suback_codes_roundtrip(cs: Seq<SubAckReturnCode>)
    ensures
        suback_codes(suback_codes_bytes(cs)) == Ok::<Seq<SubAckReturnCode>, ErrorKind>(cs),
    decreases cs.len(),
{
    let d = suback_codes_bytes(cs);
    if cs.len() == 0 {
        assert(d.len() == 0);
        assert(Seq::<SubAckReturnCode>::empty() =~= cs);
    } else {
        lemma_suback_codes_roundtrip(cs.drop_first());
        lemma_suback_return_code_roundtrip(cs[0]);
        assert(d.skip(1) =~= suback_codes_bytes(cs.drop_first()));
        assert(seq![cs[0]] + cs.drop_first() =~= cs);
    }
}

/// An UNSUBSCRIBE topic list is read back, whatever topics were valid filters.
proof fn lemma_unsubscribe_topics_roundtrip(ts: Seq<Seq<char>>)
    requires
        forall|i: int| 0 <= i < ts.len() ==> #[trigger] topic_filter_error(ts[i]) is None,
        filters_fit(ts),
    ensures
        unsubscribe_topics(unsubscribe_topics_bytes(ts)) == Ok::<Seq<Seq<char>>, ErrorKind>(ts),
    decreases ts.len(),
{
    let d = unsubscribe_topics_bytes(ts);
    if ts.len() == 0 {
        assert(d.len() == 0);
        assert(Seq::<Seq<char>>::empty() =~= ts);
    } else {
        let rest = ts.drop_first();
        assert(topic_filter_error(ts[0]) is None && string_fits(ts[0]));
        assert forall|i: int| 0 <= i < rest.len() implies #[trigger] topic_filter_error(rest[i]) is None
            && string_fits(rest[i]) by {
            assert(rest[i] == ts[i + 1]);
            assert(topic_filter_error(ts[i + 1]) is None && string_fits(ts[i + 1]));
        }
        lemma_unsubscribe_topics_roundtrip(rest);
        lemma_string_roundtrip(ts[0], unsubscribe_topics_bytes(rest));
        let n = 2 + encode_utf8(ts[0]).len();
        assert(d.len() > 0);
        assert(d.skip(n as int) =~= unsubscribe_topics_bytes(rest));
        assert(seq![ts[0]] + rest =~= ts);
    }
}

/// The will fields of a CONNECT packet are absent when the Will Flag is clear.
pub open spec fn will_fields_agree(p: PacketView) -> bool {
    match p {
        PacketView::Connect(c) => !c.will_flag ==> c.will_topic is None && c.will_message is None,
        _ => true,
    }
}

/// A valid CONNECT payload is read back.
proof fn lemma_connect_payload_roundtrip(p: ConnectPacketView)
    requires
        connect_error(p) is None,
        fields_fit(PacketView::Connect(p)),
        will_fields_agree(PacketView::Connect(p)),
    ensures
        connect_payload(connect_payload_bytes(p), p.will_flag, p.username_flag, p.password_flag)
            == Ok::<
            (Seq<char>, Option<Seq<char>>, Option<Seq<u8>>, Option<Seq<char>>, Option<Seq<u8>>),
            ErrorKind,
        >((p.client_id, p.will_topic, p.will_message, p.username, p.password)),
{
    let w = if p.will_flag {
        opt_string_bytes(p.will_topic) + opt_binary_bytes(p.will_message)
    } else {
        Seq::empty()
    };
    let u = if p.username_flag {
        opt_string_bytes(p.username)
    } else {
        Seq::empty()
    };
    let pw = if p.password_flag {
        opt_binary_bytes(p.password)
    } else {
        Seq::empty()
    };
    let d = connect_payload_bytes(p);
    assert(d =~= string_bytes(p.client_id) + (w + (u + pw)));
    lemma_string_roundtrip(p.client_id, w + (u + pw));
    let n1 = 2 + encode_utf8(p.client_id).len();
    let d1 = d.skip(n1 as int);
    assert(d1 =~= w + (u + pw));
    assert(will_error(p) is None);
    assert(credentials_error(p) is None);
    let d3 = u + pw;
    if p.will_flag {
        let t = p.will_topic->Some_0;
        let m = p.will_message->Some_0;
        assert(topic_name_error(t) is None);
        lemma_string_roundtrip(t, binary_bytes(m) + d3);
        assert(d1 =~= string_bytes(t) + (binary_bytes(m) + d3));
        let n2 = 2 + encode_utf8(t).len();
        assert(opt_string_field(true, d1) == Ok::<(Option<Seq<char>>, nat), ErrorKind>((Some(t), n2)));
        assert(will_topic_field(true, d1) == Ok::<(Option<Seq<char>>, nat), ErrorKind>((Some(t), n2)));
        let d2 = d1.skip(n2 as int);
        assert(d2 =~= binary_bytes(m) + d3);
        lemma_binary_roundtrip(m, d3);
        assert(opt_binary_field(true, d2) == Ok::<(Option<Seq<u8>>, nat), ErrorKind>((Some(m), 2 + m.len())));
        assert(d2.skip(2 + m.len() as int) =~= d3);
    } else {
        assert(d1.skip(0) =~= d3);
    }
    if p.username_flag {
        let un = p.username->Some_0;
        lemma_string_roundtrip(un, pw);
        assert(d3 =~= string_bytes(un) + pw);
        assert(opt_string_field(true, d3) == Ok::<(Option<Seq<char>>, nat), ErrorKind>((Some(un), 2 + encode_utf8(un).len())));
        assert(d3.skip(2 + encode_utf8(un).len() as int) =~= pw);
    } else {
        assert(d3.skip(0) =~= pw);
    }
    if p.password_flag {
        let pass = p.password->Some_0;
        lemma_binary_roundtrip(pass, Seq::empty());
        assert(pw =~= binary_bytes(pass) + Seq::empty());
    }
}

/// A valid CONNECT body is read back.
proof fn lemma_connect_roundtrip(p: ConnectPacketView)
    requires
        connect_error(p) is None,
        fields_fit(PacketView::Connect(p)),
        will_fields_agree(PacketView::Connect(p)),
    ensures
        connect_body(connect_bytes(p)) == Ok::<ConnectPacketView, ErrorKind>(p),
{
    let f = connect_flags_byte(p);
    lemma_connect_flags_bits(
        p.username_flag,
        p.password_flag,
        p.will_retain,
        qos_value(p.will_qos),
        p.will_flag,
        p.clean_session,
        f,
    );
    let r = seq![p.protocol_level, f] + u16_bytes(p.keep_alive) + connect_payload_bytes(p);
    let d = connect_bytes(p);
    lemma_string_roundtrip(p.protocol_name, r);
    let n = 2 + encode_utf8(p.protocol_name).len();
    assert(d.skip(n as int) =~= r);
    lemma_u16_bytes(p.keep_alive);
    assert(r[0] == p.protocol_level && r[1] == f);
    assert(r[2] == u16_bytes(p.keep_alive)[0] && r[3] == u16_bytes(p.keep_alive)[1]);
    assert(r.skip(4) =~= connect_payload_bytes(p));
    lemma_connect_payload_roundtrip(p);
    assert(qos_from_value(qos_value(p.will_qos)) == Some(p.will_qos));
}

/// The packet type number of a packet view.
pub open spec fn type_number(p: PacketView) -> u8 {
    super::packet::packet_type_value(super::packet::packet_view_type(p))
}

/// The first byte written for a packet carries its type number and flags
/// that the fixed header rule accepts.
proof fn lemma_first_byte(p: PacketView)
    ensures
        first_byte(p) >> 4u8 == type_number(p),
        fixed_header_flags_error(type_number(p), first_byte(p) & 0x0F) is None,
{
    assert(0x10u8 >> 4u8 == 1 && 0x10u8 & 0x0F == 0 && 0x20u8 >> 4u8 == 2 && 0x20u8 & 0x0F == 0
        && 0x40u8 >> 4u8 == 4 && 0x40u8 & 0x0F == 0 && 0x50u8 >> 4u8 == 5 && 0x50u8 & 0x0F == 0
        && 0x62u8 >> 4u8 == 6 && 0x62u8 & 0x0F == 2 && 0x70u8 >> 4u8 == 7 && 0x70u8 & 0x0F == 0
        && 0x82u8 >> 4u8 == 8 && 0x82u8 & 0x0F == 2 && 0x90u8 >> 4u8 == 9 && 0x90u8 & 0x0F == 0
        && 0xA2u8 >> 4u8 == 10 && 0xA2u8 & 0x0F == 2 && 0xB0u8 >> 4u8 == 11 && 0xB0u8 & 0x0F == 0
        && 0xC0u8 >> 4u8 == 12 && 0xC0u8 & 0x0F == 0 && 0xD0u8 >> 4u8 == 13 && 0xD0u8 & 0x0F == 0
        && 0xE0u8 >> 4u8 == 14 && 0xE0u8 & 0x0F == 0) by (bit_vector);
    if let PacketView::Publish(x) = p {
        lemma_publish_first_byte_bits(x.duplicate, qos_value(x.qos), x.retain, first_byte(p));
    }
}

/// The body written for a valid packet is read back as that packet.
proof fn lemma_body_roundtrip(p: PacketView)
    requires
        packet_error(p) is None,
        fields_fit(p),
        will_fields_agree(p),
    ensures
        body_spec(first_byte(p), type_number(p), body_bytes(p)) == Ok::<PacketView, ErrorKind>(p),
{
    match p {
        PacketView::Connect(c) => lemma_connect_roundtrip(c),
        PacketView::ConnAck(c) => lemma_connack_roundtrip(c),
        PacketView::Publish(x) => lemma_publish_roundtrip(x),
        PacketView::PubAck(x) => lemma_packet_id_roundtrip(x.packet_id),
        PacketView::PubRec(x) => lemma_packet_id_roundtrip(x.packet_id),
        PacketView::PubRel(x) => lemma_packet_id_roundtrip(x.packet_id),
        PacketView::PubComp(x) => lemma_packet_id_roundtrip(x.packet_id),
        PacketView::UnsubAck(x) => lemma_packet_id_roundtrip(x.packet_id),
        PacketView::Subscribe(x) => {
            let d = body_bytes(p);
            lemma_u16_bytes(x.packet_id);
            assert(packet_id_body(d) == Ok::<u16, ErrorKind>(x.packet_id));
            let fs = x.topics.map_values(|t: (Seq<char>, QoS)| t.0);
            lemma_topic_filters_each(fs);
            assert forall|i: int| 0 <= i < x.topics.len() implies #[trigger] topic_filter_error(
                x.topics[i].0,
            ) is None by {
                assert(fs[i] == x.topics[i].0);
            }
            lemma_subscribe_topics_roundtrip(x.topics);
            assert(d.skip(2) =~= subscribe_topics_bytes(x.topics));
        },
        PacketView::SubAck(x) => {
            let d = body_bytes(p);
            lemma_u16_bytes(x.packet_id);
            assert(packet_id_body(d) == Ok::<u16, ErrorKind>(x.packet_id));
            lemma_suback_codes_roundtrip(x.return_codes);
            assert(d.skip(2) =~= suback_codes_bytes(x.return_codes));
        },
        PacketView::Unsubscribe(x) => {
            let d = body_bytes(p);
            lemma_u16_bytes(x.packet_id);
            assert(packet_id_body(d) == Ok::<u16, ErrorKind>(x.packet_id));
            lemma_topic_filters_each(x.topics);
            lemma_unsubscribe_topics_roundtrip(x.topics);
            assert(d.skip(2) =~= unsubscribe_topics_bytes(x.topics));
        },
        _ => {},
    }
}

/// Decoding what the encoder wrote gives back the packet that was encoded:
/// for every packet the encoder accepts (whose will fields are absent when
/// its Will Flag is clear), the decoder consumes exactly the bytes written,
/// whatever follows them in the buffer, and returns that packet.
pub proof fn lemma_decode_encode(p: PacketView, rest: Seq<u8>)
    requires
        encode_spec(p) is Ok,
        will_fields_agree(p),
    ensures
        decode_spec(encode_spec(p)->Ok_0 + rest) == (DecodeOutcome::Frame {
            len: encode_spec(p)->Ok_0.len(),
            result: Ok::<PacketView, ErrorKind>(p),
        }),
{
    reveal(packet_spec);
    let b = body_bytes(p);
    let e = encode_remaining_length(b.len());
    let frame = frame_bytes(p);
    let s = frame + rest;
    lemma_remaining_length_roundtrip(b.len(), b + rest);
    lemma_first_byte(p);
    lemma_body_roundtrip(p);
    assert(s[0] == first_byte(p));
    assert(s.skip(1) =~= e + (b + rest));
    assert(s.subrange(1 + e.len() as int, (1 + e.len() + b.len()) as int) =~= b);
    assert(frame.len() == 1 + e.len() + b.len());
}

/// The variable header of a CONNECT frame that the encoder writes follows
/// MQTT v3.1.1 (section 3.1.2): after the first byte 0x10 and the Remaining
/// Length (which counts every byte after it), the protocol name as a
/// length-prefixed string, the protocol level, then the Connect Flags byte,
/// then the keep alive as a big-endian 16-bit integer. In the Connect Flags
/// byte bit 7 is the User Name Flag, bit 6 the Password Flag, bit 5 Will
/// Retain, bits 4 and 3 the Will QoS, bit 2 the Will Flag, bit 1 Clean
/// Session, and bit 0 is reserved and 0.
pub proof fn lemma_connect_header_layout(p: ConnectPacketView)
    requires
        encode_spec(PacketView::Connect(p)) is Ok,
    ensures
        ({
            let b = encode_spec(PacketView::Connect(p))->Ok_0;
            let name = encode_utf8(p.protocol_name);
            let n = name.len() as int;
            &&& b[0] == 0x10
            &&& remaining_length(b.skip(1)) is Length
            &&& ({
                let h = 1 + remaining_length(b.skip(1))->Length_size as int;
                let flags = b[h + n + 3];
                &&& remaining_length(b.skip(1))->Length_value == b.len() - h
                &&& b.len() >= h + n + 6
                &&& be_u16(b[h], b[h + 1]) == n
                &&& b.subrange(h + 2, h + 2 + n) == name
                &&& b[h + n + 2] == p.protocol_level
                &&& (flags & 0x80 != 0) == p.username_flag
                &&& (flags & 0x40 != 0) == p.password_flag
                &&& (flags & 0x20 != 0) == p.will_retain
                &&& (flags & 0x18) >> 3u8 == qos_value(p.will_qos)
                &&& (flags & 0x04 != 0) == p.will_flag
                &&& (flags & 0x02 != 0) == p.clean_session
                &&& flags & 0x01 == 0
                &&& be_u16(b[h + n + 4], b[h + n + 5]) == p.keep_alive
            })
        }),
{
    let pv = PacketView::Connect(p);
    let b = encode_spec(pv)->Ok_0;
    let d = connect_bytes(p);
    let e = encode_remaining_length(d.len());
    lemma_remaining_length_roundtrip(d.len(), d);
    assert(b =~= seq![0x10u8] + (e + d));
    assert(b.skip(1) =~= e + d);
    let h = 1 + e.len() as int;
    let name = encode_utf8(p.protocol_name);
    let n = name.len() as int;
    let f = connect_flags_byte(p);
    lemma_connect_flags_bits(
        p.username_flag,
        p.password_flag,
        p.will_retain,
        qos_value(p.will_qos),
        p.will_flag,
        p.clean_session,
        f,
    );
    lemma_u16_bytes(n as u16);
    lemma_u16_bytes(p.keep_alive);
    assert(d =~= u16_bytes(n as u16) + name + seq![p.protocol_level, f] + u16_bytes(p.keep_alive)
        + connect_payload_bytes(p));
    assert(b.skip(h) =~= d);
    assert(b[h] == d[0] && b[h + 1] == d[1]);
    assert(b.subrange(h + 2, h + 2 + n) =~= name);
    assert(b[h + n + 2] == d[n + 2] && d[n + 2] == p.protocol_level);
    assert(b[h + n + 3] == d[n + 3] && d[n + 3] == f);
    assert(b[h + n + 4] == d[n + 4] && b[h + n + 5] == d[n + 5]);
}

/// The payload of a CONNECT frame that the encoder writes follows MQTT
/// v3.1.1 (section 3.1.3): it ends the frame, and holds the client
/// identifier, then the will topic and will message when the Will Flag is
/// set, then the user name when its flag is set, then the password when its
/// flag is set, each with a 16-bit length prefix.
pub proof fn lemma_connect_payload_layout(p: ConnectPacketView)
    requires
        encode_spec(PacketView::Connect(p)) is Ok,
    ensures
        ({
            let b = encode_spec(PacketView::Connect(p))->Ok_0;
            let payload = string_bytes(p.client_id) + (if p.will_flag {
                string_bytes(p.will_topic->Some_0) + binary_bytes(p.will_message->Some_0)
            } else {
                Seq::empty()
            }) + (if p.username_flag {
                string_bytes(p.username->Some_0)
            } else {
                Seq::empty()
            }) + (if p.password_flag {
                binary_bytes(p.password->Some_0)
            } else {
                Seq::empty()
            });
            &&& payload.len() <= b.len()
            &&& b.skip(b.len() - payload.len()) == payload
        }),
{
    let pv = PacketView::Connect(p);
    let b = encode_spec(pv)->Ok_0;
    let d = connect_bytes(p);
    let q = connect_payload_bytes(p);
    lemma_connect_payload_shape(p);
    assert(d =~= (string_bytes(p.protocol_name) + seq![p.protocol_level, connect_flags_byte(p)]
        + u16_bytes(p.keep_alive)) + q);
    assert(b =~= (seq![0x10u8] + encode_remaining_length(d.len()) + (string_bytes(p.protocol_name)
        + seq![p.protocol_level, connect_flags_byte(p)] + u16_bytes(p.keep_alive))) + q);
    assert(b.skip(b.len() - q.len()) =~= q);
}

/// The payload of a valid CONNECT packet, field by field.
proof fn lemma_connect_payload_shape(p: ConnectPacketView)
    requires
        connect_error(p) is None,
    ensures
        connect_payload_bytes(p) == string_bytes(p.client_id) + (if p.will_flag {
            string_bytes(p.will_topic->Some_0) + binary_bytes(p.will_message->Some_0)
        } else {
            Seq::empty()
        }) + (if p.username_flag {
            string_bytes(p.username->Some_0)
        } else {
            Seq::empty()
        }) + (if p.password_flag {
            binary_bytes(p.password->Some_0)
        } else {
            Seq::empty()
        }),
{
    assert(will_error(p) is None);
    assert(credentials_error(p) is None);
}

// ============================================================================
// Encoder
// ============================================================================

/// Appends the bytes of `s` to `v`.
fn append_bytes(v: &mut Vec<u8>, s: &[u8])
    ensures
        final(v)@ == old(v)@ + s@,
{
    let ghost start = v@;
    let mut i: usize = 0;
    while i < s.len()
        invariant
            i <= s@.len(),
            v@ == start + s@.take(i as int),
        decreases s@.len() - i,
    {
        v.push(s[i]);
        i += 1;
        assert(v@ =~= start + s@.take(i as int));
    }
    assert(s@.take(i as int) =~= s@);
}

/// Appends a big-endian 16-bit integer.
fn write_u16(v: &mut Vec<u8>, x: u16)
    ensures
        final(v)@ == old(v)@ + u16_bytes(x),
{
    v.push((x / 256) as u8);
    v.push((x % 256) as u8);
    assert(v@ =~= old(v)@ + u16_bytes(x));
}

/// Appends a length-prefixed UTF-8 string; refuses one longer than 65535 bytes.
fn write_string(v: &mut Vec<u8>, t: &str) -> (res: Result<(), MqttError>)
    ensures
        string_fits(t@) ==> res is Ok && final(v)@ == old(v)@ + string_bytes(t@),
        !string_fits(t@) ==> (res matches Err(e) && e.kind() == oversized_field()),
{
    let bytes = t.as_bytes();
    let n = bytes.len();
    if n > 65535 {
        return Err(MqttError::malformed("field exceeds 65535 bytes"));
    }
    write_u16(v, n as u16);
    append_bytes(v, bytes);
    assert(v@ =~= old(v)@ + string_bytes(t@));
    Ok(())
}

/// Appends length-prefixed binary data; refuses data longer than 65535 bytes.
fn write_binary(v: &mut Vec<u8>, b: &[u8]) -> (res: Result<(), MqttError>)
    ensures
        b@.len() <= 65535 ==> res is Ok && final(v)@ == old(v)@ + binary_bytes(b@),
        b@.len() > 65535 ==> (res matches Err(e) && e.kind() == oversized_field()),
{
    let n = b.len();
    if n > 65535 {
        return Err(MqttError::malformed("field exceeds 65535 bytes"));
    }
    write_u16(v, n as u16);
    append_bytes(v, b);
    assert(v@ =~= old(v)@ + binary_bytes(b@));
    Ok(())
}

/// Appends the encoding of a Remaining Length value.
fn write_remaining_length(v: &mut Vec<u8>, n: usize)
    requires
        n <= MAX_REMAINING_LENGTH,
    ensures
        final(v)@ == old(v)@ + encode_remaining_length(n as nat),
{
    let ghost start = v@;
    let mut x: usize = n;
    while x >= 128
        invariant
            v@ + encode_remaining_length(x as nat) == start + encode_remaining_length(n as nat),
        decreases x,
    {
        let ghost before = v@;
        v.push((x % 128 + 128) as u8);
        assert(encode_remaining_length(x as nat) == seq![((x % 128) + 128) as u8]
            + encode_remaining_length((x / 128) as nat));
        assert(v@ + encode_remaining_length((x / 128) as nat) =~= before + encode_remaining_length(
            x as nat,
        ));
        x = x / 128;
    }
    v.push(x as u8);
    assert(encode_remaining_length(x as nat) == seq![x as u8]);
    assert(v@ =~= start + encode_remaining_length(n as nat));
}

/// The Connect Flags byte of a CONNECT packet.
fn connect_flags(p: &super::packet::ConnectPacket) -> (f: u8)
    ensures
        f == connect_flags_byte(p@),
{
    (if p.username_flag {
        0x80u8
    } else {
        0u8
    }) | (if p.password_flag {
        0x40u8
    } else {
        0u8
    }) | (if p.will_retain {
        0x20u8
    } else {
        0u8
    }) | (p.will_qos.as_u8() << 3u8) | (if p.will_flag {
        0x04u8
    } else {
        0u8
    }) | (if p.clean_session {
        0x02u8
    } else {
        0u8
    })
}

/// Appends an optional string when `flag` is set and the string is present.
fn write_opt_string(v: &mut Vec<u8>, flag: bool, o: &Option<String>) -> (res: Result<(), MqttError>)
    ensures
        (flag ==> opt_string_fits(super::packet::opt_str_view(*o))) ==> res is Ok && final(v)@
            == old(v)@ + (if flag {
            opt_string_bytes(super::packet::opt_str_view(*o))
        } else {
            Seq::empty()
        }),
        !(flag ==> opt_string_fits(super::packet::opt_str_view(*o))) ==> (res matches Err(e)
            && e.kind() == oversized_field()),
{
    if flag {
        match o {
            Some(t) => {
                write_string(v, t.as_str())?;
            },
            None => {},
        }
    }
    assert(v@ =~= old(v)@ + (if flag {
        opt_string_bytes(super::packet::opt_str_view(*o))
    } else {
        Seq::empty()
    }));
    Ok(())
}

/// Appends optional binary data when `flag` is set and the data is present.
fn write_opt_binary(v: &mut Vec<u8>, flag: bool, o: &Option<Vec<u8>>) -> (res: Result<(), MqttError>)
    ensures
        (flag ==> opt_binary_fits(super::packet::opt_bytes_view(*o))) ==> res is Ok && final(v)@
            == old(v)@ + (if flag {
            opt_binary_bytes(super::packet::opt_bytes_view(*o))
        } else {
            Seq::empty()
        }),
        !(flag ==> opt_binary_fits(super::packet::opt_bytes_view(*o))) ==> (res matches Err(e)
            && e.kind() == oversized_field()),
{
    if flag {
        match o {
            Some(b) => {
                write_binary(v, b.as_slice())?;
            },
            None => {},
        }
    }
    assert(v@ =~= old(v)@ + (if flag {
        opt_binary_bytes(super::packet::opt_bytes_view(*o))
    } else {
        Seq::empty()
    }));
    Ok(())
}

/// Appends the payload of a CONNECT packet.
fn write_connect_payload(v: &mut Vec<u8>, p: &super::packet::ConnectPacket) -> (res: Result<
    (),
    MqttError,
>)
    ensures
        fields_fit(PacketView::Connect(p@)) ==> string_fits(p@.protocol_name) ==> res is Ok
            && final(v)@ == old(v)@ + connect_payload_bytes(p@),
        string_fits(p@.protocol_name) ==> !fields_fit(PacketView::Connect(p@)) ==> (res matches Err(
            e,
        ) && e.kind() == oversized_field()),
{
    let ghost start = v@;
    write_string(v, p.client_id.as_str())?;
    let ghost after_id = v@;
    write_opt_string(v, p.will_flag, &p.will_topic)?;
    write_opt_binary(v, p.will_flag, &p.will_message)?;
    let ghost after_will = v@;
    write_opt_string(v, p.username_flag, &p.username)?;
    write_opt_binary(v, p.password_flag, &p.password)?;
    let ghost w = if p@.will_flag {
        opt_string_bytes(p@.will_topic) + opt_binary_bytes(p@.will_message)
    } else {
        Seq::empty()
    };
    assert(after_will =~= after_id + w);
    assert(v@ =~= start + connect_payload_bytes(p@));
    Ok(())
}

/// Appends the body of a CONNECT packet.
fn write_connect(v: &mut Vec<u8>, p: &super::packet::ConnectPacket) -> (res: Result<(), MqttError>)
    ensures
        fields_fit(PacketView::Connect(p@)) ==> res is Ok && final(v)@ == old(v)@ + connect_bytes(
            p@,
        ),
        !fields_fit(PacketView::Connect(p@)) ==> (res matches Err(e) && e.kind()
            == oversized_field()),
{
    let ghost start = v@;
    write_string(v, p.protocol_name.as_str())?;
    v.push(p.protocol_level);
    v.push(connect_flags(p));
    write_u16(v, p.keep_alive);
    let ghost header = v@;
    write_connect_payload(v, p)?;
    assert(v@ =~= start + connect_bytes(p@));
    Ok(())
}

/// A SUBSCRIBE topic list with a filter too long for its length prefix does not fit.
proof fn lemma_subscribe_topic_too_long(ts: Seq<(Seq<char>, QoS)>, i: int)
    requires
        0 <= i < ts.len(),
        !string_fits(ts[i].0),
    ensures
        !topics_fit(ts),
{
}

/// An UNSUBSCRIBE topic list with a filter too long for its length prefix does not fit.
proof fn lemma_unsubscribe_topic_too_long(ts: Seq<Seq<char>>, i: int)
    requires
        0 <= i < ts.len(),
        !string_fits(ts[i]),
    ensures
        !filters_fit(ts),
{
}

/// Appends the topic list of a SUBSCRIBE packet.
fn write_subscribe_topics(v: &mut Vec<u8>, topics: &Vec<(String, QoS)>) -> (res: Result<
    (),
    MqttError,
>)
    ensures
        topics_fit(super::packet::topic_qos_view(topics@)) ==> res is Ok && final(v)@ == old(v)@ + subscribe_topics_bytes(
            super::packet::topic_qos_view(topics@),
        ),
        !topics_fit(super::packet::topic_qos_view(topics@)) ==> (res matches Err(e) && e.kind() == oversized_field()),
{
    let ghost ts = super::packet::topic_qos_view(topics@);
    let ghost start = v@;
    let mut i: usize = 0;
    assert(ts.skip(0) =~= ts);
    while i < topics.len()
        invariant
            i <= topics@.len(),
            ts == super::packet::topic_qos_view(topics@),
            ts.len() == topics@.len(),
            v@ + subscribe_topics_bytes(ts.skip(i as int)) == start + subscribe_topics_bytes(ts),
            forall|j: int| 0 <= j < i ==> #[trigger] string_fits(ts[j].0),
        decreases topics@.len() - i,
    {
        let ghost before = v@;
        let (filter, qos) = &topics[i];
        assert(ts[i as int] == (filter@, *qos));
        if !string_fits_check(filter.as_str()) {
            proof {
                lemma_subscribe_topic_too_long(ts, i as int);
            }
            return Err(MqttError::malformed("field exceeds 65535 bytes"));
        }
        write_string(v, filter.as_str())?;
        v.push(qos.as_u8());
        let ghost tail = ts.skip(i as int);
        assert(tail[0] == ts[i as int]);
        assert(tail.drop_first() =~= ts.skip(i + 1));
        assert(subscribe_topics_bytes(tail) == string_bytes(tail[0].0) + (seq![qos_value(tail[0].1)]
            + subscribe_topics_bytes(tail.drop_first())));
        assert(v@ + subscribe_topics_bytes(ts.skip(i + 1)) =~= before + subscribe_topics_bytes(
            tail,
        ));
        i += 1;
    }
    assert(ts.skip(i as int).len() == 0);
    assert(subscribe_topics_bytes(ts.skip(i as int)) == Seq::<u8>::empty());
    assert(v@ + Seq::<u8>::empty() =~= v@);
    Ok(())
}

/// Whether a string fits a 16-bit length prefix.
fn string_fits_check(t: &str) -> (b: bool)
    ensures
        b == string_fits(t@),
{
    t.as_bytes().len() <= 65535
}

/// Appends the topic list of an UNSUBSCRIBE packet.
fn write_unsubscribe_topics(v: &mut Vec<u8>, topics: &Vec<String>) -> (res: Result<
    (),
    MqttError,
>)
    ensures
        filters_fit(super::packet::strings_view(topics@)) ==> res is Ok && final(v)@ == old(v)@ + unsubscribe_topics_bytes(
            super::packet::strings_view(topics@),
        ),
        !filters_fit(super::packet::strings_view(topics@)) ==> (res matches Err(e) && e.kind() == oversized_field()),
{
    let ghost ts = super::packet::strings_view(topics@);
    let ghost start = v@;
    let mut i: usize = 0;
    assert(ts.skip(0) =~= ts);
    while i < topics.len()
        invariant
            i <= topics@.len(),
            ts == super::packet::strings_view(topics@),
            ts.len() == topics@.len(),
            v@ + unsubscribe_topics_bytes(ts.skip(i as int)) == start + unsubscribe_topics_bytes(ts),
            forall|j: int| 0 <= j < i ==> #[trigger] string_fits(ts[j]),
        decreases topics@.len() - i,
    {
        let ghost before = v@;
        let filter = &topics[i];
        assert(ts[i as int] == filter@);
        if !string_fits_check(filter.as_str()) {
            proof {
                lemma_unsubscribe_topic_too_long(ts, i as int);
            }
            return Err(MqttError::malformed("field exceeds 65535 bytes"));
        }
        write_string(v, filter.as_str())?;
        let ghost tail = ts.skip(i as int);
        assert(tail[0] == ts[i as int]);
        assert(tail.drop_first() =~= ts.skip(i + 1));
        assert(v@ + unsubscribe_topics_bytes(ts.skip(i + 1)) =~= before + unsubscribe_topics_bytes(
            tail,
        ));
        i += 1;
    }
    assert(ts.skip(i as int).len() == 0);
    assert(unsubscribe_topics_bytes(ts.skip(i as int)) == Seq::<u8>::empty());
    assert(v@ + Seq::<u8>::empty() =~= v@);
    Ok(())
}

/// Appends the return codes of a SUBACK packet.
fn write_suback_codes(v: &mut Vec<u8>, codes: &Vec<SubAckReturnCode>)
    ensures
        final(v)@ == old(v)@ + suback_codes_bytes(codes@),
{
    let ghost start = v@;
    let mut i: usize = 0;
    while i < codes.len()
        invariant
            i <= codes@.len(),
            v@ == start + suback_codes_bytes(codes@.take(i as int)),
        decreases codes@.len() - i,
    {
        let ghost before = v@;
        v.push(codes[i].as_u8());
        assert(codes@.take(i + 1) =~= codes@.take(i as int).push(codes@[i as int]));
        assert(suback_codes_bytes(codes@.take(i + 1)) =~= suback_codes_bytes(codes@.take(i as int)).push(
            suback_return_code_value(codes@[i as int]),
        ));
        i += 1;
        assert(v@ =~= start + suback_codes_bytes(codes@.take(i as int)));
    }
    assert(codes@.take(i as int) =~= codes@);
    assert(suback_codes_bytes(codes@.take(i as int)) == suback_codes_bytes(codes@));
}

/// The first byte of the fixed header of a packet.
fn write_first_byte(p: &Packet) -> (b: u8)
    ensures
        b == first_byte(p@),
{
    match p {
        Packet::Connect(_) => 0x10,
        Packet::ConnAck(_) => 0x20,
        Packet::Publish(x) => 0x30u8 | (if x.duplicate {
            0x08u8
        } else {
            0u8
        }) | (x.qos.as_u8() << 1u8) | (if x.retain {
            0x01u8
        } else {
            0u8
        }),
        Packet::PubAck(_) => 0x40,
        Packet::PubRec(_) => 0x50,
        Packet::PubRel(_) => 0x62,
        Packet::PubComp(_) => 0x70,
        Packet::Subscribe(_) => 0x82,
        Packet::SubAck(_) => 0x90,
        Packet::Unsubscribe(_) => 0xA2,
        Packet::UnsubAck(_) => 0xB0,
        Packet::PingReq(_) => 0xC0,
        Packet::PingResp(_) => 0xD0,
        Packet::Disconnect(_) => 0xE0,
    }
}

/// Writes the body of a packet; refuses a string or binary field longer
/// than its 16-bit length prefix allows.
fn encode_body(p: &Packet) -> (res: Result<Vec<u8>, MqttError>)
    ensures
        fields_fit(p@) ==> (res matches Ok(b) && b@ == body_bytes(p@)),
        !fields_fit(p@) ==> (res matches Err(e) && e.kind() == oversized_field()),
{
    let mut v: Vec<u8> = Vec::new();
    match p {
        Packet::Connect(c) => {
            write_connect(&mut v, c)?;
        },
        Packet::ConnAck(c) => {
            v.push(if c.session_present {
                0x01u8
            } else {
                0u8
            });
            v.push(c.return_code.as_u8());
        },
        Packet::Publish(x) => {
            write_string(&mut v, x.topic_name.as_str())?;
            match x.packet_id {
                Some(id) => write_u16(&mut v, id),
                None => {},
            }
            append_bytes(&mut v, x.payload.as_slice());
        },
        Packet::PubAck(x) => write_u16(&mut v, x.packet_id),
        Packet::PubRec(x) => write_u16(&mut v, x.packet_id),
        Packet::PubRel(x) => write_u16(&mut v, x.packet_id),
        Packet::PubComp(x) => write_u16(&mut v, x.packet_id),
        Packet::Subscribe(x) => {
            write_u16(&mut v, x.packet_id);
            write_subscribe_topics(&mut v, &x.topics)?;
        },
        Packet::SubAck(x) => {
            write_u16(&mut v, x.packet_id);
            write_suback_codes(&mut v, &x.return_codes);
        },
        Packet::Unsubscribe(x) => {
            write_u16(&mut v, x.packet_id);
            write_unsubscribe_topics(&mut v, &x.topics)?;
        },
        Packet::UnsubAck(x) => write_u16(&mut v, x.packet_id),
        Packet::PingReq(_) => {},
        Packet::PingResp(_) => {},
        Packet::Disconnect(_) => {},
    }
    assert(v@ =~= body_bytes(p@));
    Ok(v)
}

/// The largest frame the encoder writes: first byte, four length bytes
/// and the largest body.
pub const MAX_FRAME_SIZE: usize = 268435460;

/// Encodes a packet into a new frame, following [`encode_spec`].
pub fn encode_frame(p: &Packet) -> (res: Result<Vec<u8>, MqttError>)
    ensures
        match encode_spec(p@) {
            Ok(bytes) => res matches Ok(f) && f@ == bytes,
            Err(k) => res matches Err(e) && e.kind() == k,
        },
{
    validate_packet(p)?;
    let body = encode_body(p)?;
    let n = body.len();
    if n > MAX_REMAINING_LENGTH {
        return Err(MqttError::packet_too_large(n, MAX_REMAINING_LENGTH));
    }
    let mut frame: Vec<u8> = Vec::new();
    frame.push(write_first_byte(p));
    write_remaining_length(&mut frame, n);
    append_bytes(&mut frame, body.as_slice());
    assert(frame@ =~= frame_bytes(p@));
    Ok(frame)
}

/// MQTT v3.1.1 codec: encodes packets into frames and decodes frames into packets.
#[derive(Debug)]
pub struct MqttCodec;

impl MqttCodec {
    /// Creates a codec.
    pub fn new() -> (c: MqttCodec) {
        MqttCodec
    }
}

impl Default for MqttCodec {
    fn default() -> (c: MqttCodec) {
        MqttCodec
    }
}

impl crate::Decoder for MqttCodec {
    type Item = Packet;

    type Error = MqttError;

    /// Decodes one packet from the front of `src`, as [`MqttDecoder`] does.
    fn decode(&mut self, src: &mut BytesMut) -> (res: Result<Option<Packet>, MqttError>)
        ensures
            decode_agrees(bytes_mut_view(*old(src)), bytes_mut_view(*final(src)), res),
    {
        let mut decoder = MqttDecoder::new();
        crate::Decoder::decode(&mut decoder, src)
    }
}

impl crate::Encoder<Packet> for MqttCodec {
    type Error = MqttError;

    /// Appends the frame of `item` to `dst`, or refuses the packet and
    /// leaves `dst` as it was.
    fn encode(&mut self, item: Packet, dst: &mut BytesMut) -> (res: Result<(), MqttError>)
        ensures
            match encode_spec(item@) {
                Ok(bytes) => res is Ok && bytes_mut_view(*final(dst)) == bytes_mut_view(*old(dst))
                    + bytes,
                Err(k) => (res matches Err(e) && e.kind() == k) && bytes_mut_view(*final(dst))
                    == bytes_mut_view(*old(dst)),
            },
    {
        let frame = encode_frame(&item)?;
        proof {
            if let Ok(bytes) = encode_spec(item@) {
                lemma_remaining_length_roundtrip(body_bytes(item@).len(), Seq::empty());
            }
        }
        bytes_mut_extend(dst, frame.as_slice());
        Ok(())
    }
}

} // verus!
