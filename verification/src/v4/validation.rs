//! Validation rules for MQTT v3.1.1 packets.
//!
//! Each rule is given as a spec function that returns the kind of error the
//! rule reports (or `None` when the value is valid); each executable
//! validator is proved to agree with its rule.

use vstd::prelude::*;
use vstd::utf8::encode_utf8;

use crate::error::{
    result_agrees, violation, ClientIdErrorReason, ErrorKind, MqttError, TopicErrorReason,
    TopicFilterErrorReason,
};
use crate::text::{chars_of, decimal, join, join3, number_text};

use super::packet::{
    ConnAckPacket, ConnectPacket, ConnectPacketView, Packet, PacketView, PublishPacketView, QoS,
    SubAckPacketView, SubscribePacketView, UnsubscribePacketView,
};
use super::return_codes::ConnectReturnCode;

verus! {

/// Maximum length in bytes of a topic name, topic filter or client identifier.
pub const MAX_STRING_LENGTH: usize = 65535;

// ============================================================================
// Rules
// ============================================================================

/// A packet identifier must be non-zero.
pub open spec fn packet_id_error(id: u16) -> Option<ErrorKind> {
    if id == 0 {
        violation("Packet identifier must be non-zero"@, None)
    } else {
        None
    }
}

/// The rule for topic names: non-empty, at most 65535 bytes, no null
/// character and no wildcard characters.
pub open spec fn topic_name_error(t: Seq<char>) -> Option<ErrorKind> {
    if t.len() == 0 {
        Some(ErrorKind::InvalidTopicName { topic: t, reason: TopicErrorReason::Empty })
    } else if encode_utf8(t).len() > MAX_STRING_LENGTH {
        Some(ErrorKind::InvalidTopicName { topic: t, reason: TopicErrorReason::TooLong })
    } else if t.contains('\0') {
        Some(ErrorKind::InvalidTopicName { topic: t, reason: TopicErrorReason::ContainsNull })
    } else if t.contains('+') || t.contains('#') {
        Some(ErrorKind::InvalidTopicName { topic: t, reason: TopicErrorReason::ContainsWildcard })
    } else {
        None
    }
}

/// A multi-level wildcard at position `i` is misplaced: it must be the last
/// character and either the first character or preceded by a level separator.
pub open spec fn misplaced_multi_level(f: Seq<char>, i: int) -> bool {
    f[i] == '#' && !(i == f.len() - 1 && (i == 0 || f[i - 1] == '/'))
}

/// A single-level wildcard at position `i` is misplaced: it must occupy a whole level.
pub open spec fn misplaced_single_level(f: Seq<char>, i: int) -> bool {
    f[i] == '+' && !((i == 0 || f[i - 1] == '/') && (i == f.len() - 1 || f[i + 1] == '/'))
}

/// The rule for topic filters: non-empty, at most 65535 bytes, no null
/// character, `#` only as the whole last level, `+` only as a whole level.
pub open spec fn topic_filter_error(f: Seq<char>) -> Option<ErrorKind> {
    if f.len() == 0 {
        Some(ErrorKind::InvalidTopicFilter { filter: f, reason: TopicFilterErrorReason::Empty })
    } else if encode_utf8(f).len() > MAX_STRING_LENGTH {
        Some(ErrorKind::InvalidTopicFilter { filter: f, reason: TopicFilterErrorReason::TooLong })
    } else if f.contains('\0') {
        Some(
            ErrorKind::InvalidTopicFilter { filter: f, reason: TopicFilterErrorReason::ContainsNull },
        )
    } else if exists|i: int| 0 <= i < f.len() && #[trigger] misplaced_multi_level(f, i) {
        Some(
            ErrorKind::InvalidTopicFilter {
                filter: f,
                reason: TopicFilterErrorReason::InvalidMultiLevelWildcard,
            },
        )
    } else if exists|i: int| 0 <= i < f.len() && #[trigger] misplaced_single_level(f, i) {
        Some(
            ErrorKind::InvalidTopicFilter {
                filter: f,
                reason: TopicFilterErrorReason::InvalidSingleLevelWildcard,
            },
        )
    } else {
        None
    }
}

/// The first error among a list of topic filters, checked in order.
pub open spec fn topic_filters_error(fs: Seq<Seq<char>>) -> Option<ErrorKind>
    decreases fs.len(),
{
    if fs.len() == 0 {
        None
    } else {
        match topic_filter_error(fs[0]) {
            Some(e) => Some(e),
            None => topic_filters_error(fs.drop_first()),
        }
    }
}

/// The rule for the fixed header flags of a packet of type `packet_type`:
/// PUBLISH may not use QoS 3; PUBREL, SUBSCRIBE and UNSUBSCRIBE carry flags
/// 0010; every other packet carries flags 0000.
pub open spec fn fixed_header_flags_error(packet_type: u8, flags: u8) -> Option<ErrorKind> {
    if packet_type == 3 {
        if (flags / 2) % 4 == 3 {
            violation("PUBLISH QoS value 3 is reserved"@, Some(3))
        } else {
            None
        }
    } else if packet_type == 6 || packet_type == 8 || packet_type == 10 {
        if flags != 2 {
            violation("Reserved flags must be 0010"@, Some(packet_type))
        } else {
            None
        }
    } else if flags != 0 {
        violation("Reserved flags must be 0000"@, Some(packet_type))
    } else {
        None
    }
}

/// The rule for the client identifier: at most 65535 bytes, and non-empty
/// unless Clean Session is set.
pub open spec fn client_id_error(client_id: Seq<char>, clean_session: bool) -> Option<ErrorKind> {
    if encode_utf8(client_id).len() > MAX_STRING_LENGTH {
        Some(
            ErrorKind::InvalidClientId { client_id, reason: ClientIdErrorReason::TooLong },
        )
    } else if client_id.len() == 0 && !clean_session {
        Some(
            ErrorKind::InvalidClientId {
                client_id,
                reason: ClientIdErrorReason::EmptyWithNonCleanSession,
            },
        )
    } else {
        None
    }
}

/// The rule for the will fields of a CONNECT packet.
pub open spec fn will_error(p: ConnectPacketView) -> Option<ErrorKind> {
    if !p.will_flag {
        if p.will_qos != QoS::AtMostOnce || p.will_retain {
            violation("Will QoS and Will Retain must be 0 when Will Flag is not set"@, Some(1))
        } else {
            None
        }
    } else {
        match (p.will_topic, p.will_message) {
            (Some(t), Some(_)) => topic_name_error(t),
            _ => violation(
                "Will Topic and Will Message are required when Will Flag is set"@,
                Some(1),
            ),
        }
    }
}

/// The rule for the credential fields of a CONNECT packet: each flag agrees
/// with the presence of its field, and a password requires a user name.
pub open spec fn credentials_error(p: ConnectPacketView) -> Option<ErrorKind> {
    if p.username_flag != (p.username is Some) {
        violation("Username Flag must match the Username field"@, Some(1))
    } else if p.password_flag != (p.password is Some) {
        violation("Password Flag must match the Password field"@, Some(1))
    } else if p.password_flag && !p.username_flag {
        violation("Password Flag requires the Username Flag"@, Some(1))
    } else {
        None
    }
}

/// The rule for a CONNECT packet: protocol name "MQTT", level 4, then the
/// client identifier, will and credential rules in that order.
pub open spec fn connect_error(p: ConnectPacketView) -> Option<ErrorKind> {
    if p.protocol_name != "MQTT"@ {
        violation("Invalid protocol name: expected 'MQTT', got '"@ + p.protocol_name + "'"@, Some(1))
    } else if p.protocol_level != 4 {
        violation("Invalid protocol level: expected 4, got "@ + decimal(p.protocol_level as nat), Some(1))
    } else if client_id_error(p.client_id, p.clean_session) is Some {
        client_id_error(p.client_id, p.clean_session)
    } else if will_error(p) is Some {
        will_error(p)
    } else {
        credentials_error(p)
    }
}

/// The rule for a CONNACK packet: Session Present is 0 unless the connection is accepted.
pub open spec fn connack_error(p: ConnAckPacket) -> Option<ErrorKind> {
    if p.session_present && p.return_code != ConnectReturnCode::Accepted {
        violation("Session Present must be 0 when the connection is refused"@, Some(2))
    } else {
        None
    }
}

/// The rule for QoS, packet identifier and DUP flag of a PUBLISH packet.
pub open spec fn publish_id_error(p: PublishPacketView) -> Option<ErrorKind> {
    if p.qos == QoS::AtMostOnce {
        if p.packet_id is Some || p.duplicate {
            violation("QoS 0 PUBLISH carries neither packet identifier nor DUP flag"@, Some(3))
        } else {
            None
        }
    } else {
        match p.packet_id {
            Some(id) => packet_id_error(id),
            None => violation("Packet identifier is required for QoS 1 and QoS 2"@, Some(3)),
        }
    }
}

/// The rule for a PUBLISH packet: a valid topic name, then QoS and identifier.
pub open spec fn publish_error(p: PublishPacketView) -> Option<ErrorKind> {
    if topic_name_error(p.topic_name) is Some {
        topic_name_error(p.topic_name)
    } else {
        publish_id_error(p)
    }
}

/// The rule for a SUBSCRIBE packet.
pub open spec fn subscribe_error(p: SubscribePacketView) -> Option<ErrorKind> {
    if packet_id_error(p.packet_id) is Some {
        packet_id_error(p.packet_id)
    } else if p.topics.len() == 0 {
        violation("SUBSCRIBE must contain at least one topic filter"@, Some(8))
    } else {
        topic_filters_error(p.topics.map_values(|t: (Seq<char>, QoS)| t.0))
    }
}

/// The rule for a SUBACK packet.
pub open spec fn suback_error(p: SubAckPacketView) -> Option<ErrorKind> {
    if packet_id_error(p.packet_id) is Some {
        packet_id_error(p.packet_id)
    } else if p.return_codes.len() == 0 {
        violation("SUBACK must contain at least one return code"@, Some(9))
    } else {
        None
    }
}

/// The rule for an UNSUBSCRIBE packet.
pub open spec fn unsubscribe_error(p: UnsubscribePacketView) -> Option<ErrorKind> {
    if packet_id_error(p.packet_id) is Some {
        packet_id_error(p.packet_id)
    } else if p.topics.len() == 0 {
        violation("UNSUBSCRIBE must contain at least one topic filter"@, Some(10))
    } else {
        topic_filters_error(p.topics)
    }
}

/// The rule for any MQTT v3.1.1 packet.
pub open spec fn packet_error(p: PacketView) -> Option<ErrorKind> {
    match p {
        PacketView::Connect(c) => connect_error(c),
        PacketView::ConnAck(c) => connack_error(c),
        PacketView::Publish(x) => publish_error(x),
        PacketView::PubAck(x) => packet_id_error(x.packet_id),
        PacketView::PubRec(x) => packet_id_error(x.packet_id),
        PacketView::PubRel(x) => packet_id_error(x.packet_id),
        PacketView::PubComp(x) => packet_id_error(x.packet_id),
        PacketView::Subscribe(x) => subscribe_error(x),
        PacketView::SubAck(x) => suback_error(x),
        PacketView::Unsubscribe(x) => unsubscribe_error(x),
        PacketView::UnsubAck(x) => packet_id_error(x.packet_id),
        PacketView::PingReq => None,
        PacketView::PingResp => None,
        PacketView::Disconnect => None,
    }
}

// ============================================================================
// Validators
// ============================================================================

/// Validates that a packet identifier is non-zero.
pub fn validate_packet_id(id: u16) -> (res: Result<(), MqttError>)
    ensures
        result_agrees(res, packet_id_error(id)),
{
    if id == 0 {
        return Err(MqttError::protocol_violation("Packet identifier must be non-zero", None));
    }
    Ok(())
}

/// Whether `c` occurs in `v`.
pub(crate) fn contains_char(v: &Vec<char>, c: char) -> (b: bool)
    ensures
        b <==> v@.contains(c),
{
    let mut i: usize = 0;
    while i < v.len()
        invariant
            i <= v.len(),
            forall|j: int| 0 <= j < i ==> v@[j] != c,
        decreases v.len() - i,
    {
        if v[i] == c {
            return true;
        }
        i += 1;
    }
    false
}

/// Validates a topic name for PUBLISH.
pub fn validate_topic_name(topic: &str) -> (res: Result<(), MqttError>)
    ensures
        result_agrees(res, topic_name_error(topic@)),
{
    let chars = chars_of(topic);
    if chars.len() == 0 {
        return Err(MqttError::invalid_topic_name(topic, TopicErrorReason::Empty));
    }
    if topic.as_bytes().len() > MAX_STRING_LENGTH {
        return Err(MqttError::invalid_topic_name(topic, TopicErrorReason::TooLong));
    }
    if contains_char(&chars, '\0') {
        return Err(MqttError::invalid_topic_name(topic, TopicErrorReason::ContainsNull));
    }
    if contains_char(&chars, '+') || contains_char(&chars, '#') {
        return Err(MqttError::invalid_topic_name(topic, TopicErrorReason::ContainsWildcard));
    }
    Ok(())
}

/// Validates a topic filter for SUBSCRIBE and UNSUBSCRIBE.
pub fn validate_topic_filter(filter: &str) -> (res: Result<(), MqttError>)
    ensures
        result_agrees(res, topic_filter_error(filter@)),
{
    let f = chars_of(filter);
    let n = f.len();
    if n == 0 {
        return Err(MqttError::invalid_topic_filter(filter, TopicFilterErrorReason::Empty));
    }
    if filter.as_bytes().len() > MAX_STRING_LENGTH {
        return Err(MqttError::invalid_topic_filter(filter, TopicFilterErrorReason::TooLong));
    }
    if contains_char(&f, '\0') {
        return Err(MqttError::invalid_topic_filter(filter, TopicFilterErrorReason::ContainsNull));
    }
    let mut i: usize = 0;
    while i < n
        invariant
            n == f@.len(),
            f@ == filter@,
            n > 0,
            !filter@.contains('\0'),
            encode_utf8(filter@).len() <= MAX_STRING_LENGTH,
            i <= n,
            forall|j: int| 0 <= j < i ==> !misplaced_multi_level(f@, j),
        decreases n - i,
    {
        if f[i] == '#' && !(i == n - 1 && (i == 0 || f[i - 1] == '/')) {
            assert(misplaced_multi_level(f@, i as int));
            return Err(
                MqttError::invalid_topic_filter(
                    filter,
                    TopicFilterErrorReason::InvalidMultiLevelWildcard,
                ),
            );
        }
        i += 1;
    }
    let mut i: usize = 0;
    while i < n
        invariant
            n == f@.len(),
            f@ == filter@,
            n > 0,
            !filter@.contains('\0'),
            encode_utf8(filter@).len() <= MAX_STRING_LENGTH,
            i <= n,
            forall|j: int| 0 <= j < n ==> !misplaced_multi_level(f@, j),
            forall|j: int| 0 <= j < i ==> !misplaced_single_level(f@, j),
        decreases n - i,
    {
        if f[i] == '+' && !((i == 0 || f[i - 1] == '/') && (i == n - 1 || f[i + 1] == '/')) {
            assert(misplaced_single_level(f@, i as int));
            return Err(
                MqttError::invalid_topic_filter(
                    filter,
                    TopicFilterErrorReason::InvalidSingleLevelWildcard,
                ),
            );
        }
        i += 1;
    }
    Ok(())
}

/// Validates the fixed header flags for a packet type given by its number.
pub fn validate_fixed_header_flags(packet_type: u8, flags: u8) -> (res: Result<(), MqttError>)
    ensures
        result_agrees(res, fixed_header_flags_error(packet_type, flags)),
{
    if packet_type == 3 {
        let qos = (flags >> 1) & 0x03;
        assert(((flags >> 1) & 0x03) == (flags / 2) % 4) by (bit_vector);
        if qos == 3 {
            return Err(MqttError::protocol_violation("PUBLISH QoS value 3 is reserved", Some(3)));
        }
    } else if packet_type == 6 || packet_type == 8 || packet_type == 10 {
        if flags != 0x02 {
            return Err(
                MqttError::protocol_violation("Reserved flags must be 0010", Some(packet_type)),
            );
        }
    } else if flags != 0 {
        return Err(MqttError::protocol_violation("Reserved flags must be 0000", Some(packet_type)));
    }
    Ok(())
}

/// Validates the client identifier of a CONNECT packet.
pub fn validate_client_id(client_id: &str, clean_session: bool) -> (res: Result<(), MqttError>)
    ensures
        result_agrees(res, client_id_error(client_id@, clean_session)),
{
    if client_id.as_bytes().len() > MAX_STRING_LENGTH {
        return Err(MqttError::invalid_client_id(client_id, ClientIdErrorReason::TooLong));
    }
    if client_id.is_empty() && !clean_session {
        return Err(
            MqttError::invalid_client_id(client_id, ClientIdErrorReason::EmptyWithNonCleanSession),
        );
    }
    Ok(())
}

/// Validates the will fields of a CONNECT packet.
pub fn validate_will_message(packet: &ConnectPacket) -> (res: Result<(), MqttError>)
    ensures
        result_agrees(res, will_error(packet@)),
{
    if !packet.will_flag {
        if packet.will_qos != QoS::AtMostOnce || packet.will_retain {
            return Err(
                MqttError::protocol_violation(
                    "Will QoS and Will Retain must be 0 when Will Flag is not set",
                    Some(1),
                ),
            );
        }
        return Ok(());
    }
    match (&packet.will_topic, &packet.will_message) {
        (Some(topic), Some(_)) => validate_topic_name(topic.as_str()),
        _ => Err(
            MqttError::protocol_violation(
                "Will Topic and Will Message are required when Will Flag is set",
                Some(1),
            ),
        ),
    }
}

/// Validates the credential flags and fields of a CONNECT packet.
pub fn validate_credentials_flags(packet: &ConnectPacket) -> (res: Result<(), MqttError>)
    ensures
        result_agrees(res, credentials_error(packet@)),
{
    if packet.username_flag != packet.username.is_some() {
        return Err(
            MqttError::protocol_violation("Username Flag must match the Username field", Some(1)),
        );
    }
    if packet.password_flag != packet.password.is_some() {
        return Err(
            MqttError::protocol_violation("Password Flag must match the Password field", Some(1)),
        );
    }
    if packet.password_flag && !packet.username_flag {
        return Err(
            MqttError::protocol_violation("Password Flag requires the Username Flag", Some(1)),
        );
    }
    Ok(())
}

/// Validates a CONNECT packet.
pub fn validate_connect_packet(packet: &ConnectPacket) -> (res: Result<(), MqttError>)
    ensures
        result_agrees(res, connect_error(packet@)),
{
    let mqtt = "MQTT".to_owned();
    if !(packet.protocol_name == mqtt) {
        let message = join3(
            "Invalid protocol name: expected 'MQTT', got '",
            packet.protocol_name.as_str(),
            "'",
        );
        return Err(MqttError::protocol_violation(message.as_str(), Some(1)));
    }
    if packet.protocol_level != 4 {
        let got = number_text(packet.protocol_level as u64);
        let message = join("Invalid protocol level: expected 4, got ", got.as_str());
        return Err(MqttError::protocol_violation(message.as_str(), Some(1)));
    }
    validate_client_id(packet.client_id.as_str(), packet.clean_session)?;
    validate_will_message(packet)?;
    validate_credentials_flags(packet)
}

/// Validates a CONNACK packet.
pub fn validate_connack_packet(packet: &ConnAckPacket) -> (res: Result<(), MqttError>)
    ensures
        result_agrees(res, connack_error(*packet)),
{
    if packet.session_present && packet.return_code != ConnectReturnCode::Accepted {
        return Err(
            MqttError::protocol_violation(
                "Session Present must be 0 when the connection is refused",
                Some(2),
            ),
        );
    }
    Ok(())
}

/// Validates a list of topic filters, reporting the first invalid one.
fn validate_topic_filters(filters: &Vec<String>) -> (res: Result<(), MqttError>)
    ensures
        result_agrees(res, topic_filters_error(filters@.map_values(|t: String| t@))),
{
    let ghost fs = filters@.map_values(|t: String| t@);
    let mut i: usize = 0;
    assert(fs.skip(0) =~= fs);
    while i < filters.len()
        invariant
            i <= filters.len(),
            fs == filters@.map_values(|t: String| t@),
            topic_filters_error(fs) == topic_filters_error(fs.skip(i as int)),
        decreases filters.len() - i,
    {
        assert(fs.skip(i as int).drop_first() =~= fs.skip(i + 1));
        assert(fs.skip(i as int)[0] == filters@[i as int]@);
        validate_topic_filter(filters[i].as_str())?;
        i += 1;
    }
    assert(fs.skip(i as int).len() == 0);
    Ok(())
}

/// Validates the QoS, packet identifier and DUP flag of a PUBLISH packet.
fn validate_publish_fields(qos: QoS, packet_id: Option<u16>, duplicate: bool) -> (res: Result<
    (),
    MqttError,
>)
    ensures
        forall|p: PublishPacketView|
            p.qos == qos && p.packet_id == packet_id && p.duplicate == duplicate ==> result_agrees(
                res,
                #[trigger] publish_id_error(p),
            ),
{
    match qos {
        QoS::AtMostOnce => {
            if packet_id.is_some() || duplicate {
                return Err(
                    MqttError::protocol_violation(
                        "QoS 0 PUBLISH carries neither packet identifier nor DUP flag",
                        Some(3),
                    ),
                );
            }
            Ok(())
        },
        _ => match packet_id {
            Some(id) => validate_packet_id(id),
            None => Err(
                MqttError::protocol_violation(
                    "Packet identifier is required for QoS 1 and QoS 2",
                    Some(3),
                ),
            ),
        },
    }
}

/// Validates any MQTT v3.1.1 packet.
pub fn validate_packet(packet: &Packet) -> (res: Result<(), MqttError>)
    ensures
        result_agrees(res, packet_error(packet@)),
{
    match packet {
        Packet::Connect(p) => validate_connect_packet(p),
        Packet::ConnAck(p) => validate_connack_packet(p),
        Packet::Publish(p) => {
            validate_topic_name(p.topic_name.as_str())?;
            let r = validate_publish_fields(p.qos, p.packet_id, p.duplicate);
            assert(result_agrees(r, publish_id_error(p@)));
            r
        },
        Packet::PubAck(p) => validate_packet_id(p.packet_id),
        Packet::PubRec(p) => validate_packet_id(p.packet_id),
        Packet::PubRel(p) => validate_packet_id(p.packet_id),
        Packet::PubComp(p) => validate_packet_id(p.packet_id),
        Packet::Subscribe(p) => {
            validate_packet_id(p.packet_id)?;
            if p.topics.len() == 0 {
                return Err(
                    MqttError::protocol_violation(
                        "SUBSCRIBE must contain at least one topic filter",
                        Some(8),
                    ),
                );
            }
            let mut filters: Vec<String> = Vec::new();
            let mut i: usize = 0;
            while i < p.topics.len()
                invariant
                    i <= p.topics.len(),
                    filters@.len() == i,
                    forall|j: int| 0 <= j < i ==> #[trigger] filters@[j]@ == p.topics@[j].0@,
                decreases p.topics.len() - i,
            {
                filters.push(p.topics[i].0.clone());
                i += 1;
            }
            assert(filters@.map_values(|t: String| t@) =~= p@.topics.map_values(
                |t: (Seq<char>, QoS)| t.0,
            ));
            validate_topic_filters(&filters)
        },
        Packet::SubAck(p) => {
            validate_packet_id(p.packet_id)?;
            if p.return_codes.len() == 0 {
                return Err(
                    MqttError::protocol_violation(
                        "SUBACK must contain at least one return code",
                        Some(9),
                    ),
                );
            }
            Ok(())
        },
        Packet::Unsubscribe(p) => {
            validate_packet_id(p.packet_id)?;
            if p.topics.len() == 0 {
                return Err(
                    MqttError::protocol_violation(
                        "UNSUBSCRIBE must contain at least one topic filter",
                        Some(10),
                    ),
                );
            }
            validate_topic_filters(&p.topics)
        },
        Packet::UnsubAck(p) => validate_packet_id(p.packet_id),
        Packet::PingReq(_) | Packet::PingResp(_) | Packet::Disconnect(_) => Ok(()),
    }
}

// ============================================================================
// Laws
// ============================================================================

/// Where wildcards may stand in a topic filter that the validator accepts
/// (MQTT v3.1.1, section 4.7.1): the filter is non-empty and free of the
/// null character, a `#` is the last character and alone in its level
/// (first, or right after a `/`), and a `+` is alone in its level. And
/// conversely: a non-empty filter of at most 65535 bytes, free of the null
/// character, in which some `#` is not the whole last level, is refused as
/// a misplaced multi-level wildcard.
pub proof fn lemma_topic_filter_wildcards(f: Seq<char>)
    ensures
        topic_filter_error(f) is None ==> {
            &&& f.len() > 0
            &&& !f.contains('\0')
            &&& forall|i: int|
                0 <= i < f.len() && #[trigger] f[i] == '#' ==> i == f.len() - 1 && (i == 0 || f[i
                    - 1] == '/')
            &&& forall|i: int|
                0 <= i < f.len() && #[trigger] f[i] == '+' ==> (i == 0 || f[i - 1] == '/') && (i
                    == f.len() - 1 || f[i + 1] == '/')
        },
        f.len() > 0 && encode_utf8(f).len() <= 65535 && !f.contains('\0') && (exists|i: int|
            0 <= i < f.len() && #[trigger] f[i] == '#' && (i != f.len() - 1 || (i > 0 && f[i - 1]
                != '/'))) ==> topic_filter_error(f) == Some(
            ErrorKind::InvalidTopicFilter {
                filter: f,
                reason: TopicFilterErrorReason::InvalidMultiLevelWildcard,
            },
        ),
{
    if topic_filter_error(f) is None {
        assert forall|i: int|
            0 <= i < f.len() && #[trigger] f[i] == '#' implies i == f.len() - 1 && (i == 0 || f[i
                - 1] == '/') by {
            assert(!misplaced_multi_level(f, i));
        }
        assert forall|i: int|
            0 <= i < f.len() && #[trigger] f[i] == '+' implies (i == 0 || f[i - 1] == '/') && (i
                == f.len() - 1 || f[i + 1] == '/') by {
            assert(!misplaced_single_level(f, i));
        }
    }
    if f.len() > 0 && encode_utf8(f).len() <= 65535 && !f.contains('\0') && (exists|i: int|
        0 <= i < f.len() && #[trigger] f[i] == '#' && (i != f.len() - 1 || (i > 0 && f[i - 1]
            != '/'))) {
        let i = choose|i: int|
            0 <= i < f.len() && #[trigger] f[i] == '#' && (i != f.len() - 1 || (i > 0 && f[i - 1]
                != '/'));
        assert(misplaced_multi_level(f, i));
    }
}

/// Every topic filter of a SUBSCRIBE packet that the validator accepts has
/// its `#` wildcards only as the whole last level.
pub proof fn lemma_subscribe_filters_wildcards(p: SubscribePacketView)
    ensures
        subscribe_error(p) is None ==> forall|k: int, i: int|
            0 <= k < p.topics.len() && 0 <= i < p.topics[k].0.len() && #[trigger] p.topics[k].0[i]
                == '#' ==> i == p.topics[k].0.len() - 1 && (i == 0 || p.topics[k].0[i - 1] == '/'),
{
    if subscribe_error(p) is None {
        let fs = p.topics.map_values(|t: (Seq<char>, QoS)| t.0);
        lemma_each_filter_valid(fs);
        assert forall|k: int, i: int|
            0 <= k < p.topics.len() && 0 <= i < p.topics[k].0.len() && #[trigger] p.topics[k].0[i]
                == '#' implies i == p.topics[k].0.len() - 1 && (i == 0 || p.topics[k].0[i - 1]
                == '/') by {
            assert(fs[k] == p.topics[k].0);
            assert(topic_filter_error(fs[k]) is None);
            lemma_topic_filter_wildcards(fs[k]);
            assert(fs[k][i] == '#');
        }
    }
}

/// A list of topic filters without error has no filter in error.
pub(crate) proof fn lemma_each_filter_valid(fs: Seq<Seq<char>>)
    requires
        topic_filters_error(fs) is None,
    ensures
        forall|i: int| 0 <= i < fs.len() ==> #[trigger] topic_filter_error(fs[i]) is None,
    decreases fs.len(),
{
    if fs.len() > 0 {
        lemma_each_filter_valid(fs.drop_first());
        assert forall|i: int| 0 <= i < fs.len() implies #[trigger] topic_filter_error(fs[i]) is None by {
            if i > 0 {
                assert(fs[i] == fs.drop_first()[i - 1]);
            }
        }
    }
}

} // verus!
