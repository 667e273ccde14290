//! Builders for the MQTT v3.1.1 packets a client sends.

use vstd::prelude::*;

use super::packet::{
    topic_qos_view, strings_view, ConnectPacket, ConnectPacketView, PublishPacket,
    PublishPacketView, QoS, SubscribePacket, SubscribePacketView, UnsubscribePacket,
    UnsubscribePacketView,
};

verus! {

/// The CONNECT packet a builder starts from: protocol "MQTT" level 4,
/// clean session, keep-alive 60 seconds, no will and no credentials.
pub open spec fn initial_connect(client_id: Seq<char>) -> ConnectPacketView {
    ConnectPacketView {
        protocol_name: "MQTT"@,
        protocol_level: 4,
        clean_session: true,
        will_flag: false,
        will_qos: QoS::AtMostOnce,
        will_retain: false,
        password_flag: false,
        username_flag: false,
        keep_alive: 60,
        client_id,
        will_topic: None,
        will_message: None,
        username: None,
        password: None,
    }
}

/// Builds a CONNECT packet step by step.
pub struct ConnectPacketBuilder {
    packet: ConnectPacket,
}

impl View for ConnectPacketBuilder {
    type V = ConnectPacketView;

    closed spec fn view(&self) -> ConnectPacketView {
        self.packet@
    }
}

impl ConnectPacketBuilder {
    /// Starts a CONNECT packet for the client identifier `client_id`.
    pub fn new(client_id: &str) -> (b: ConnectPacketBuilder)
        ensures
            b@ == initial_connect(client_id@),
    {
        let mut packet = ConnectPacket::default();
        packet.client_id = client_id.to_owned();
        ConnectPacketBuilder { packet }
    }

    /// Sets the keep-alive interval, in seconds.
    pub fn keep_alive(self, seconds: u16) -> (b: ConnectPacketBuilder)
        ensures
            b@ == (ConnectPacketView { keep_alive: seconds, ..self@ }),
    {
        let mut packet = self.packet;
        packet.keep_alive = seconds;
        ConnectPacketBuilder { packet }
    }

    /// Sets the Clean Session flag.
    pub fn clean_session(self, clean: bool) -> (b: ConnectPacketBuilder)
        ensures
            b@ == (ConnectPacketView { clean_session: clean, ..self@ }),
    {
        let mut packet = self.packet;
        packet.clean_session = clean;
        ConnectPacketBuilder { packet }
    }

    /// Sets the user name and its flag.
    pub fn username(self, username: &str) -> (b: ConnectPacketBuilder)
        ensures
            b@ == (ConnectPacketView {
                username: Some(username@),
                username_flag: true,
                ..self@
            }),
    {
        let mut packet = self.packet;
        packet.username = Some(username.to_owned());
        packet.username_flag = true;
        ConnectPacketBuilder { packet }
    }

    /// Sets the password and its flag.
    pub fn password(self, password: Vec<u8>) -> (b: ConnectPacketBuilder)
        ensures
            b@ == (ConnectPacketView {
                password: Some(password@),
                password_flag: true,
                ..self@
            }),
    {
        let mut packet = self.packet;
        packet.password = Some(password);
        packet.password_flag = true;
        ConnectPacketBuilder { packet }
    }

    /// Sets the will: its topic, message, QoS and retain flag, and the Will Flag.
    pub fn will(self, topic: &str, message: Vec<u8>, qos: QoS, retain: bool) -> (b:
        ConnectPacketBuilder)
        ensures
            b@ == (ConnectPacketView {
                will_flag: true,
                will_topic: Some(topic@),
                will_message: Some(message@),
                will_qos: qos,
                will_retain: retain,
                ..self@
            }),
    {
        let mut packet = self.packet;
        packet.will_flag = true;
        packet.will_topic = Some(topic.to_owned());
        packet.will_message = Some(message);
        packet.will_qos = qos;
        packet.will_retain = retain;
        ConnectPacketBuilder { packet }
    }

    /// The CONNECT packet built so far.
    pub fn build(self) -> (p: ConnectPacket)
        ensures
            p@ == self@,
    {
        self.packet
    }
}

/// Builds a PUBLISH packet step by step.
pub struct PublishPacketBuilder {
    packet: PublishPacket,
}

impl View for PublishPacketBuilder {
    type V = PublishPacketView;

    closed spec fn view(&self) -> PublishPacketView {
        self.packet@
    }
}

impl PublishPacketBuilder {
    /// Starts a QoS 0 PUBLISH of `payload` to `topic`, without identifier,
    /// DUP or retain flag.
    pub fn new(topic: &str, payload: Vec<u8>) -> (b: PublishPacketBuilder)
        ensures
            b@ == (PublishPacketView {
                topic_name: topic@,
                packet_id: None,
                payload: payload@,
                qos: QoS::AtMostOnce,
                duplicate: false,
                retain: false,
            }),
    {
        PublishPacketBuilder { packet: PublishPacket::new(topic, payload) }
    }

    /// Sets the QoS level.
    pub fn qos(self, qos: QoS) -> (b: PublishPacketBuilder)
        ensures
            b@ == (PublishPacketView { qos, ..self@ }),
    {
        let mut packet = self.packet;
        packet.qos = qos;
        PublishPacketBuilder { packet }
    }

    /// Sets the packet identifier.
    pub fn packet_id(self, id: u16) -> (b: PublishPacketBuilder)
        ensures
            b@ == (PublishPacketView { packet_id: Some(id), ..self@ }),
    {
        let mut packet = self.packet;
        packet.packet_id = Some(id);
        PublishPacketBuilder { packet }
    }

    /// Sets the retain flag.
    pub fn retain(self, retain: bool) -> (b: PublishPacketBuilder)
        ensures
            b@ == (PublishPacketView { retain, ..self@ }),
    {
        let mut packet = self.packet;
        packet.retain = retain;
        PublishPacketBuilder { packet }
    }

    /// The PUBLISH packet built so far.
    pub fn build(self) -> (p: PublishPacket)
        ensures
            p@ == self@,
    {
        self.packet
    }
}

/// Builds a SUBSCRIBE packet, one topic filter at a time.
pub struct SubscribePacketBuilder {
    packet_id: u16,
    topics: Vec<(String, QoS)>,
}

impl View for SubscribePacketBuilder {
    type V = SubscribePacketView;

    closed spec fn view(&self) -> SubscribePacketView {
        SubscribePacketView { packet_id: self.packet_id, topics: topic_qos_view(self.topics@) }
    }
}

impl SubscribePacketBuilder {
    /// Starts a SUBSCRIBE with identifier `packet_id` and no filters.
    pub fn new(packet_id: u16) -> (b: SubscribePacketBuilder)
        ensures
            b@ == (SubscribePacketView { packet_id, topics: Seq::empty() }),
    {
        let b = SubscribePacketBuilder { packet_id, topics: Vec::new() };
        assert(topic_qos_view(b.topics@) =~= Seq::empty());
        b
    }

    /// Adds a topic filter with its requested QoS.
    pub fn topic(self, filter: &str, qos: QoS) -> (b: SubscribePacketBuilder)
        ensures
            b@ == (SubscribePacketView {
                packet_id: self@.packet_id,
                topics: self@.topics.push((filter@, qos)),
            }),
    {
        let mut topics = self.topics;
        let ghost before = topics@;
        topics.push((filter.to_owned(), qos));
        assert(topic_qos_view(topics@) =~= topic_qos_view(before).push((filter@, qos)));
        SubscribePacketBuilder { packet_id: self.packet_id, topics }
    }

    /// The SUBSCRIBE packet, or `None` when no filter was added.
    pub fn build(self) -> (p: Option<SubscribePacket>)
        ensures
            self@.topics.len() == 0 ==> p is None,
            self@.topics.len() > 0 ==> (p matches Some(s) && s@ == self@),
    {
        if self.topics.len() == 0 {
            None
        } else {
            Some(SubscribePacket { packet_id: self.packet_id, topics: self.topics })
        }
    }
}

/// Builds an UNSUBSCRIBE packet, one topic filter at a time.
pub struct UnsubscribePacketBuilder {
    packet_id: u16,
    topics: Vec<String>,
}

impl View for UnsubscribePacketBuilder {
    type V = UnsubscribePacketView;

    closed spec fn view(&self) -> UnsubscribePacketView {
        UnsubscribePacketView { packet_id: self.packet_id, topics: strings_view(self.topics@) }
    }
}

impl UnsubscribePacketBuilder {
    /// Starts an UNSUBSCRIBE with identifier `packet_id` and no filters.
    pub fn new(packet_id: u16) -> (b: UnsubscribePacketBuilder)
        ensures
            b@ == (UnsubscribePacketView { packet_id, topics: Seq::empty() }),
    {
        let b = UnsubscribePacketBuilder { packet_id, topics: Vec::new() };
        assert(strings_view(b.topics@) =~= Seq::empty());
        b
    }

    /// Adds a topic filter.
    pub fn topic(self, filter: &str) -> (b: UnsubscribePacketBuilder)
        ensures
            b@ == (UnsubscribePacketView {
                packet_id: self@.packet_id,
                topics: self@.topics.push(filter@),
            }),
    {
        let mut topics = self.topics;
        let ghost before = topics@;
        topics.push(filter.to_owned());
        assert(strings_view(topics@) =~= strings_view(before).push(filter@));
        UnsubscribePacketBuilder { packet_id: self.packet_id, topics }
    }

    /// The UNSUBSCRIBE packet, or `None` when no filter was added.
    pub fn build(self) -> (p: Option<UnsubscribePacket>)
        ensures
            self@.topics.len() == 0 ==> p is None,
            self@.topics.len() > 0 ==> (p matches Some(s) && s@ == self@),
    {
        if self.topics.len() == 0 {
            None
        } else {
            Some(UnsubscribePacket { packet_id: self.packet_id, topics: self.topics })
        }
    }
}

} // verus!
