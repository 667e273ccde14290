//! Builders for the MQTT v5.0 packets a client sends.

use vstd::prelude::*;

use super::packet::{
    properties_empty, ConnectPacket, Properties, PublishPacket, QoS, SubscribePacket,
    SubscriptionOption, UnsubscribePacket,
};

verus! {

/// Whether `p` is the CONNECT packet a builder starts from: protocol "MQTT"
/// level 5, clean start, keep-alive 60 seconds, no properties, no will and
/// no credentials.
pub open spec fn initial_connect(p: ConnectPacket, client_id: Seq<char>) -> bool {
    &&& p.protocol_name@ == "MQTT"@
    &&& p.protocol_level == 5
    &&& p.clean_start
    &&& !p.will_flag
    &&& p.will_qos == QoS::AtMostOnce
    &&& !p.will_retain
    &&& !p.password_flag
    &&& !p.username_flag
    &&& p.keep_alive == 60
    &&& properties_empty(p.properties)
    &&& p.client_id@ == client_id
    &&& p.will_topic is None
    &&& p.will_message is None
    &&& p.will_properties is None
    &&& p.username is None
    &&& p.password is None
}

/// Builds a CONNECT packet step by step.
pub struct ConnectPacketBuilder {
    packet: ConnectPacket,
}

impl ConnectPacketBuilder {
    /// The CONNECT packet built so far.
    pub closed spec fn packet(&self) -> ConnectPacket {
        self.packet
    }

    /// Starts a CONNECT packet for the client identifier `client_id`.
    pub fn new(client_id: &str) -> (b: ConnectPacketBuilder)
        ensures
            initial_connect(b.packet(), client_id@),
    {
        ConnectPacketBuilder {
            packet: ConnectPacket {
                protocol_name: "MQTT".to_owned(),
                protocol_level: 5,
                clean_start: true,
                will_flag: false,
                will_qos: QoS::AtMostOnce,
                will_retain: false,
                password_flag: false,
                username_flag: false,
                keep_alive: 60,
                properties: Properties::new(),
                client_id: client_id.to_owned(),
                will_topic: None,
                will_message: None,
                will_properties: None,
                username: None,
                password: None,
            },
        }
    }

    /// Sets the keep-alive interval, in seconds.
    pub fn keep_alive(self, seconds: u16) -> (b: ConnectPacketBuilder)
        ensures
            b.packet() == (ConnectPacket { keep_alive: seconds, ..self.packet() }),
    {
        let mut packet = self.packet;
        packet.keep_alive = seconds;
        ConnectPacketBuilder { packet }
    }

    /// Sets the Clean Start flag.
    pub fn clean_start(self, clean: bool) -> (b: ConnectPacketBuilder)
        ensures
            b.packet() == (ConnectPacket { clean_start: clean, ..self.packet() }),
    {
        let mut packet = self.packet;
        packet.clean_start = clean;
        ConnectPacketBuilder { packet }
    }

    /// Sets the Session Expiry Interval, in seconds.
    pub fn session_expiry_interval(self, value: u32) -> (b: ConnectPacketBuilder)
        ensures
            b.packet() == (ConnectPacket {
                properties: Properties { session_expiry_interval: Some(value), ..self.packet().properties },
                ..self.packet()
            }),
    {
        let mut packet = self.packet;
        packet.properties.session_expiry_interval = Some(value);
        ConnectPacketBuilder { packet }
    }

    /// Sets the Receive Maximum.
    pub fn receive_maximum(self, value: u16) -> (b: ConnectPacketBuilder)
        ensures
            b.packet() == (ConnectPacket {
                properties: Properties { receive_maximum: Some(value), ..self.packet().properties },
                ..self.packet()
            }),
    {
        let mut packet = self.packet;
        packet.properties.receive_maximum = Some(value);
        ConnectPacketBuilder { packet }
    }

    /// Sets the Maximum Packet Size.
    pub fn maximum_packet_size(self, value: u32) -> (b: ConnectPacketBuilder)
        ensures
            b.packet() == (ConnectPacket {
                properties: Properties { maximum_packet_size: Some(value), ..self.packet().properties },
                ..self.packet()
            }),
    {
        let mut packet = self.packet;
        packet.properties.maximum_packet_size = Some(value);
        ConnectPacketBuilder { packet }
    }

    /// Sets the Topic Alias Maximum.
    pub fn topic_alias_maximum(self, value: u16) -> (b: ConnectPacketBuilder)
        ensures
            b.packet() == (ConnectPacket {
                properties: Properties { topic_alias_maximum: Some(value), ..self.packet().properties },
                ..self.packet()
            }),
    {
        let mut packet = self.packet;
        packet.properties.topic_alias_maximum = Some(value);
        ConnectPacketBuilder { packet }
    }

    /// Sets the Authentication Method.
    pub fn authentication_method(self, value: &str) -> (b: ConnectPacketBuilder)
        ensures
            b.packet().properties.authentication_method matches Some(v) && v@ == value@,
            b.packet() == (ConnectPacket {
                properties: Properties {
                    authentication_method: b.packet().properties.authentication_method,
                    ..self.packet().properties
                },
                ..self.packet()
            }),
    {
        let mut packet = self.packet;
        packet.properties.authentication_method = Some(value.to_owned());
        ConnectPacketBuilder { packet }
    }

    /// Sets the Authentication Data.
    pub fn authentication_data(self, value: Vec<u8>) -> (b: ConnectPacketBuilder)
        ensures
            b.packet() == (ConnectPacket {
                properties: Properties { authentication_data: Some(value), ..self.packet().properties },
                ..self.packet()
            }),
    {
        let mut packet = self.packet;
        packet.properties.authentication_data = Some(value);
        ConnectPacketBuilder { packet }
    }

    /// Sets the user name and its flag.
    pub fn username(self, username: &str) -> (b: ConnectPacketBuilder)
        ensures
            b.packet().username matches Some(u) && u@ == username@,
            b.packet() == (ConnectPacket {
                username: b.packet().username,
                username_flag: true,
                ..self.packet()
            }),
    {
        let mut packet = self.packet;
        packet.username = Some(username.to_owned());
        packet.username_flag = true;
        ConnectPacketBuilder { packet }
    }

    /// Sets the password and its flag.
    pub fn password(self, password: Vec<u8>) -> (b: ConnectPacketBuilder)
        ensures
            b.packet() == (ConnectPacket {
                password: Some(password),
                password_flag: true,
                ..self.packet()
            }),
    {
        let mut packet = self.packet;
        packet.password = Some(password);
        packet.password_flag = true;
        ConnectPacketBuilder { packet }
    }

    /// Sets the will: its topic, message, QoS and retain flag, and the Will Flag.
    pub fn will(self, topic: &str, message: Vec<u8>, qos: QoS, retain: bool) -> (b:
        ConnectPacketBuilder)
        ensures
            b.packet().will_topic matches Some(t) && t@ == topic@,
            b.packet() == (ConnectPacket {
                will_flag: true,
                will_topic: b.packet().will_topic,
                will_message: Some(message),
                will_qos: qos,
                will_retain: retain,
                ..self.packet()
            }),
    {
        let mut packet = self.packet;
        packet.will_flag = true;
        packet.will_topic = Some(topic.to_owned());
        packet.will_message = Some(message);
        packet.will_qos = qos;
        packet.will_retain = retain;
        ConnectPacketBuilder { packet }
    }

    /// Sets the Will Delay Interval, in seconds, among the will properties;
    /// the will properties start empty when there are none yet.
    pub fn will_delay_interval(self, seconds: u32) -> (b: ConnectPacketBuilder)
        ensures
            b.packet().will_properties matches Some(w) && w.will_delay_interval == Some(seconds)
                && match self.packet().will_properties {
                Some(old) => w == (Properties { will_delay_interval: Some(seconds), ..old }),
                None => properties_empty(Properties { will_delay_interval: None, ..w }),
            },
            b.packet() == (ConnectPacket {
                will_properties: b.packet().will_properties,
                ..self.packet()
            }),
    {
        let mut packet = self.packet;
        let mut props = match packet.will_properties {
            Some(p) => p,
            None => Properties::new(),
        };
        props.will_delay_interval = Some(seconds);
        packet.will_properties = Some(props);
        ConnectPacketBuilder { packet }
    }

    /// The CONNECT packet built so far.
    pub fn build(self) -> (p: ConnectPacket)
        ensures
            p == self.packet(),
    {
        self.packet
    }
}

/// Builds a PUBLISH packet step by step.
pub struct PublishPacketBuilder {
    packet: PublishPacket,
}

impl PublishPacketBuilder {
    /// The PUBLISH packet built so far.
    pub closed spec fn packet(&self) -> PublishPacket {
        self.packet
    }

    /// Starts a QoS 0 PUBLISH of `payload` to `topic`, without identifier,
    /// DUP or retain flag, and without properties.
    pub fn new(topic: &str, payload: Vec<u8>) -> (b: PublishPacketBuilder)
        ensures
            b.packet().topic_name@ == topic@,
            b.packet().payload == payload,
            b.packet().packet_id is None,
            b.packet().qos == QoS::AtMostOnce,
            !b.packet().duplicate,
            !b.packet().retain,
            properties_empty(b.packet().properties),
    {
        PublishPacketBuilder {
            packet: PublishPacket {
                topic_name: topic.to_owned(),
                packet_id: None,
                payload,
                qos: QoS::AtMostOnce,
                duplicate: false,
                retain: false,
                properties: Properties::new(),
            },
        }
    }

    /// Sets the QoS level.
    pub fn qos(self, qos: QoS) -> (b: PublishPacketBuilder)
        ensures
            b.packet() == (PublishPacket { qos, ..self.packet() }),
    {
        let mut packet = self.packet;
        packet.qos = qos;
        PublishPacketBuilder { packet }
    }

    /// Sets the packet identifier.
    pub fn packet_id(self, id: u16) -> (b: PublishPacketBuilder)
        ensures
            b.packet() == (PublishPacket { packet_id: Some(id), ..self.packet() }),
    {
        let mut packet = self.packet;
        packet.packet_id = Some(id);
        PublishPacketBuilder { packet }
    }

    /// Sets the retain flag.
    pub fn retain(self, retain: bool) -> (b: PublishPacketBuilder)
        ensures
            b.packet() == (PublishPacket { retain, ..self.packet() }),
    {
        let mut packet = self.packet;
        packet.retain = retain;
        PublishPacketBuilder { packet }
    }

    /// Sets the Message Expiry Interval, in seconds.
    pub fn message_expiry_interval(self, value: u32) -> (b: PublishPacketBuilder)
        ensures
            b.packet() == (PublishPacket {
                properties: Properties { message_expiry_interval: Some(value), ..self.packet().properties },
                ..self.packet()
            }),
    {
        let mut packet = self.packet;
        packet.properties.message_expiry_interval = Some(value);
        PublishPacketBuilder { packet }
    }

    /// Sets the Content Type.
    pub fn content_type(self, value: &str) -> (b: PublishPacketBuilder)
        ensures
            b.packet().properties.content_type matches Some(v) && v@ == value@,
            b.packet() == (PublishPacket {
                properties: Properties {
                    content_type: b.packet().properties.content_type,
                    ..self.packet().properties
                },
                ..self.packet()
            }),
    {
        let mut packet = self.packet;
        packet.properties.content_type = Some(value.to_owned());
        PublishPacketBuilder { packet }
    }

    /// Sets the Response Topic.
    pub fn response_topic(self, value: &str) -> (b: PublishPacketBuilder)
        ensures
            b.packet().properties.response_topic matches Some(v) && v@ == value@,
            b.packet() == (PublishPacket {
                properties: Properties {
                    response_topic: b.packet().properties.response_topic,
                    ..self.packet().properties
                },
                ..self.packet()
            }),
    {
        let mut packet = self.packet;
        packet.properties.response_topic = Some(value.to_owned());
        PublishPacketBuilder { packet }
    }

    /// Sets the Correlation Data.
    pub fn correlation_data(self, value: Vec<u8>) -> (b: PublishPacketBuilder)
        ensures
            b.packet() == (PublishPacket {
                properties: Properties { correlation_data: Some(value), ..self.packet().properties },
                ..self.packet()
            }),
    {
        let mut packet = self.packet;
        packet.properties.correlation_data = Some(value);
        PublishPacketBuilder { packet }
    }

    /// Appends a user property.
    pub fn user_property(self, key: &str, value: &str) -> (b: PublishPacketBuilder)
        ensures
            b.packet().properties.user_properties@.len() == self.packet().properties.user_properties@.len() + 1,
            b.packet().properties.user_properties@.drop_last() == self.packet().properties.user_properties@,
            b.packet().properties.user_properties@.last().0@ == key@,
            b.packet().properties.user_properties@.last().1@ == value@,
            b.packet() == (PublishPacket {
                properties: Properties {
                    user_properties: b.packet().properties.user_properties,
                    ..self.packet().properties
                },
                ..self.packet()
            }),
    {
        let mut packet = self.packet;
        packet.properties.user_properties.push((key.to_owned(), value.to_owned()));
        PublishPacketBuilder { packet }
    }

    /// The PUBLISH packet built so far.
    pub fn build(self) -> (p: PublishPacket)
        ensures
            p == self.packet(),
    {
        self.packet
    }
}

/// A subscription option with the given flags.
pub open spec fn option_is(
    o: SubscriptionOption,
    filter: Seq<char>,
    qos: QoS,
    no_local: bool,
    retain_as_published: bool,
    retain_handling: u8,
) -> bool {
    o.topic_filter@ == filter && o.qos == qos && o.no_local == no_local
        && o.retain_as_published == retain_as_published && o.retain_handling == retain_handling
}

/// Builds a SUBSCRIBE packet, one topic filter at a time.
pub struct SubscribePacketBuilder {
    packet_id: u16,
    topics: Vec<SubscriptionOption>,
}

impl SubscribePacketBuilder {
    /// The packet identifier.
    pub closed spec fn packet_id(&self) -> u16 {
        self.packet_id
    }

    /// The subscription options added so far.
    pub closed spec fn topics(&self) -> Seq<SubscriptionOption> {
        self.topics@
    }

    /// Starts a SUBSCRIBE with identifier `packet_id` and no filters.
    pub fn new(packet_id: u16) -> (b: SubscribePacketBuilder)
        ensures
            b.packet_id() == packet_id,
            b.topics().len() == 0,
    {
        SubscribePacketBuilder { packet_id, topics: Vec::new() }
    }

    /// Adds a topic filter with its QoS and the default options: local
    /// messages delivered, retain flag as the broker sets it, retained
    /// messages sent on subscribe.
    pub fn topic(self, filter: &str, qos: QoS) -> (b: SubscribePacketBuilder)
        ensures
            b.packet_id() == self.packet_id(),
            b.topics().len() == self.topics().len() + 1,
            b.topics().drop_last() == self.topics(),
            option_is(b.topics().last(), filter@, qos, false, false, 0),
    {
        self.topic_with_options(filter, qos, false, false, 0)
    }

    /// Adds a topic filter with its QoS and subscription options.
    pub fn topic_with_options(
        self,
        filter: &str,
        qos: QoS,
        no_local: bool,
        retain_as_published: bool,
        retain_handling: u8,
    ) -> (b: SubscribePacketBuilder)
        ensures
            b.packet_id() == self.packet_id(),
            b.topics().len() == self.topics().len() + 1,
            b.topics().drop_last() == self.topics(),
            option_is(b.topics().last(), filter@, qos, no_local, retain_as_published, retain_handling),
    {
        let mut topics = self.topics;
        topics.push(
            SubscriptionOption {
                topic_filter: filter.to_owned(),
                qos,
                no_local,
                retain_as_published,
                retain_handling,
            },
        );
        SubscribePacketBuilder { packet_id: self.packet_id, topics }
    }

    /// The SUBSCRIBE packet without properties, or `None` when no filter
    /// was added.
    pub fn build(self) -> (p: Option<SubscribePacket>)
        ensures
            self.topics().len() == 0 ==> p is None,
            self.topics().len() > 0 ==> (p matches Some(s) && s.packet_id == self.packet_id()
                && s.topics@ == self.topics() && properties_empty(s.properties)),
    {
        if self.topics.len() == 0 {
            None
        } else {
            Some(
                SubscribePacket {
                    packet_id: self.packet_id,
                    properties: Properties::new(),
                    topics: self.topics,
                },
            )
        }
    }
}

/// Builds an UNSUBSCRIBE packet, one topic filter at a time.
pub struct UnsubscribePacketBuilder {
    packet_id: u16,
    topics: Vec<String>,
}

impl UnsubscribePacketBuilder {
    /// The packet identifier.
    pub closed spec fn packet_id(&self) -> u16 {
        self.packet_id
    }

    /// The topic filters added so far.
    pub closed spec fn topics(&self) -> Seq<String> {
        self.topics@
    }

    /// Starts an UNSUBSCRIBE with identifier `packet_id` and no filters.
    pub fn new(packet_id: u16) -> (b: UnsubscribePacketBuilder)
        ensures
            b.packet_id() == packet_id,
            b.topics().len() == 0,
    {
        UnsubscribePacketBuilder { packet_id, topics: Vec::new() }
    }

    /// Adds a topic filter.
    pub fn topic(self, filter: &str) -> (b: UnsubscribePacketBuilder)
        ensures
            b.packet_id() == self.packet_id(),
            b.topics().len() == self.topics().len() + 1,
            b.topics().drop_last() == self.topics(),
            b.topics().last()@ == filter@,
    {
        let mut topics = self.topics;
        topics.push(filter.to_owned());
        UnsubscribePacketBuilder { packet_id: self.packet_id, topics }
    }

    /// The UNSUBSCRIBE packet without properties, or `None` when no filter
    /// was added.
    pub fn build(self) -> (p: Option<UnsubscribePacket>)
        ensures
            self.topics().len() == 0 ==> p is None,
            self.topics().len() > 0 ==> (p matches Some(u) && u.packet_id == self.packet_id()
                && u.topics@ == self.topics() && properties_empty(u.properties)),
    {
        if self.topics.len() == 0 {
            None
        } else {
            Some(
                UnsubscribePacket {
                    packet_id: self.packet_id,
                    properties: Properties::new(),
                    topics: self.topics,
                },
            )
        }
    }
}

} // verus!
