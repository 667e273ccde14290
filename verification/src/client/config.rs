//! Client configuration.
//!
//! Durations are held as milliseconds.

use vstd::prelude::*;

use crate::text::{
    ascii_lower, chars_of, decimal, decimal_chars, join3, str_eq, string_of_chars,
    to_ascii_lowercase,
};

verus! {

/// MQTT protocol version to use for the connection.
#[derive(Debug, Clone, Copy, PartialEq, Eq, Structural)]
pub enum ProtocolVersion {
    /// MQTT v3.1.1 (protocol level 4).
    V4,
    /// MQTT v5.0 (protocol level 5).
    V5,
}

impl Default for ProtocolVersion {
    fn default() -> (v: ProtocolVersion)
        ensures
            v == ProtocolVersion::V4,
    {
        ProtocolVersion::V4
    }
}

/// The names accepted for MQTT v3.1.1, in lower case.
pub open spec fn names_v4(s: Seq<char>) -> bool {
    s == "v4"@ || s == "3.1.1"@ || s == "311"@ || s == "mqtt311"@ || s == "mqtt3"@
}

/// The names accepted for MQTT v5.0, in lower case.
pub open spec fn names_v5(s: Seq<char>) -> bool {
    s == "v5"@ || s == "5.0"@ || s == "mqtt5"@ || s == "mqttv5"@
}

/// No name is accepted for both versions.
proof fn lemma_version_names_disjoint(x: Seq<char>)
    ensures
        !(names_v4(x) && names_v5(x)),
{
    reveal_strlit("v4");
    reveal_strlit("3.1.1");
    reveal_strlit("311");
    reveal_strlit("mqtt311");
    reveal_strlit("mqtt3");
    reveal_strlit("v5");
    reveal_strlit("5.0");
    reveal_strlit("mqtt5");
    reveal_strlit("mqttv5");
    if names_v4(x) && names_v5(x) {
        assert(x.len() == "v4"@.len() || x.len() == "3.1.1"@.len() || x.len() == "311"@.len()
            || x.len() == "mqtt311"@.len() || x.len() == "mqtt3"@.len());
        if x == "v4"@ {
            assert(x[1] == '4');
        } else if x == "311"@ {
            assert(x[0] == '3');
        } else if x == "3.1.1"@ {
            assert(x[0] == '3');
        } else if x == "mqtt3"@ {
            assert(x[4] == '3');
        }
    }
}

/// A version name with its ASCII letters lower-cased.
pub open spec fn lower_name(s: Seq<char>) -> Seq<char> {
    s.map_values(|c: char| ascii_lower(c))
}

impl ProtocolVersion {
    /// Parses a protocol version name, ignoring ASCII case: "v4", "3.1.1",
    /// "311", "mqtt311" or "mqtt3" for v3.1.1; "v5", "5.0", "mqtt5" or
    /// "mqttv5" for v5.0. Any other name is refused with a message.
    pub fn parse(s: &str) -> (res: Result<ProtocolVersion, String>)
        ensures
            names_v4(lower_name(s@)) ==> res == Ok::<ProtocolVersion, String>(ProtocolVersion::V4),
            names_v5(lower_name(s@)) ==> res == Ok::<ProtocolVersion, String>(ProtocolVersion::V5),
            !names_v4(lower_name(s@)) && !names_v5(lower_name(s@)) ==> (res matches Err(m) && m@
                == unknown_version_text(lower_name(s@))),
    {
        let lower = to_ascii_lowercase(s);
        let l = lower.as_str();
        proof {
            reveal_strlit("v4");
            reveal_strlit("3.1.1");
            reveal_strlit("311");
            reveal_strlit("mqtt311");
            reveal_strlit("mqtt3");
            reveal_strlit("v5");
            reveal_strlit("5.0");
            reveal_strlit("mqtt5");
            reveal_strlit("mqttv5");
            lemma_version_names_disjoint(lower_name(s@));
        }
        if str_eq(l, "v4") || str_eq(l, "3.1.1") || str_eq(l, "311") || str_eq(l, "mqtt311")
            || str_eq(l, "mqtt3") {
            Ok(ProtocolVersion::V4)
        } else if str_eq(l, "v5") || str_eq(l, "5.0") || str_eq(l, "mqtt5") || str_eq(l, "mqttv5") {
            Ok(ProtocolVersion::V5)
        } else {
            Err(unknown_version_message(l))
        }
    }

    /// Wire protocol level sent in CONNECT.
    pub fn protocol_level(self) -> (l: u8)
        ensures
            l == match self {
                ProtocolVersion::V4 => 4u8,
                ProtocolVersion::V5 => 5u8,
            },
    {
        match self {
            ProtocolVersion::V4 => 4,
            ProtocolVersion::V5 => 5,
        }
    }

    /// Human-readable label for logs and help texts.
    pub fn label(self) -> (s: &'static str)
        ensures
            s@ == match self {
                ProtocolVersion::V4 => "MQTT v3.1.1"@,
                ProtocolVersion::V5 => "MQTT v5.0"@,
            },
    {
        match self {
            ProtocolVersion::V4 => "MQTT v3.1.1",
            ProtocolVersion::V5 => "MQTT v5.0",
        }
    }
}

impl std::str::FromStr for ProtocolVersion {
    type Err = String;

    fn from_str(s: &str) -> (res: Result<ProtocolVersion, String>)
        ensures
            names_v4(lower_name(s@)) ==> res == Ok::<ProtocolVersion, String>(ProtocolVersion::V4),
            names_v5(lower_name(s@)) ==> res == Ok::<ProtocolVersion, String>(ProtocolVersion::V5),
            !names_v4(lower_name(s@)) && !names_v5(lower_name(s@)) ==> (res matches Err(m) && m@
                == unknown_version_text(lower_name(s@))),
    {
        ProtocolVersion::parse(s)
    }
}

/// The message for an unknown protocol version name.
pub open spec fn unknown_version_text(name: Seq<char>) -> Seq<char> {
    "unknown protocol version '"@ + name + "' (use v4/3.1.1 or v5/5.0)"@
}

/// The message for an unknown protocol version name.
fn unknown_version_message(name: &str) -> (m: String)
    ensures
        m@ == unknown_version_text(name@),
{
    join3("unknown protocol version '", name, "' (use v4/3.1.1 or v5/5.0)")
}

/// Authentication credentials.
#[derive(Debug, Clone)]
pub struct Credentials {
    pub username: String,
    pub password: Option<Vec<u8>>,
}

/// Last Will and Testament configuration.
#[derive(Debug, Clone)]
pub struct LastWill {
    pub topic: String,
    pub message: Vec<u8>,
    pub qos: u8,
    pub retain: bool,
}

/// TLS options for the broker connection.
#[derive(Debug, Clone, Copy, PartialEq, Eq, Structural)]
pub struct TlsOptions {
    /// Enable TLS (typically broker port 8883).
    pub enabled: bool,
    /// Skip certificate verification (tests and labs only).
    pub insecure_skip_verify: bool,
}

impl Default for TlsOptions {
    fn default() -> (t: TlsOptions)
        ensures
            !t.enabled && !t.insecure_skip_verify,
    {
        TlsOptions { enabled: false, insecure_skip_verify: false }
    }
}

/// Automatic reconnect behaviour after an unexpected disconnect.
#[derive(Debug, Clone, Copy, PartialEq, Eq, Structural)]
pub struct ReconnectOptions {
    /// When `true`, the event loop reconnects after connection loss.
    pub enabled: bool,
    /// Delay before the first reconnect attempt, in milliseconds.
    pub initial_delay_ms: u64,
    /// Upper bound for exponential backoff, in milliseconds.
    pub max_delay_ms: u64,
    /// Maximum reconnect attempts; `None` means unlimited.
    pub max_attempts: Option<u32>,
}

impl Default for ReconnectOptions {
    fn default() -> (r: ReconnectOptions)
        ensures
            r == (ReconnectOptions {
                enabled: true,
                initial_delay_ms: 1000,
                max_delay_ms: 60000,
                max_attempts: None,
            }),
    {
        ReconnectOptions {
            enabled: true,
            initial_delay_ms: 1000,
            max_delay_ms: 60000,
            max_attempts: None,
        }
    }
}

/// Configuration for the MQTT client.
#[derive(Debug, Clone)]
pub struct ClientConfig {
    /// Broker address in the form `host:port`.
    pub broker_addr: String,
    /// Client identifier; when empty, one is made from the process id.
    pub client_id: String,
    /// Protocol version to use.
    pub protocol_version: ProtocolVersion,
    /// Keep-alive interval in seconds.
    pub keep_alive: u16,
    /// Clean session (v3.1.1) / clean start (v5.0).
    pub clean_session: bool,
    /// Optional credentials.
    pub credentials: Option<Credentials>,
    /// Optional Last Will and Testament.
    pub last_will: Option<LastWill>,
    /// Connection timeout, in milliseconds.
    pub connect_timeout_ms: u64,
    /// Maximum number of in-flight QoS 1/2 publishes.
    pub max_inflight: u16,
    /// Retransmit unacknowledged QoS 1/2 packets after this long, in milliseconds.
    pub ack_timeout_ms: u64,
    /// TLS settings.
    pub tls: TlsOptions,
    /// Reconnect settings.
    pub reconnect: ReconnectOptions,
}

/// The defaults of a configuration, apart from the broker address and client id.
pub open spec fn has_default_settings(c: ClientConfig) -> bool {
    &&& c.protocol_version == ProtocolVersion::V4
    &&& c.keep_alive == 60
    &&& c.clean_session
    &&& c.credentials is None
    &&& c.last_will is None
    &&& c.connect_timeout_ms == 5000
    &&& c.max_inflight == 16
    &&& c.ack_timeout_ms == 30000
    &&& !c.tls.enabled && !c.tls.insecure_skip_verify
    &&& c.reconnect == (ReconnectOptions {
        enabled: true,
        initial_delay_ms: 1000,
        max_delay_ms: 60000,
        max_attempts: None,
    })
}

impl Default for ClientConfig {
    fn default() -> (c: ClientConfig)
        ensures
            c.broker_addr@ == "127.0.0.1:1883"@,
            c.client_id@ == Seq::<char>::empty(),
            has_default_settings(c),
    {
        ClientConfig {
            broker_addr: "127.0.0.1:1883".to_owned(),
            client_id: String::new(),
            protocol_version: ProtocolVersion::V4,
            keep_alive: 60,
            clean_session: true,
            credentials: None,
            last_will: None,
            connect_timeout_ms: 5000,
            max_inflight: 16,
            ack_timeout_ms: 30000,
            tls: TlsOptions::default(),
            reconnect: ReconnectOptions::default(),
        }
    }
}

impl ClientConfig {
    /// Creates a configuration with the given broker address and client id
    /// and every other setting at its default.
    pub fn new(broker_addr: &str, client_id: &str) -> (c: ClientConfig)
        ensures
            c.broker_addr@ == broker_addr@,
            c.client_id@ == client_id@,
            has_default_settings(c),
    {
        let mut c = ClientConfig::default();
        c.broker_addr = broker_addr.to_owned();
        c.client_id = client_id.to_owned();
        c
    }

    /// Sets the protocol version.
    pub fn protocol_version(self, version: ProtocolVersion) -> (c: ClientConfig)
        ensures
            c == (ClientConfig { protocol_version: version, ..self }),
    {
        ClientConfig { protocol_version: version, ..self }
    }

    /// Sets the keep-alive interval in seconds.
    pub fn keep_alive(self, seconds: u16) -> (c: ClientConfig)
        ensures
            c == (ClientConfig { keep_alive: seconds, ..self }),
    {
        ClientConfig { keep_alive: seconds, ..self }
    }

    /// Sets the clean session / clean start flag.
    pub fn clean_session(self, clean: bool) -> (c: ClientConfig)
        ensures
            c == (ClientConfig { clean_session: clean, ..self }),
    {
        ClientConfig { clean_session: clean, ..self }
    }

    /// Sets the authentication credentials.
    pub fn credentials(self, username: &str, password: Option<Vec<u8>>) -> (c: ClientConfig)
        ensures
            c.credentials matches Some(cr) && cr.username@ == username@ && cr.password == password,
            c == (ClientConfig { credentials: c.credentials, ..self }),
    {
        ClientConfig {
            credentials: Some(Credentials { username: username.to_owned(), password }),
            ..self
        }
    }

    /// Sets the Last Will and Testament.
    pub fn last_will(self, will: LastWill) -> (c: ClientConfig)
        ensures
            c == (ClientConfig { last_will: Some(will), ..self }),
    {
        ClientConfig { last_will: Some(will), ..self }
    }

    /// Sets the connection timeout, in milliseconds.
    pub fn connect_timeout(self, timeout_ms: u64) -> (c: ClientConfig)
        ensures
            c == (ClientConfig { connect_timeout_ms: timeout_ms, ..self }),
    {
        ClientConfig { connect_timeout_ms: timeout_ms, ..self }
    }

    /// Sets the maximum in-flight QoS 1/2 publishes; at least one.
    pub fn max_inflight(self, max: u16) -> (c: ClientConfig)
        ensures
            c == (ClientConfig {
                max_inflight: if max == 0 {
                    1
                } else {
                    max
                },
                ..self
            }),
    {
        ClientConfig {
            max_inflight: if max == 0 {
                1
            } else {
                max
            },
            ..self
        }
    }

    /// Sets the acknowledgement retransmit timeout, in milliseconds.
    pub fn ack_timeout(self, timeout_ms: u64) -> (c: ClientConfig)
        ensures
            c == (ClientConfig { ack_timeout_ms: timeout_ms, ..self }),
    {
        ClientConfig { ack_timeout_ms: timeout_ms, ..self }
    }

    /// Sets the TLS options.
    pub fn tls(self, tls: TlsOptions) -> (c: ClientConfig)
        ensures
            c == (ClientConfig { tls, ..self }),
    {
        ClientConfig { tls, ..self }
    }

    /// Sets the reconnect options.
    pub fn reconnect(self, reconnect: ReconnectOptions) -> (c: ClientConfig)
        ensures
            c == (ClientConfig { reconnect, ..self }),
    {
        ClientConfig { reconnect, ..self }
    }
}

/// Two to the power `n`.
pub open spec fn pow2(n: nat) -> nat
    decreases n,
{
    if n == 0 {
        1
    } else {
        2 * pow2((n - 1) as nat)
    }
}

/// The reconnect delay before attempt `attempt`: the initial delay doubled
/// for each attempt after the first, at most 16 times, saturating at the
/// largest `u64`, and capped at the maximum delay.
pub open spec fn backoff_spec(initial: u64, max: u64, attempt: u32) -> u64 {
    let shift: nat = if attempt <= 1 {
        0
    } else if attempt - 1 > 16 {
        16
    } else {
        (attempt - 1) as nat
    };
    let scaled: int = initial * pow2(shift);
    let sat: u64 = if scaled > u64::MAX {
        u64::MAX
    } else {
        scaled as u64
    };
    if sat > max {
        max
    } else {
        sat
    }
}

/// The reconnect delay, in milliseconds, before reconnect attempt `attempt`.
pub fn backoff_delay(reconnect: &ReconnectOptions, attempt: u32) -> (d: u64)
    ensures
        d == backoff_spec(reconnect.initial_delay_ms, reconnect.max_delay_ms, attempt),
{
    let initial = reconnect.initial_delay_ms;
    let max = reconnect.max_delay_ms;
    let raw = attempt.saturating_sub(1);
    let shift: u32 = if raw > 16 {
        16
    } else {
        raw
    };
    let factor: u64 = 1u64 << shift;
    proof {
        lemma_pow2_shift(shift);
    }
    let scaled: u64 = match initial.checked_mul(factor) {
        Some(x) => x,
        None => u64::MAX,
    };
    if scaled > max {
        max
    } else {
        scaled
    }
}

/// A left shift of one is a power of two.
proof fn lemma_pow2_shift(shift: u32)
    requires
        shift <= 16,
    ensures
        (1u64 << shift) == pow2(shift as nat),
{
    reveal_with_fuel(pow2, 17);
    assert(1u64 << 0u32 == 1 && 1u64 << 1u32 == 2 && 1u64 << 2u32 == 4 && 1u64 << 3u32 == 8
        && 1u64 << 4u32 == 16 && 1u64 << 5u32 == 32 && 1u64 << 6u32 == 64 && 1u64 << 7u32 == 128
        && 1u64 << 8u32 == 256 && 1u64 << 9u32 == 512 && 1u64 << 10u32 == 1024 && 1u64 << 11u32
        == 2048 && 1u64 << 12u32 == 4096 && 1u64 << 13u32 == 8192 && 1u64 << 14u32 == 16384
        && 1u64 << 15u32 == 32768 && 1u64 << 16u32 == 65536) by (bit_vector);
}

/// Powers of two grow with the exponent.
proof fn lemma_pow2_monotone(a: nat, b: nat)
    requires
        a <= b,
    ensures
        pow2(a) <= pow2(b),
        pow2(a) >= 1,
    decreases b,
{
    if b > 0 && a < b {
        lemma_pow2_monotone(a, (b - 1) as nat);
    }
    if a > 0 {
        lemma_pow2_monotone((a - 1) as nat, (a - 1) as nat);
    }
}

/// The reconnect delay never exceeds the maximum delay and never shrinks
/// from one attempt to the next.
pub proof fn lemma_backoff_bounded_and_monotone(initial: u64, max: u64, attempt: u32)
    requires
        attempt < u32::MAX,
    ensures
        backoff_spec(initial, max, attempt) <= max,
        backoff_spec(initial, max, attempt) <= backoff_spec(initial, max, (attempt + 1) as u32),
{
    let s1: nat = if attempt <= 1 {
        0
    } else if attempt - 1 > 16 {
        16
    } else {
        (attempt - 1) as nat
    };
    let s2: nat = if attempt + 1 <= 1 {
        0
    } else if attempt > 16 {
        16
    } else {
        attempt as nat
    };
    lemma_pow2_monotone(s1, s2);
    assert(initial * pow2(s1) <= initial * pow2(s2)) by (nonlinear_arith)
        requires
            pow2(s1) <= pow2(s2),
    ;
}

/// What the event loop does after a failed connection attempt or a lost
/// connection.
#[derive(Debug, Clone, Copy, PartialEq, Eq, Structural)]
pub enum ReconnectStep {
    /// Reconnecting is switched off: stop.
    Disabled,
    /// The configured number of reconnect attempts is used up: give up.
    Exhausted,
    /// Wait `delay_ms` milliseconds, then make reconnect attempt `attempt`.
    Retry { attempt: u32, delay_ms: u64 },
}

/// The attempt counter after one more attempt, saturating at the largest `u32`.
pub open spec fn next_attempt(attempt: u32) -> u32 {
    if attempt == u32::MAX {
        attempt
    } else {
        (attempt + 1) as u32
    }
}

/// The step after `attempt` reconnect attempts have been made since the last
/// successful connection.
pub open spec fn reconnect_spec(r: ReconnectOptions, attempt: u32) -> ReconnectStep {
    let next = next_attempt(attempt);
    if !r.enabled {
        ReconnectStep::Disabled
    } else if r.max_attempts matches Some(m) && next > m {
        ReconnectStep::Exhausted
    } else {
        ReconnectStep::Retry {
            attempt: next,
            delay_ms: backoff_spec(r.initial_delay_ms, r.max_delay_ms, next),
        }
    }
}

/// Decides whether and when to reconnect, given the number of reconnect
/// attempts made since the last successful connection.
pub fn next_reconnect(reconnect: &ReconnectOptions, attempt: u32) -> (step: ReconnectStep)
    ensures
        step == reconnect_spec(*reconnect, attempt),
{
    if !reconnect.enabled {
        return ReconnectStep::Disabled;
    }
    let next = attempt.saturating_add(1);
    match reconnect.max_attempts {
        Some(m) => {
            if next > m {
                return ReconnectStep::Exhausted;
            }
        },
        None => {},
    }
    ReconnectStep::Retry { attempt: next, delay_ms: backoff_delay(reconnect, next) }
}

/// A retry counts one more attempt, is never numbered past the configured
/// maximum, and never waits longer than the maximum delay.
pub proof fn lemma_retry_within_limits(r: ReconnectOptions, attempt: u32)
    ensures
        reconnect_spec(r, attempt) matches ReconnectStep::Retry { attempt: a, delay_ms: d } ==> {
            &&& a == next_attempt(attempt)
            &&& d <= r.max_delay_ms
            &&& (r.max_attempts matches Some(m) ==> a <= m)
        },
        !r.enabled <==> reconnect_spec(r, attempt) == ReconnectStep::Disabled,
{
}

/// The client identifier to connect with: the configured one, or
/// "mqtt-" followed by the process id when none is configured.
pub fn effective_client_id(configured: &str, process_id: u32) -> (id: String)
    ensures
        configured@.len() > 0 ==> id@ == configured@,
        configured@.len() == 0 ==> id@ == "mqtt-"@ + decimal(process_id as nat),
{
    let cs = chars_of(configured);
    if cs.len() > 0 {
        return configured.to_owned();
    }
    let mut v = chars_of("mqtt-");
    let digits = decimal_chars(process_id as u64);
    let mut i: usize = 0;
    let ghost prefix = v@;
    while i < digits.len()
        invariant
            i <= digits@.len(),
            v@ == prefix + digits@.take(i as int),
        decreases digits@.len() - i,
    {
        v.push(digits[i]);
        i += 1;
        assert(v@ =~= prefix + digits@.take(i as int));
    }
    assert(digits@.take(i as int) =~= digits@);
    string_of_chars(&v)
}

/// How often to send PINGREQ, in milliseconds: never when the keep-alive
/// is 0, else every keep-alive interval.
pub fn ping_interval_ms(keep_alive: u16) -> (every: Option<u64>)
    ensures
        keep_alive == 0 ==> every is None,
        keep_alive != 0 ==> every == Some((keep_alive * 1000) as u64),
{
    if keep_alive == 0 {
        None
    } else {
        Some((keep_alive as u64) * 1000)
    }
}

/// The next ping deadline after activity at `now`: none when pings are off.
pub fn next_ping_deadline(now: u64, every: Option<u64>) -> (deadline: Option<u64>)
    ensures
        match every {
            None => deadline is None,
            Some(e) => deadline == Some(if now + e > u64::MAX {
                u64::MAX
            } else {
                (now + e) as u64
            }),
        },
{
    match every {
        None => None,
        Some(e) => Some(now.saturating_add(e)),
    }
}

} // verus!
