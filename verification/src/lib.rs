//! MQTT control packet codec with verified decoding, encoding and protocol
//! validation.
//!
//! The library covers MQTT v3.1.1 (protocol level 4) and MQTT v5.0
//! (protocol level 5): packet types and builders, byte-level encoding and
//! decoding of v3.1.1 frames, validation rules for both protocol levels, the
//! broker-side detection of a connection's protocol version, and the
//! client-side decisions (inflight window, session state, reconnect policy,
//! configuration) that an MQTT client takes between network events.
//!
//! Every function in this crate carries a contract that Verus checks.
//! The specifications speak over mathematical models: byte sequences
//! (`Seq<u8>`), character sequences (`Seq<char>`), and the view of each
//! packet type.

pub mod broker;
pub mod bytes_buf;
pub mod client;
pub mod error;
pub mod text;
pub mod v4;
pub mod v5;

pub use error::{ClientIdErrorReason, ErrorKind, MqttError, TopicErrorReason, TopicFilterErrorReason};

use bytes::BytesMut;
use vstd::prelude::*;

use crate::bytes_buf::bytes_mut_view;

verus! {

/// The largest MQTT frame: a first byte, four Remaining Length bytes and
/// the largest body those bytes can announce.
pub const MAX_FRAME_SIZE: usize = 268435460;

/// Decoding of items from the front of a byte buffer.
pub trait Decoder {
    /// The type of items returned by decoding.
    type Item;
    /// The type of unrecoverable frame errors.
    type Error;

    /// Attempts to decode one item from the front of `src`: `Ok(Some(item))`
    /// when a complete frame was consumed, `Ok(None)` when more bytes are
    /// needed, `Err` when the data violates the protocol.
    fn decode(&mut self, src: &mut BytesMut) -> Result<Option<Self::Item>, Self::Error>;
}

/// Encoding of items into a byte buffer.
pub trait Encoder<T> {
    /// The type of unrecoverable frame errors.
    type Error;

    /// Appends the encoding of `item` to `dst`; the buffer must have room
    /// for one more frame.
    fn encode(&mut self, item: T, dst: &mut BytesMut) -> Result<(), Self::Error>
        requires
            bytes_mut_view(*old(dst)).len() <= usize::MAX - MAX_FRAME_SIZE,
    ;
}

} // verus!
