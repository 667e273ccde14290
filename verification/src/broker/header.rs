//! The first bytes of a frame as the broker reads them: the packet type in
//! the high nibble of the first byte.

use vstd::prelude::*;

use bytes::BytesMut;

use crate::bytes_buf::{bytes_mut_as_slice, bytes_mut_split_to, bytes_mut_view};

use super::{packet_type_number, DecodeError, PacketType};

verus! {

/// The fixed header of a frame, as far as the broker reads it.
#[derive(Debug, Clone, Copy, PartialEq, Eq, Structural)]
pub struct Header {
    pub packet_type: PacketType,
}

/// The packet type number carried by a first byte: its high nibble.
pub open spec fn type_nibble(first: u8) -> u8 {
    first >> 4u8
}

impl Header {
    /// The header told by the first byte `hd` of a frame: its packet type is
    /// the high nibble.
    pub fn new(hd: u8) -> (res: Result<Header, DecodeError>)
        ensures
            res matches Ok(h) && packet_type_number(h.packet_type) == type_nibble(hd),
    {
        let nibble: u8 = hd >> 4;
        assert(nibble <= 15) by (bit_vector)
            requires
                nibble == hd >> 4u8,
        ;
        Ok(Header { packet_type: PacketType::from(nibble) })
    }

    /// Reads nothing yet: the buffer and the offset stay as they are.
    pub fn read_header(buf: &mut BytesMut, offset: &mut usize)
        ensures
            bytes_mut_view(*final(buf)) == bytes_mut_view(*old(buf)),
            *final(offset) == *old(offset),
    {
    }

    /// Reads the first byte and the first Remaining Length byte of a frame
    /// from the front of the buffer, which must hold at least two bytes, and
    /// returns the header with the size 1.
    pub fn from(buffer: &mut BytesMut) -> (res: Result<(Header, usize), DecodeError>)
        requires
            bytes_mut_view(*old(buffer)).len() >= 2,
        ensures
            res matches Ok((h, n)) && n == 1 && packet_type_number(h.packet_type) == type_nibble(
                bytes_mut_view(*old(buffer))[0],
            ),
            bytes_mut_view(*final(buffer)) == bytes_mut_view(*old(buffer)).skip(2),
    {
        let first_byte = bytes_mut_as_slice(buffer)[0];
        let header = match Header::new(first_byte) {
            Ok(h) => h,
            Err(e) => {
                return Err(e);
            },
        };
        let _front = bytes_mut_split_to(buffer, 2);
        Ok((header, 1))
    }
}

/// The fixed header of an MQTT 5.0 frame; it carries no fields yet.
#[derive(Debug, Clone, Copy, PartialEq, Eq, Structural)]
pub struct FixedHeader {}

impl FixedHeader {
    /// An empty fixed header.
    pub fn new() -> (h: FixedHeader)
        ensures
            h == (FixedHeader {}),
    {
        FixedHeader {}
    }
}

} // verus!
