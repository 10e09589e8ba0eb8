//! Parsing of inbound DDP packets.
//!
//! [`Packet::from_bytes`] is the stateless receive-side decoder: it never
//! fails catastrophically on truncated or malformed input, and always retains
//! the raw payload bytes whatever the message decode chain makes of them.

use vstd::prelude::*;
use vstd::slice::slice_to_vec;
use crate::protocol::Header;
use crate::protocol::message::{spec_parse_post, Message};

verus! {

/// A parsed DDP packet, as received from a display.
#[derive(Debug)]
pub struct Packet {
    /// The parsed packet header with metadata
    pub header: Header,

    /// Raw payload bytes, always retained
    pub data: Vec<u8>,

    /// Parsed JSON message, when this packet is a reply that carries one
    pub parsed: Option<Message>,
}

/// The header size announced by the first byte: 14 when its timecode bit
/// (weight 16) is set, 10 otherwise.
pub open spec fn spec_header_size_of(b0: u8) -> int {
    if (b0 / 16) % 2 == 1 {
        14
    } else {
        10
    }
}

impl Packet {
    /// Creates a packet from a header and payload bytes, without parsing.
    pub fn from_data(h: Header, d: &[u8]) -> (r: Packet)
        ensures
            r.header == h,
            r.data@ == d@,
            r.parsed is None,
    {
        Packet { header: h, data: slice_to_vec(d), parsed: None }
    }

    /// Parses a DDP packet from raw bytes.
    ///
    /// Input too short for its own header (under 10 bytes, or under 14 with
    /// the timecode bit set) yields a default packet with empty data rather
    /// than failing.  Otherwise the header is decoded, the rest of the bytes
    /// are kept as the payload, and - when the reply flag is set - the
    /// payload goes through the message decode fallback chain.
    pub fn from_bytes(bytes: &[u8]) -> (r: Packet)
        ensures
            bytes@.len() < 10 || bytes@.len() < spec_header_size_of(bytes@[0]) ==> {
                &&& r.header == Header::spec_default()
                &&& r.data@ == Seq::<u8>::empty()
                &&& r.parsed is None
            },
            bytes@.len() >= 10 && bytes@.len() >= spec_header_size_of(bytes@[0]) ==> {
                let size = spec_header_size_of(bytes@[0]);
                let header = Header::spec_decode(bytes@.take(size));
                let payload = bytes@.skip(size);
                &&& r.header == header
                &&& r.data@ == payload
                &&& header.packet_type.reply ==> spec_parse_post(r.parsed, header.id, payload)
                &&& !header.packet_type.reply ==> r.parsed is None
            },
    {
        if bytes.len() < 10 {
            return Packet { header: Header::default(), data: Vec::new(), parsed: None };
        }
        let has_timecode = (bytes[0] / 16) % 2 == 1;
        let header_size: usize = if has_timecode {
            14
        } else {
            10
        };
        if bytes.len() < header_size {
            return Packet { header: Header::default(), data: Vec::new(), parsed: None };
        }
        let header = Header::decode(&bytes[0..header_size]);
        let data = &bytes[header_size..bytes.len()];
        let parsed = if header.packet_type.reply {
            Message::parse(header.id, data)
        } else {
            None
        };
        proof {
            assert(bytes@.subrange(0, header_size as int) =~= bytes@.take(
                spec_header_size_of(bytes@[0]),
            ));
            assert(bytes@.subrange(header_size as int, bytes@.len() as int) =~= bytes@.skip(
                spec_header_size_of(bytes@[0]),
            ));
        }
        Packet { header, data: slice_to_vec(data), parsed }
    }
}

} // verus!
