//! DDP protocol types: the fixed-layout header and the codecs for each of its
//! fields.
//!
//! A header is 10 bytes, or 14 bytes when the timecode flag is set.  All
//! multi-byte integers are big-endian.
//!
//! Byte layout:
//! - byte 0: packet type flags (version, timecode, storage, reply, query, push)
//! - byte 1: sequence number (1-15, wraps around)
//! - byte 2: pixel format configuration
//! - byte 3: protocol ID
//! - bytes 4-7: data offset (u32, big-endian)
//! - bytes 8-9: data length (u16, big-endian)
//! - bytes 10-13: timecode (u32, big-endian), present only when the timecode
//!   flag is set

pub mod id;
pub mod message;
pub mod packet_type;
pub mod pixel_config;
pub mod timecode;

pub use id::ID;
pub use packet_type::PacketType;
pub use pixel_config::{DataType, PixelConfig, PixelFormat};
pub use message::{Color, Config, ConfigRoot, Control, ControlRoot, Port, Status, StatusRoot};

use vstd::prelude::*;
use crate::protocol::timecode::TimeCode;

verus! {

/// DDP packet header containing metadata and control flags.
///
/// The header is 10 bytes (or 14 with timecode) and holds all the information
/// needed to interpret the packet payload.
#[derive(Debug, PartialEq, Eq, Hash, Clone, Copy)]
pub struct Header {
    /// Packet type flags (version, timecode, storage, reply, query, push)
    pub packet_type: PacketType,

    /// Sequence number (1-15, wraps around to 1)
    pub sequence_number: u8,

    /// Pixel format configuration (RGB, RGBW, ...)
    pub pixel_config: PixelConfig,

    /// Protocol message ID
    pub id: ID,

    /// Byte offset into the display buffer
    pub offset: u32,

    /// Length of the payload carried by this datagram, in bytes
    pub length: u16,

    /// Optional timecode for synchronization (when the timecode flag is set)
    pub time_code: TimeCode,
}

impl Header {
    /// The encoded size of this header: 14 bytes with a timecode, 10 without.
    pub open spec fn spec_size(self) -> int {
        if self.packet_type.timecode {
            14
        } else {
            10
        }
    }

    /// The encoded header: field codecs composed in wire order.
    pub open spec fn spec_encode(self) -> Seq<u8> {
        seq![
            self.packet_type.spec_encode(),
            self.sequence_number,
            self.pixel_config.spec_encode(),
            self.id.spec_encode(),
        ] + u32_be_bytes(self.offset) + u16_be_bytes(self.length) + if self.packet_type.timecode {
            u32_be_bytes(self.time_code.spec_value())
        } else {
            Seq::<u8>::empty()
        }
    }

    /// The header decoded from `bytes`, which must hold at least the 10
    /// mandatory bytes.  The timecode is read only when the timecode flag is
    /// set and 14 bytes are available.
    pub open spec fn spec_decode(bytes: Seq<u8>) -> Header {
        let packet_type = PacketType::spec_decode(bytes[0]);
        Header {
            packet_type,
            sequence_number: bytes[1],
            pixel_config: PixelConfig::spec_decode(bytes[2]),
            id: ID::spec_decode(bytes[3]),
            offset: u32_from_be(bytes[4], bytes[5], bytes[6], bytes[7]),
            length: u16_from_be(bytes[8], bytes[9]),
            time_code: if packet_type.timecode && bytes.len() >= 14 {
                TimeCode(Some(u32_from_be(bytes[10], bytes[11], bytes[12], bytes[13])))
            } else {
                TimeCode(None)
            },
        }
    }

    /// A header that survives an encode / decode round trip: the version fits
    /// in its two bits, the ID has a byte of its own, and the timecode field
    /// agrees with the timecode flag.
    pub open spec fn spec_wf(self) -> bool {
        &&& self.packet_type.version <= 3
        &&& self.id.spec_wf()
        &&& self.packet_type.timecode <==> self.time_code.0 is Some
    }

    /// Encodes the header into its wire form: 10 bytes, or 14 when the
    /// timecode flag is set.
    pub fn encode(&self) -> (r: Vec<u8>)
        ensures
            r@ == self.spec_encode(),
            r@.len() == self.spec_size(),
    {
        let mut out: Vec<u8> = Vec::new();
        out.push(self.packet_type.to_byte());
        out.push(self.sequence_number);
        out.push(self.pixel_config.to_byte());
        out.push(self.id.to_byte());
        push_u32_be(&mut out, self.offset);
        push_u16_be(&mut out, self.length);
        if self.packet_type.timecode {
            push_u32_be(&mut out, self.time_code.value());
        }
        proof {
            assert(out@ =~= self.spec_encode());
        }
        out
    }

    /// Decodes a header from raw bytes.  The caller must supply the 10
    /// mandatory bytes; the timecode is read only when the timecode flag is
    /// set and the slice holds 14 bytes.
    pub fn decode(bytes: &[u8]) -> (r: Header)
        requires
            bytes@.len() >= 10,
        ensures
            r == Header::spec_decode(bytes@),
    {
        let packet_type = PacketType::from_byte(bytes[0]);
        let sequence_number = bytes[1];
        let pixel_config = PixelConfig::from_byte(bytes[2]);
        let id = ID::from_byte(bytes[3]);
        let offset = u32_from_be_exec(bytes[4], bytes[5], bytes[6], bytes[7]);
        let length = u16_from_be_exec(bytes[8], bytes[9]);
        let time_code = if packet_type.timecode && bytes.len() >= 14 {
            TimeCode(Some(u32_from_be_exec(bytes[10], bytes[11], bytes[12], bytes[13])))
        } else {
            TimeCode(None)
        };
        Header { packet_type, sequence_number, pixel_config, id, offset, length, time_code }
    }
}

impl Default for Header {
    /// The all-default header: default flags, sequence number 0, default pixel
    /// configuration, default ID, zero offset and length, no timecode.
    fn default() -> (r: Self)
        ensures
            r == Header::spec_default(),
    {
        Header {
            packet_type: PacketType::default(),
            sequence_number: 0,
            pixel_config: PixelConfig::default(),
            id: ID::Default,
            offset: 0,
            length: 0,
            time_code: TimeCode(None),
        }
    }
}

impl Header {
    /// The value produced by `Header::default`.
    pub open spec fn spec_default() -> Header {
        Header {
            packet_type: PacketType::spec_default(),
            sequence_number: 0,
            pixel_config: PixelConfig::spec_default(),
            id: ID::Default,
            offset: 0,
            length: 0,
            time_code: TimeCode(None),
        }
    }
}

/// The big-endian byte sequence of a u32.
pub open spec fn u32_be_bytes(x: u32) -> Seq<u8> {
    seq![
        (x / 0x1000000) as u8,
        ((x / 0x10000) % 0x100) as u8,
        ((x / 0x100) % 0x100) as u8,
        (x % 0x100) as u8,
    ]
}

/// The u32 read from four big-endian bytes.
pub open spec fn u32_from_be(b0: u8, b1: u8, b2: u8, b3: u8) -> u32 {
    (b0 * 0x1000000 + b1 * 0x10000 + b2 * 0x100 + b3) as u32
}

/// The big-endian byte sequence of a u16.
pub open spec fn u16_be_bytes(x: u16) -> Seq<u8> {
    seq![(x / 0x100) as u8, (x % 0x100) as u8]
}

/// The u16 read from two big-endian bytes.
pub open spec fn u16_from_be(b0: u8, b1: u8) -> u16 {
    (b0 * 0x100 + b1) as u16
}

/// Appends the four big-endian bytes of `x`.
pub fn push_u32_be(out: &mut Vec<u8>, x: u32)
    ensures
        final(out)@ == old(out)@ + u32_be_bytes(x),
{
    out.push((x / 0x1000000) as u8);
    out.push(((x / 0x10000) % 0x100) as u8);
    out.push(((x / 0x100) % 0x100) as u8);
    out.push((x % 0x100) as u8);
    proof {
        assert(out@ =~= old(out)@ + u32_be_bytes(x));
    }
}

/// Appends the two big-endian bytes of `x`.
pub fn push_u16_be(out: &mut Vec<u8>, x: u16)
    ensures
        final(out)@ == old(out)@ + u16_be_bytes(x),
{
    out.push((x / 0x100) as u8);
    out.push((x % 0x100) as u8);
    proof {
        assert(out@ =~= old(out)@ + u16_be_bytes(x));
    }
}

/// Reads a u32 from four big-endian bytes.
pub fn u32_from_be_exec(b0: u8, b1: u8, b2: u8, b3: u8) -> (r: u32)
    ensures
        r == u32_from_be(b0, b1, b2, b3),
{
    b0 as u32 * 0x1000000 + b1 as u32 * 0x10000 + b2 as u32 * 0x100 + b3 as u32
}

/// Reads a u16 from two big-endian bytes.
pub fn u16_from_be_exec(b0: u8, b1: u8) -> (r: u16)
    ensures
        r == u16_from_be(b0, b1),
{
    b0 as u16 * 0x100 + b1 as u16
}

/// Header round trip: every well-formed header decodes from its own encoding
/// unchanged, in both the 10-byte and the 14-byte (timecode) form.
pub proof fn lemma_header_round_trip(h: Header)
    requires
        h.spec_wf(),
    ensures
        Header::spec_decode(h.spec_encode()) == h,
{
    h.packet_type.lemma_round_trip();
    h.pixel_config.lemma_round_trip();
    h.id.lemma_round_trip();
    assert(Header::spec_decode(h.spec_encode()) == h);
}

} // verus!
