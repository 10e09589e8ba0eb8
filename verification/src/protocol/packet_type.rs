//! Codec for the packet-type byte: byte 0 of every DDP header.
//!
//! Bit layout (weights in the byte):
//! - bits 7-6 (weight 64): protocol version
//! - bit 4 (weight 16): timecode present (header grows to 14 bytes)
//! - bit 3 (weight 8): storage (persist settings)
//! - bit 2 (weight 4): reply (this packet is a response)
//! - bit 1 (weight 2): query (request information)
//! - bit 0 (weight 1): push (final datagram of one logical update)

use vstd::prelude::*;

verus! {

/// Packet type flags controlling how a packet is interpreted.
///
/// Decoding a byte never fails: every byte maps to some flag combination.
#[derive(Debug, PartialEq, Eq, Hash, Clone, Copy, Structural)]
pub struct PacketType {
    /// Protocol version (two bits on the wire; decode yields 0-3)
    pub version: u8,

    /// Timecode is present (extends the header to 14 bytes)
    pub timecode: bool,

    /// Storage flag (persist settings)
    pub storage: bool,

    /// Reply flag (this is a response packet)
    pub reply: bool,

    /// Query flag (request information)
    pub query: bool,

    /// Push flag (final packet of a sequence)
    pub push: bool,
}

/// The byte contribution of one flag.
pub open spec fn spec_flag(b: bool, weight: u8) -> u8 {
    if b {
        weight
    } else {
        0
    }
}

/// Whether the bit of the given weight is set in `byte`.
pub open spec fn spec_bit_set(byte: u8, weight: u8) -> bool {
    (byte / weight) % 2 == 1
}

impl PacketType {
    /// The encoded packet-type byte.  A version outside 1-3 contributes
    /// nothing: versions 0 and 4 share the all-zero bit pattern, and decode
    /// reads it back as 0.
    pub open spec fn spec_encode(self) -> u8 {
        (spec_version_bits(self.version) + spec_flag(self.timecode, 16) + spec_flag(
            self.storage,
            8,
        ) + spec_flag(self.reply, 4) + spec_flag(self.query, 2) + spec_flag(self.push, 1)) as u8
    }

    /// The flags decoded from a byte.  Total: every byte decodes.
    pub open spec fn spec_decode(byte: u8) -> PacketType {
        PacketType {
            version: (byte / 64) as u8,
            timecode: spec_bit_set(byte, 16),
            storage: spec_bit_set(byte, 8),
            reply: spec_bit_set(byte, 4),
            query: spec_bit_set(byte, 2),
            push: spec_bit_set(byte, 1),
        }
    }

    /// The value produced by `PacketType::default`.
    pub open spec fn spec_default() -> PacketType {
        PacketType {
            version: 1,
            timecode: false,
            storage: false,
            reply: false,
            query: false,
            push: false,
        }
    }

    /// Sets the push flag, marking (or unmarking) this packet as the final
    /// one of a sequence.
    pub fn push(&mut self, push: bool)
        ensures
            *final(self) == (PacketType { push, ..*old(self) }),
    {
        self.push = push;
    }

    /// Encodes the flags into the packet-type byte.
    pub fn to_byte(&self) -> (r: u8)
        ensures
            r == self.spec_encode(),
    {
        let version_bits: u8 = if 1 <= self.version && self.version <= 3 {
            self.version * 64
        } else {
            // Version 4 occupies the same two bits as version 0: both encode
            // as the all-zero pattern, as do out-of-range values.
            0
        };
        let mut byte: u8 = version_bits;
        if self.timecode {
            byte = byte + 16;
        }
        if self.storage {
            byte = byte + 8;
        }
        if self.reply {
            byte = byte + 4;
        }
        if self.query {
            byte = byte + 2;
        }
        if self.push {
            byte = byte + 1;
        }
        byte
    }

    /// Decodes a packet-type byte.  Never fails: each flag is read from its
    /// own bit, and the version from the top two bits.
    pub fn from_byte(byte: u8) -> (r: PacketType)
        ensures
            r == PacketType::spec_decode(byte),
    {
        PacketType {
            version: byte / 64,
            timecode: (byte / 16) % 2 == 1,
            storage: (byte / 8) % 2 == 1,
            reply: (byte / 4) % 2 == 1,
            query: (byte / 2) % 2 == 1,
            push: byte % 2 == 1,
        }
    }

    /// Round trip: flags whose version fits the two wire bits decode from
    /// their own encoding unchanged.
    pub proof fn lemma_round_trip(self)
        requires
            self.version <= 3,
        ensures
            PacketType::spec_decode(self.spec_encode()) == self,
    {
    }
}

/// The two version bits, already shifted into place (weight 64).
pub open spec fn spec_version_bits(version: u8) -> u8 {
    if 1 <= version && version <= 3 {
        (version * 64) as u8
    } else {
        0
    }
}

impl Default for PacketType {
    /// Version 1 with every flag clear.
    fn default() -> (r: Self)
        ensures
            r == PacketType::spec_default(),
    {
        PacketType {
            version: 1,
            timecode: false,
            storage: false,
            reply: false,
            query: false,
            push: false,
        }
    }
}

} // verus!
