//! Codec for the protocol ID: byte 3 of every DDP header.
//!
//! The ID space is divided into several ranges:
//! - 0: reserved
//! - 1: default (standard pixel data)
//! - 2-245, 247-249, 252-253: custom IDs for application-specific use
//! - 246: control messages (JSON control read/write)
//! - 250: configuration messages (JSON config read/write)
//! - 251: status messages (JSON status read-only)
//! - 254: DMX data
//! - 255: broadcast to all displays

use vstd::prelude::*;

verus! {

/// Protocol ID identifying the purpose of a packet.
///
/// Decoding is a total surjection: every byte maps to exactly one ID.
/// Encoding is total in the opposite direction: a `Custom` value outside the
/// custom ranges clamps to the default ID instead of corrupting the byte of
/// another variant.
#[derive(Debug, PartialEq, Eq, Hash, Clone, Copy, Structural)]
pub enum ID {
    /// Reserved, should not be used
    Reserved,

    /// Default ID for standard pixel data
    Default,

    /// Custom ID in the ranges 2-245, 247-249 and 252-253
    Custom(u8),

    /// Control message ID (246) for JSON control read/write
    Control,

    /// Configuration message ID (250) for JSON config read/write
    Config,

    /// Status message ID (251) for JSON status read-only
    Status,

    /// DMX data ID (254)
    DMX,

    /// Broadcast to all displays (255)
    Broadcast,
}

/// Whether `value` lies in one of the custom ID ranges.
pub open spec fn spec_custom_in_range(value: u8) -> bool {
    ||| 2 <= value <= 245
    ||| 247 <= value <= 249
    ||| 252 <= value <= 253
}

impl ID {
    /// The encoded ID byte.  A `Custom` value outside the custom ranges
    /// clamps to 1, the default ID.
    pub open spec fn spec_encode(self) -> u8 {
        match self {
            ID::Reserved => 0,
            ID::Default => 1,
            ID::Control => 246,
            ID::Config => 250,
            ID::Status => 251,
            ID::DMX => 254,
            ID::Broadcast => 255,
            ID::Custom(value) => if spec_custom_in_range(value) {
                value
            } else {
                1
            },
        }
    }

    /// The ID decoded from a byte.  Total: every byte maps to some ID, and
    /// every byte without a named variant maps to `Custom` of itself.
    pub open spec fn spec_decode(byte: u8) -> ID {
        if byte == 0 {
            ID::Reserved
        } else if byte == 1 {
            ID::Default
        } else if byte == 246 {
            ID::Control
        } else if byte == 250 {
            ID::Config
        } else if byte == 251 {
            ID::Status
        } else if byte == 254 {
            ID::DMX
        } else if byte == 255 {
            ID::Broadcast
        } else {
            ID::Custom(byte)
        }
    }

    /// An ID that encoding does not clamp: any named variant, or a `Custom`
    /// value inside the custom ranges.
    pub open spec fn spec_wf(self) -> bool {
        match self {
            ID::Custom(value) => spec_custom_in_range(value),
            _ => true,
        }
    }

    /// Encodes the ID into its byte.
    pub fn to_byte(&self) -> (r: u8)
        ensures
            r == self.spec_encode(),
    {
        match *self {
            ID::Reserved => 0,
            ID::Default => 1,
            ID::Control => 246,
            ID::Config => 250,
            ID::Status => 251,
            ID::DMX => 254,
            ID::Broadcast => 255,
            ID::Custom(value) => {
                if (2 <= value && value <= 245) || (247 <= value && value <= 249) || (252 <= value
                    && value <= 253) {
                    value
                } else {
                    // Out-of-range custom values clamp to the default ID.
                    1
                }
            },
        }
    }

    /// Decodes an ID byte.  Never fails.
    pub fn from_byte(byte: u8) -> (r: ID)
        ensures
            r == ID::spec_decode(byte),
    {
        match byte {
            0 => ID::Reserved,
            1 => ID::Default,
            246 => ID::Control,
            250 => ID::Config,
            251 => ID::Status,
            254 => ID::DMX,
            255 => ID::Broadcast,
            _ => ID::Custom(byte),
        }
    }

    /// Round trip: every ID that encoding does not clamp decodes from its own
    /// encoding unchanged.
    pub proof fn lemma_round_trip(self)
        requires
            self.spec_wf(),
        ensures
            ID::spec_decode(self.spec_encode()) == self,
    {
    }
}

/// Decoding covers the whole byte space and inverts encoding: every byte
/// decodes to an ID that is well formed and encodes back to the same byte.
pub proof fn lemma_id_decode_total(byte: u8)
    ensures
        ID::spec_decode(byte).spec_wf(),
        ID::spec_decode(byte).spec_encode() == byte,
{
}

impl Default for ID {
    /// The default ID, byte 1: standard pixel data.
    fn default() -> (r: Self)
        ensures
            r == ID::Default,
    {
        ID::Default
    }
}

} // verus!
