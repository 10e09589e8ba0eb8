//! Codec for the pixel-configuration byte: byte 2 of every DDP header.
//!
//! Bit layout (weights in the byte):
//! - bit 7 (weight 128): customer-defined configuration
//! - bits 5-3 (weight 8): data type (color space)
//! - bits 2-0 (weight 1): data size (bits per pixel)

use vstd::prelude::*;

verus! {

/// Pixel data type (color space).
#[derive(Debug, PartialEq, PartialOrd, Eq, Ord, Hash, Clone, Copy, Structural)]
pub enum DataType {
    /// Undefined or custom data type
    Undefined,
    /// Red, Green, Blue
    RGB,
    /// Hue, Saturation, Lightness
    HSL,
    /// Red, Green, Blue, White
    RGBW,
    /// Grayscale / monochrome
    Grayscale,
}

/// Number of bits per pixel.
#[derive(Debug, PartialEq, PartialOrd, Eq, Ord, Hash, Clone, Copy, Structural)]
pub enum PixelFormat {
    /// Undefined format
    Undefined,
    /// 1 bit per pixel
    Pixel1Bits,
    /// 4 bits per pixel
    Pixel4Bits,
    /// 8 bits per pixel (1 byte)
    Pixel8Bits,
    /// 16 bits per pixel (2 bytes)
    Pixel16Bits,
    /// 24 bits per pixel (3 bytes) - standard RGB
    Pixel24Bits,
    /// 32 bits per pixel (4 bytes) - RGBA or RGBW
    Pixel32Bits,
}

/// Pixel format configuration: how pixel data is encoded in a packet.
///
/// The default configuration is RGB with 8 bits per channel (24 bits per
/// pixel).  Decoding a byte never fails: unassigned code points decode to
/// `Undefined`.
#[derive(Debug, PartialEq, PartialOrd, Eq, Ord, Hash, Clone, Copy, Structural)]
pub struct PixelConfig {
    /// Color space / data type
    pub data_type: DataType,

    /// Bits per pixel
    pub data_size: PixelFormat,

    /// Whether this is a custom, vendor-specific configuration
    pub customer_defined: bool,
}

impl DataType {
    /// The three-bit code of this data type, before shifting.
    pub open spec fn spec_code(self) -> u8 {
        match self {
            DataType::Undefined => 0,
            DataType::RGB => 1,
            DataType::HSL => 2,
            DataType::RGBW => 3,
            DataType::Grayscale => 4,
        }
    }

    /// The data type of a three-bit code.  Codes 5-7 are unassigned and
    /// decode to `Undefined`.
    pub open spec fn spec_of_code(code: u8) -> DataType {
        if code == 1 {
            DataType::RGB
        } else if code == 2 {
            DataType::HSL
        } else if code == 3 {
            DataType::RGBW
        } else if code == 4 {
            DataType::Grayscale
        } else {
            DataType::Undefined
        }
    }
}

impl PixelFormat {
    /// The three-bit code of this pixel size, before shifting.
    pub open spec fn spec_code(self) -> u8 {
        match self {
            PixelFormat::Undefined => 0,
            PixelFormat::Pixel1Bits => 1,
            PixelFormat::Pixel4Bits => 2,
            PixelFormat::Pixel8Bits => 3,
            PixelFormat::Pixel16Bits => 4,
            PixelFormat::Pixel24Bits => 5,
            PixelFormat::Pixel32Bits => 6,
        }
    }

    /// The pixel size of a three-bit code.  Code 7 is unassigned and decodes
    /// to `Undefined`.
    pub open spec fn spec_of_code(code: u8) -> PixelFormat {
        if code == 1 {
            PixelFormat::Pixel1Bits
        } else if code == 2 {
            PixelFormat::Pixel4Bits
        } else if code == 3 {
            PixelFormat::Pixel8Bits
        } else if code == 4 {
            PixelFormat::Pixel16Bits
        } else if code == 5 {
            PixelFormat::Pixel24Bits
        } else if code == 6 {
            PixelFormat::Pixel32Bits
        } else {
            PixelFormat::Undefined
        }
    }
}

impl PixelConfig {
    /// The encoded pixel-configuration byte.
    pub open spec fn spec_encode(self) -> u8 {
        (spec_customer_bit(self.customer_defined) + self.data_type.spec_code() * 8
            + self.data_size.spec_code()) as u8
    }

    /// The configuration decoded from a byte.  Total: every byte decodes.
    pub open spec fn spec_decode(byte: u8) -> PixelConfig {
        PixelConfig {
            data_type: DataType::spec_of_code(((byte / 8) % 8) as u8),
            data_size: PixelFormat::spec_of_code((byte % 8) as u8),
            customer_defined: byte / 128 == 1,
        }
    }

    /// The value produced by `PixelConfig::default`.
    pub open spec fn spec_default() -> PixelConfig {
        PixelConfig {
            data_type: DataType::RGB,
            data_size: PixelFormat::Pixel24Bits,
            customer_defined: false,
        }
    }

    /// Encodes the configuration into its byte.
    pub fn to_byte(&self) -> (r: u8)
        ensures
            r == self.spec_encode(),
    {
        let type_code: u8 = match self.data_type {
            DataType::Undefined => 0,
            DataType::RGB => 1,
            DataType::HSL => 2,
            DataType::RGBW => 3,
            DataType::Grayscale => 4,
        };
        let size_code: u8 = match self.data_size {
            PixelFormat::Undefined => 0,
            PixelFormat::Pixel1Bits => 1,
            PixelFormat::Pixel4Bits => 2,
            PixelFormat::Pixel8Bits => 3,
            PixelFormat::Pixel16Bits => 4,
            PixelFormat::Pixel24Bits => 5,
            PixelFormat::Pixel32Bits => 6,
        };
        let customer_bit: u8 = if self.customer_defined {
            128
        } else {
            0
        };
        customer_bit + type_code * 8 + size_code
    }

    /// Decodes a pixel-configuration byte.  Never fails: unassigned data-type
    /// and data-size codes decode to `Undefined`.
    pub fn from_byte(byte: u8) -> (r: PixelConfig)
        ensures
            r == PixelConfig::spec_decode(byte),
    {
        let data_type = match (byte / 8) % 8 {
            1 => DataType::RGB,
            2 => DataType::HSL,
            3 => DataType::RGBW,
            4 => DataType::Grayscale,
            _ => DataType::Undefined,
        };
        let data_size = match byte % 8 {
            1 => PixelFormat::Pixel1Bits,
            2 => PixelFormat::Pixel4Bits,
            3 => PixelFormat::Pixel8Bits,
            4 => PixelFormat::Pixel16Bits,
            5 => PixelFormat::Pixel24Bits,
            6 => PixelFormat::Pixel32Bits,
            _ => PixelFormat::Undefined,
        };
        PixelConfig { data_type, data_size, customer_defined: byte / 128 == 1 }
    }

    /// Round trip: every configuration decodes from its own encoding
    /// unchanged.
    pub proof fn lemma_round_trip(self)
        ensures
            PixelConfig::spec_decode(self.spec_encode()) == self,
    {
    }
}

/// The byte contribution of the customer-defined bit (weight 128).
pub open spec fn spec_customer_bit(customer_defined: bool) -> u8 {
    if customer_defined {
        128
    } else {
        0
    }
}

impl Default for PixelConfig {
    /// RGB at 24 bits per pixel (8 bits per channel), not customer-defined.
    fn default() -> (r: Self)
        ensures
            r == PixelConfig::spec_default(),
    {
        PixelConfig {
            data_type: DataType::RGB,
            data_size: PixelFormat::Pixel24Bits,
            customer_defined: false,
        }
    }
}

} // verus!
