//! Helpers for building test fixtures: deterministic RGB pixel data and
//! complete test packets with valid DDP headers.

use vstd::prelude::*;
use vstd::arithmetic::div_mod::{lemma_fundamental_div_mod, lemma_mul_mod_noop_left};
use crate::protocol::{Header, PacketType, PixelConfig, ID};
use crate::protocol::timecode::TimeCode;

verus! {

/// One byte of the deterministic RGB test pattern: pixel `j / 3` carries the
/// channel values `j mod 256`, `2j mod 256` and `3j mod 256`.
pub open spec fn spec_rgb_byte(j: int) -> u8 {
    if j % 3 == 0 {
        ((j / 3) % 256) as u8
    } else if j % 3 == 1 {
        (((j / 3) * 2) % 256) as u8
    } else {
        (((j / 3) * 3) % 256) as u8
    }
}

/// The full test pattern for `n` pixels: `3 * n` bytes.
pub open spec fn spec_rgb_test_data(n: nat) -> Seq<u8> {
    Seq::new(3 * n, |j: int| spec_rgb_byte(j))
}

/// The header of a generated test packet: defaults with the push flag set,
/// sequence number 1, the given length, and the given timecode if any.
pub open spec fn spec_test_header(length: u16, time_code: Option<u32>) -> Header {
    Header {
        packet_type: PacketType {
            push: true,
            timecode: time_code is Some,
            ..PacketType::spec_default()
        },
        sequence_number: 1,
        pixel_config: PixelConfig::spec_default(),
        id: ID::Default,
        offset: 0,
        length,
        time_code: TimeCode(time_code),
    }
}

/// Creates a deterministic RGB pixel data array: pixel `i` carries the
/// channel values `i mod 256`, `2i mod 256` and `3i mod 256`.
pub fn rgb_test_data(num_pixels: usize) -> (r: Vec<u8>)
    requires
        num_pixels * 3 <= usize::MAX,
    ensures
        r@ == spec_rgb_test_data(num_pixels as nat),
{
    let mut data: Vec<u8> = Vec::new();
    let mut i: usize = 0;
    while i < num_pixels
        invariant
            i <= num_pixels,
            num_pixels * 3 <= usize::MAX,
            data@.len() == 3 * i,
            forall|j: int| 0 <= j < data@.len() ==> data@[j] == spec_rgb_byte(j),
        decreases num_pixels - i,
    {
        proof {
            assert(i * 3 <= num_pixels * 3) by (nonlinear_arith)
                requires
                    i < num_pixels,
            ;
        }
        let p = i % 256;
        data.push(p as u8);
        data.push(((p * 2) % 256) as u8);
        data.push(((p * 3) % 256) as u8);
        proof {
            lemma_mul_mod_noop_left(i as int, 2, 256);
            lemma_mul_mod_noop_left(i as int, 3, 256);
            assert forall|j: int| 0 <= j < data@.len() implies data@[j] == spec_rgb_byte(j) by {
                if j < 3 * i {
                } else {
                    assert(j / 3 == i && j % 3 == j - 3 * i) by (nonlinear_arith)
                        requires
                            3 * i <= j < 3 * (i + 1),
                    ;
                }
            }
        }
        i = i + 1;
    }
    data
}

/// Creates a complete test packet: a valid pushed header announcing
/// `data_length` payload bytes, followed by the RGB test pattern for
/// `data_length / 3` pixels.
pub fn create_test_packet(data_length: usize) -> (r: Vec<u8>)
    requires
        data_length <= u16::MAX,
    ensures
        r@ == spec_test_header(data_length as u16, None).spec_encode() + spec_rgb_test_data(
            (data_length / 3) as nat,
        ),
{
    let header = Header {
        packet_type: PacketType { push: true, ..PacketType::default() },
        sequence_number: 1,
        pixel_config: PixelConfig::default(),
        id: ID::Default,
        offset: 0,
        length: data_length as u16,
        time_code: TimeCode(None),
    };
    let mut packet = header.encode();
    proof {
        lemma_fundamental_div_mod(data_length as int, 3);
        assert((data_length as int / 3) * 3 <= data_length as int) by (nonlinear_arith)
            requires
                (data_length as int / 3) * 3 + data_length as int % 3 == data_length as int,
        ;
    }
    let rgb = rgb_test_data(data_length / 3);
    packet.extend_from_slice(rgb.as_slice());
    packet
}

/// Creates a complete test packet whose header carries a timecode: a valid
/// pushed 14-byte header followed by the RGB test pattern for
/// `data_length / 3` pixels.
pub fn create_test_packet_with_timecode(data_length: usize, timecode: u32) -> (r: Vec<u8>)
    requires
        data_length <= u16::MAX,
    ensures
        r@ == spec_test_header(data_length as u16, Some(timecode)).spec_encode()
            + spec_rgb_test_data((data_length / 3) as nat),
{
    let header = Header {
        packet_type: PacketType { push: true, timecode: true, ..PacketType::default() },
        sequence_number: 1,
        pixel_config: PixelConfig::default(),
        id: ID::Default,
        offset: 0,
        length: data_length as u16,
        time_code: TimeCode(Some(timecode)),
    };
    let mut packet = header.encode();
    proof {
        lemma_fundamental_div_mod(data_length as int, 3);
        assert((data_length as int / 3) * 3 <= data_length as int) by (nonlinear_arith)
            requires
                (data_length as int / 3) * 3 + data_length as int % 3 == data_length as int,
        ;
    }
    let rgb = rgb_test_data(data_length / 3);
    packet.extend_from_slice(rgb.as_slice());
    packet
}

} // verus!
