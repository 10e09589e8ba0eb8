//! The optional timecode field: four big-endian bytes appended to the header
//! when the timecode flag is set.

use vstd::prelude::*;
use crate::protocol::{u32_be_bytes, u32_from_be};

verus! {

/// A timecode for synchronization; `None` when the header carries none.
#[derive(Debug, PartialEq, Eq, Hash, Clone, Copy)]
pub struct TimeCode(pub Option<u32>);

impl TimeCode {
    /// The u32 written on the wire: the timecode, or 0 when there is none.
    pub open spec fn spec_value(self) -> u32 {
        match self.0 {
            Some(v) => v,
            None => 0,
        }
    }

    /// Reads a timecode from its four big-endian bytes.
    pub fn from_4_bytes(bytes: [u8; 4]) -> (r: Self)
        ensures
            r == TimeCode(Some(u32_from_be(bytes@[0], bytes@[1], bytes@[2], bytes@[3]))),
    {
        TimeCode(Some(crate::protocol::u32_from_be_exec(bytes[0], bytes[1], bytes[2], bytes[3])))
    }

    /// The wire value: the timecode itself, or 0 when there is none.
    pub fn value(&self) -> (r: u32)
        ensures
            r == self.spec_value(),
    {
        match self.0 {
            Some(v) => v,
            None => 0,
        }
    }

    /// Writes the timecode as four big-endian bytes; `None` writes zeroes.
    pub fn to_bytes(&self) -> (r: [u8; 4])
        ensures
            r@ == u32_be_bytes(self.spec_value()),
    {
        let v = self.value();
        let r = [
            (v / 0x1000000) as u8,
            ((v / 0x10000) % 0x100) as u8,
            ((v / 0x100) % 0x100) as u8,
            (v % 0x100) as u8,
        ];
        proof {
            assert(r@ =~= u32_be_bytes(self.spec_value()));
        }
        r
    }
}

impl Default for TimeCode {
    /// No timecode.
    fn default() -> (r: Self)
        ensures
            r == TimeCode(None::<u32>),
    {
        TimeCode(None)
    }
}

} // verus!
