//! Packet assembly for one DDP connection: sequence-number management and
//! fragmentation of arbitrary-length payloads into bounded datagrams.
//!
//! A [`Connection`] owns the per-connection protocol state (pixel
//! configuration, protocol ID, sequence counter) and turns each write into
//! the exact list of datagrams to put on the wire.  The UDP socket itself is
//! an external collaborator: the caller transmits each returned datagram, in
//! order, as one UDP message.

use vstd::prelude::*;
use vstd::arithmetic::div_mod::{lemma_add_mod_noop, lemma_small_mod};
use crate::protocol::{Header, PacketType, PixelConfig, ID};
use crate::protocol::message::{spec_typed_message_bytes, Message};

verus! {

/// Maximum payload bytes per DDP datagram (480 RGB pixels at 3 bytes each).
pub const MAX_DATA_LENGTH: usize = 480 * 3;

/// The sequence number that follows `s`: counts 1 up to 15, then wraps back
/// to 1.  The counter never reaches 0, which is reserved for "untracked".
pub open spec fn spec_next_seq(s: u8) -> u8 {
    if s >= 15 {
        1
    } else {
        (s + 1) as u8
    }
}

/// The sequence number after `n` transmissions starting from `s`.
pub open spec fn spec_seq_after(s: u8, n: nat) -> u8
    decreases n,
{
    if n == 0 {
        s
    } else {
        spec_next_seq(spec_seq_after(s, (n - 1) as nat))
    }
}

/// The number of datagrams a payload of `len` bytes fragments into.
pub open spec fn spec_chunk_count(len: nat) -> nat {
    (len + 1439) / 1440
}

/// The byte length of the `i`-th chunk: 1440 for every chunk but the last,
/// and whatever remains for the last.
pub open spec fn spec_chunk_len(len: nat, i: int) -> int {
    if 1440 * (i + 1) <= len {
        1440
    } else {
        len - 1440 * i
    }
}

/// The `i`-th chunk of the payload: at most 1440 bytes starting at byte
/// `1440 * i`.
pub open spec fn spec_chunk(data: Seq<u8>, i: int) -> Seq<u8> {
    data.subrange(1440 * i, 1440 * i + spec_chunk_len(data.len(), i))
}

/// The header stamped onto the `i`-th chunk: the template `base` with the
/// sequence number of that transmission, the chunk's own byte length, the
/// cumulative offset (wrapping at 32 bits), and the push flag forced on for
/// the final chunk.
pub open spec fn spec_chunk_header(base: Header, data_len: nat, s0: u8, i: int) -> Header {
    Header {
        packet_type: PacketType {
            push: if i == spec_chunk_count(data_len) - 1 {
                true
            } else {
                base.packet_type.push
            },
            ..base.packet_type
        },
        sequence_number: spec_seq_after(s0, i as nat),
        offset: ((base.offset + 1440 * i) % 0x1_0000_0000) as u32,
        length: spec_chunk_len(data_len, i) as u16,
        ..base
    }
}

/// The full `i`-th datagram: the stamped header followed by the chunk bytes.
pub open spec fn spec_datagram(base: Header, data: Seq<u8>, s0: u8, i: int) -> Seq<u8> {
    spec_chunk_header(base, data.len(), s0, i).spec_encode() + spec_chunk(data, i)
}

/// Per-connection protocol state: the pixel configuration and ID stamped on
/// outgoing headers, and the 4-bit wrap-around sequence counter.
///
/// The counter is exclusively owned, mutable state: a connection must not be
/// shared across concurrent writers without external synchronization.
#[derive(Debug, PartialEq, Eq, Clone, Copy)]
pub struct Connection {
    /// Pixel format configuration stamped on outgoing packets
    pub pixel_config: PixelConfig,

    /// Protocol ID stamped on outgoing packets
    pub id: ID,

    /// The 4-bit sequence counter (1-15) the next transmission will carry.
    /// Advanced by the fragmenter; callers should treat it as read-only.
    pub sequence_number: u8,
}

impl Connection {
    /// The current sequence counter: the number the next transmission will
    /// carry.
    pub open spec fn seq_no(self) -> u8 {
        self.sequence_number
    }

    /// A connection whose counter is in the emittable range 1-15.
    pub open spec fn wf(self) -> bool {
        1 <= self.seq_no() <= 15
    }

    /// Creates a fresh connection: the given configuration and ID, with the
    /// sequence counter at its initial value 1.
    pub fn new(pixel_config: PixelConfig, id: ID) -> (r: Connection)
        ensures
            r.wf(),
            r.seq_no() == 1,
            r.pixel_config == pixel_config,
            r.id == id,
    {
        Connection { pixel_config, id, sequence_number: 1 }
    }

    /// The header template a write with the given base offset starts from:
    /// default flags with push clear, the connection's pixel configuration
    /// and ID, and zero length.
    pub open spec fn spec_write_header(self, offset: u32) -> Header {
        Header {
            packet_type: PacketType { push: false, ..PacketType::spec_default() },
            sequence_number: 0,
            pixel_config: self.pixel_config,
            id: self.id,
            offset,
            length: 0,
            time_code: crate::protocol::timecode::TimeCode(None),
        }
    }

    /// Fragments `data` into the datagrams of one write starting at offset 0.
    ///
    /// Each returned vector is one complete datagram (header plus payload) to
    /// transmit as one UDP message, in order.
    pub fn write(&mut self, data: &[u8]) -> (out: Vec<Vec<u8>>)
        requires
            old(self).wf(),
        ensures
            final(self).wf(),
            final(self).pixel_config == old(self).pixel_config,
            final(self).id == old(self).id,
            out@.len() == spec_chunk_count(data@.len()),
            forall|i: int|
                0 <= i < out@.len() ==> out@[i]@ == spec_datagram(
                    old(self).spec_write_header(0),
                    data@,
                    old(self).seq_no(),
                    i,
                ),
            final(self).seq_no() == spec_seq_after(old(self).seq_no(), out@.len() as nat),
    {
        let mut h = Header::default();
        h.packet_type.push(false);
        h.pixel_config = self.pixel_config;
        h.id = self.id;
        self.slice_send(h, data)
    }

    /// Fragments `data` into the datagrams of one write starting at the given
    /// byte offset into the receiver's frame buffer.  Chunk offsets are
    /// cumulative from this base offset.
    pub fn write_offset(&mut self, data: &[u8], offset: u32) -> (out: Vec<Vec<u8>>)
        requires
            old(self).wf(),
        ensures
            final(self).wf(),
            final(self).pixel_config == old(self).pixel_config,
            final(self).id == old(self).id,
            out@.len() == spec_chunk_count(data@.len()),
            forall|i: int|
                0 <= i < out@.len() ==> out@[i]@ == spec_datagram(
                    old(self).spec_write_header(offset),
                    data@,
                    old(self).seq_no(),
                    i,
                ),
            final(self).seq_no() == spec_seq_after(old(self).seq_no(), out@.len() as nat),
    {
        let mut h = Header::default();
        h.packet_type.push(false);
        h.pixel_config = self.pixel_config;
        h.id = self.id;
        h.offset = offset;
        self.slice_send(h, data)
    }

    /// The header template a message write starts from: like a data write,
    /// but with the message's own ID and the default pixel configuration.
    pub open spec fn spec_message_header(id: ID) -> Header {
        Header {
            packet_type: PacketType { push: false, ..PacketType::spec_default() },
            sequence_number: 0,
            pixel_config: PixelConfig::spec_default(),
            id,
            offset: 0,
            length: 0,
            time_code: crate::protocol::timecode::TimeCode(None),
        }
    }

    /// Serializes `msg` and fragments the resulting payload into datagrams,
    /// stamping the message's own ID on each header.
    ///
    /// Returns `None`, with the connection untouched, in the one case where
    /// serialization can fail: an untyped JSON value the JSON library refuses
    /// to serialize.  Every typed, unparsed-text, and successfully serialized
    /// untyped message yields its datagrams.
    pub fn write_message(&mut self, msg: Message) -> (out: Option<Vec<Vec<u8>>>)
        requires
            old(self).wf(),
        ensures
            final(self).wf(),
            final(self).pixel_config == old(self).pixel_config,
            final(self).id == old(self).id,
            !(msg is Parsed) ==> out is Some,
            out is None ==> *final(self) == *old(self),
            out matches Some(dgs) ==> final(self).seq_no() == spec_seq_after(
                old(self).seq_no(),
                dgs@.len() as nat,
            ),
            out matches Some(dgs) ==> !(msg is Parsed) ==> {
                let data = spec_typed_message_bytes(msg);
                &&& dgs@.len() == spec_chunk_count(data.len())
                &&& forall|i: int|
                    0 <= i < dgs@.len() ==> dgs@[i]@ == spec_datagram(
                        Connection::spec_message_header(msg.spec_get_id()),
                        data,
                        old(self).seq_no(),
                        i,
                    )
            },
    {
        let id = msg.get_id();
        let data = match msg.try_to_bytes() {
            Some(d) => d,
            None => {
                return None;
            },
        };
        let mut h = Header::default();
        h.packet_type.push(false);
        h.id = id;
        Some(self.slice_send(h, data.as_slice()))
    }

    /// Fragments `data` under the header template `header`: slices the
    /// payload into chunks of at most 1440 bytes and stamps each chunk's
    /// header with the running sequence number, the chunk length, the
    /// cumulative offset, and - on the final chunk only - the push flag.
    ///
    /// A zero-length payload yields no datagrams and leaves the counter
    /// untouched.
    pub fn slice_send(&mut self, header: Header, data: &[u8]) -> (out: Vec<Vec<u8>>)
        requires
            old(self).wf(),
        ensures
            final(self).wf(),
            final(self).pixel_config == old(self).pixel_config,
            final(self).id == old(self).id,
            out@.len() == spec_chunk_count(data@.len()),
            forall|i: int|
                0 <= i < out@.len() ==> out@[i]@ == spec_datagram(
                    header,
                    data@,
                    old(self).seq_no(),
                    i,
                ),
            final(self).seq_no() == spec_seq_after(old(self).seq_no(), out@.len() as nat),
    {
        let ghost s0 = self.seq_no();
        let mut out: Vec<Vec<u8>> = Vec::new();
        let mut pos: usize = 0;
        while pos < data.len()
            invariant
                self.wf(),
                self.pixel_config == old(self).pixel_config,
                self.id == old(self).id,
                s0 == old(self).seq_no(),
                out@.len() <= spec_chunk_count(data@.len()),
                pos < data@.len() ==> pos == 1440 * out@.len(),
                pos >= data@.len() ==> out@.len() == spec_chunk_count(data@.len()),
                forall|i: int|
                    0 <= i < out@.len() ==> out@[i]@ == spec_datagram(header, data@, s0, i),
                self.seq_no() == spec_seq_after(s0, out@.len() as nat),
            decreases data@.len() - pos,
        {
            let ghost k = out@.len() as int;
            let chunk_end = if data.len() - pos <= MAX_DATA_LENGTH {
                data.len()
            } else {
                pos + MAX_DATA_LENGTH
            };
            let is_last = chunk_end == data.len();
            let chunk = &data[pos..chunk_end];
            proof {
                lemma_chunk_index(data@.len(), k);
            }
            let chunk_header = Header {
                packet_type: PacketType {
                    push: if is_last {
                        true
                    } else {
                        header.packet_type.push
                    },
                    ..header.packet_type
                },
                sequence_number: self.sequence_number,
                offset: (((header.offset as u64) + ((pos as u64) % 0x1_0000_0000u64))
                    % 0x1_0000_0000u64) as u32,
                length: (chunk_end - pos) as u16,
                ..header
            };
            proof {
                lemma_small_mod(header.offset as nat, 0x1_0000_0000nat);
                lemma_add_mod_noop(header.offset as int, pos as int, 0x1_0000_0000int);
                lemma_small_mod((pos as int % 0x1_0000_0000int) as nat, 0x1_0000_0000nat);
                assert(chunk_header == spec_chunk_header(header, data@.len(), s0, k));
            }
            let datagram = assemble_packet(chunk_header, chunk);
            proof {
                assert(chunk@ =~= spec_chunk(data@, k));
                assert(datagram@ == spec_datagram(header, data@, s0, k));
            }
            out.push(datagram);

            // Advance the counter: 15 wraps back to 1, so 0 is never emitted.
            if self.sequence_number >= 15 {
                self.sequence_number = 1;
            } else {
                self.sequence_number = self.sequence_number + 1;
            }
            pos = chunk_end;
        }
        out
    }
}

/// Index arithmetic for the fragmentation loop: while byte `1440 * k` still
/// lies inside the payload, `k` is a chunk index, and it is the final one
/// exactly when no further full chunk starts inside the payload.
proof fn lemma_chunk_index(len: nat, k: int)
    by (nonlinear_arith)
    requires
        0 <= 1440 * k < len,
    ensures
        k < spec_chunk_count(len),
        (len - 1440 * k <= 1440) <==> (k == spec_chunk_count(len) - 1),
        spec_chunk_len(len, k) == if len - 1440 * k <= 1440 {
            len - 1440 * k
        } else {
            1440
        },
        (1440 * k + 1440 < len) ==> 1440 * (k + 1) == 1440 * k + 1440,
{
}

/// Assembles one complete datagram: the encoded header followed by the chunk
/// bytes.
fn assemble_packet(header: Header, chunk: &[u8]) -> (r: Vec<u8>)
    ensures
        r@ == header.spec_encode() + chunk@,
{
    let mut buffer = header.encode();
    buffer.extend_from_slice(chunk);
    buffer
}

/// The sequence counter stays in the emittable range: starting anywhere in
/// 1-15 it never reaches 0 or exceeds 15, however many transmissions follow.
pub proof fn lemma_seq_after_in_range(s: u8, n: nat)
    requires
        1 <= s <= 15,
    ensures
        1 <= spec_seq_after(s, n) <= 15,
    decreases n,
{
    if n > 0 {
        lemma_seq_after_in_range(s, (n - 1) as nat);
    }
}

/// After 15 consecutive transmissions from a fresh counter, the 16th
/// transmission uses sequence number 1 again: the counter wraps at 15
/// without ever emitting 0.
pub proof fn lemma_sixteenth_transmission_wraps_to_one()
    ensures
        spec_seq_after(1, 15) == 1,
{
    reveal_with_fuel(spec_seq_after, 17);
}

/// On the wire, byte 1 of every datagram of a write carries the running
/// sequence number, and that byte is never 0 and never above 15.
pub proof fn lemma_datagram_sequence_byte(base: Header, data: Seq<u8>, s0: u8, i: int)
    requires
        1 <= s0 <= 15,
        0 <= i < spec_chunk_count(data.len()),
    ensures
        spec_datagram(base, data, s0, i)[1] == spec_seq_after(s0, i as nat),
        1 <= spec_datagram(base, data, s0, i)[1] <= 15,
{
    lemma_seq_after_in_range(s0, i as nat);
}

} // verus!
