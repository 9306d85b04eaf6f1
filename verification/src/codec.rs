//! Wire header codec.
//!
//! Every probe packet starts with a fixed 24-byte header, all fields
//! big-endian: `[seq: 8][sec: 8][usec: 4][flags: 4]`. Datagrams shorter
//! than the header are not valid probe packets and are ignored by the
//! receiver before this module is ever reached.

use vstd::prelude::*;

verus! {

/// Size of the wire header in bytes (seq + sec + usec + flags).
pub const HEADER_SIZE: usize = 24;

/// Flag value of an ordinary data packet.
pub const FLAG_DATA: u32 = 0;

/// Flag value of the end-of-stream (FIN) packet.
pub const FLAG_FIN: u32 = 1;

/// The header of a probe packet.
#[derive(Debug, Clone, Copy, PartialEq, Eq, Structural)]
pub struct UdpHeader {
    /// Send-order sequence number, assigned from 0 upwards.
    pub seq: u64,
    /// Seconds part of the sender's wall-clock send timestamp.
    pub sec: u64,
    /// Microseconds part of the sender's wall-clock send timestamp.
    pub usec: u32,
    /// Packet type: `FLAG_DATA` or `FLAG_FIN`.
    pub flags: u32,
}

/// The big-endian bytes of a `u64`, most significant first.
pub open spec fn spec_u64_to_be_bytes(x: u64) -> Seq<u8> {
    seq![
        (x >> 56) as u8,
        (x >> 48) as u8,
        (x >> 40) as u8,
        (x >> 32) as u8,
        (x >> 24) as u8,
        (x >> 16) as u8,
        (x >> 8) as u8,
        x as u8,
    ]
}

/// The `u64` read big-endian from 8 bytes, most significant first.
pub open spec fn spec_u64_from_be_bytes(s: Seq<u8>) -> u64
    recommends
        s.len() == 8,
{
    ((s[0] as u64) << 56) | ((s[1] as u64) << 48) | ((s[2] as u64) << 40) | ((s[3] as u64) << 32)
        | ((s[4] as u64) << 24) | ((s[5] as u64) << 16) | ((s[6] as u64) << 8) | (s[7] as u64)
}

/// The big-endian bytes of a `u32`, most significant first.
pub open spec fn spec_u32_to_be_bytes(x: u32) -> Seq<u8> {
    seq![(x >> 24) as u8, (x >> 16) as u8, (x >> 8) as u8, x as u8]
}

/// The `u32` read big-endian from 4 bytes, most significant first.
pub open spec fn spec_u32_from_be_bytes(s: Seq<u8>) -> u32
    recommends
        s.len() == 4,
{
    ((s[0] as u32) << 24) | ((s[1] as u32) << 16) | ((s[2] as u32) << 8) | (s[3] as u32)
}

/// The 24 header bytes of `h` in wire order.
pub open spec fn spec_header_bytes(h: UdpHeader) -> Seq<u8> {
    spec_u64_to_be_bytes(h.seq) + spec_u64_to_be_bytes(h.sec) + spec_u32_to_be_bytes(h.usec)
        + spec_u32_to_be_bytes(h.flags)
}

/// The header decoded from the first 24 bytes of `s`.
pub open spec fn spec_read_header(s: Seq<u8>) -> UdpHeader
    recommends
        s.len() >= 24,
{
    UdpHeader {
        seq: spec_u64_from_be_bytes(s.subrange(0, 8)),
        sec: spec_u64_from_be_bytes(s.subrange(8, 16)),
        usec: spec_u32_from_be_bytes(s.subrange(16, 20)),
        flags: spec_u32_from_be_bytes(s.subrange(20, 24)),
    }
}

proof fn lemma_u64_be_roundtrip(x: u64)
    ensures
        spec_u64_from_be_bytes(spec_u64_to_be_bytes(x)) == x,
{
    let b0 = (x >> 56) as u8;
    let b1 = (x >> 48) as u8;
    let b2 = (x >> 40) as u8;
    let b3 = (x >> 32) as u8;
    let b4 = (x >> 24) as u8;
    let b5 = (x >> 16) as u8;
    let b6 = (x >> 8) as u8;
    let b7 = x as u8;
    assert(((b0 as u64) << 56) | ((b1 as u64) << 48) | ((b2 as u64) << 40) | ((b3 as u64) << 32)
        | ((b4 as u64) << 24) | ((b5 as u64) << 16) | ((b6 as u64) << 8) | (b7 as u64) == x)
        by (bit_vector)
        requires
            b0 == (x >> 56) as u8,
            b1 == (x >> 48) as u8,
            b2 == (x >> 40) as u8,
            b3 == (x >> 32) as u8,
            b4 == (x >> 24) as u8,
            b5 == (x >> 16) as u8,
            b6 == (x >> 8) as u8,
            b7 == x as u8,
    ;
}

proof fn lemma_u32_be_roundtrip(x: u32)
    ensures
        spec_u32_from_be_bytes(spec_u32_to_be_bytes(x)) == x,
{
    let b0 = (x >> 24) as u8;
    let b1 = (x >> 16) as u8;
    let b2 = (x >> 8) as u8;
    let b3 = x as u8;
    assert(((b0 as u32) << 24) | ((b1 as u32) << 16) | ((b2 as u32) << 8) | (b3 as u32) == x)
        by (bit_vector)
        requires
            b0 == (x >> 24) as u8,
            b1 == (x >> 16) as u8,
            b2 == (x >> 8) as u8,
            b3 == x as u8,
    ;
}

/// Decoding the encoded bytes of any header gives the header back.
pub proof fn lemma_header_roundtrip(h: UdpHeader)
    ensures
        spec_read_header(spec_header_bytes(h)) == h,
{
    let bytes = spec_header_bytes(h);
    assert(bytes.subrange(0, 8) =~= spec_u64_to_be_bytes(h.seq));
    assert(bytes.subrange(8, 16) =~= spec_u64_to_be_bytes(h.sec));
    assert(bytes.subrange(16, 20) =~= spec_u32_to_be_bytes(h.usec));
    assert(bytes.subrange(20, 24) =~= spec_u32_to_be_bytes(h.flags));
    lemma_u64_be_roundtrip(h.seq);
    lemma_u64_be_roundtrip(h.sec);
    lemma_u32_be_roundtrip(h.usec);
    lemma_u32_be_roundtrip(h.flags);
}

impl UdpHeader {
    /// Builds a header from its four fields.
    pub fn new(seq: u64, sec: u64, usec: u32, flag: u32) -> (h: Self)
        ensures
            h == (UdpHeader { seq, sec, usec, flags: flag }),
    {
        Self { seq, sec, usec, flags: flag }
    }

    /// Writes the header big-endian into the first 24 bytes of `buffer`;
    /// the rest of the buffer is left as it was.
    pub fn write_header(&mut self, buffer: &mut Vec<u8>)
        requires
            old(buffer)@.len() >= HEADER_SIZE,
        ensures
            *final(self) == *old(self),
            final(buffer)@.len() == old(buffer)@.len(),
            final(buffer)@.subrange(0, HEADER_SIZE as int) == spec_header_bytes(*old(self)),
            final(buffer)@.skip(HEADER_SIZE as int) == old(buffer)@.skip(HEADER_SIZE as int),
    {
        buffer[0] = (self.seq >> 56) as u8;
        buffer[1] = (self.seq >> 48) as u8;
        buffer[2] = (self.seq >> 40) as u8;
        buffer[3] = (self.seq >> 32) as u8;
        buffer[4] = (self.seq >> 24) as u8;
        buffer[5] = (self.seq >> 16) as u8;
        buffer[6] = (self.seq >> 8) as u8;
        buffer[7] = self.seq as u8;
        buffer[8] = (self.sec >> 56) as u8;
        buffer[9] = (self.sec >> 48) as u8;
        buffer[10] = (self.sec >> 40) as u8;
        buffer[11] = (self.sec >> 32) as u8;
        buffer[12] = (self.sec >> 24) as u8;
        buffer[13] = (self.sec >> 16) as u8;
        buffer[14] = (self.sec >> 8) as u8;
        buffer[15] = self.sec as u8;
        buffer[16] = (self.usec >> 24) as u8;
        buffer[17] = (self.usec >> 16) as u8;
        buffer[18] = (self.usec >> 8) as u8;
        buffer[19] = self.usec as u8;
        buffer[20] = (self.flags >> 24) as u8;
        buffer[21] = (self.flags >> 16) as u8;
        buffer[22] = (self.flags >> 8) as u8;
        buffer[23] = self.flags as u8;
        proof {
            assert(final(buffer)@.subrange(0, HEADER_SIZE as int) =~= spec_header_bytes(
                *old(self),
            ));
            assert(final(buffer)@.skip(HEADER_SIZE as int) =~= old(buffer)@.skip(
                HEADER_SIZE as int,
            ));
        }
    }

    /// Reads a header big-endian from the first 24 bytes of `buffer`.
    pub fn read_header(buffer: &Vec<u8>) -> (h: Self)
        requires
            buffer@.len() >= HEADER_SIZE,
        ensures
            h == spec_read_header(buffer@),
    {
        let seq = ((buffer[0] as u64) << 56) | ((buffer[1] as u64) << 48) | ((buffer[2] as u64)
            << 40) | ((buffer[3] as u64) << 32) | ((buffer[4] as u64) << 24) | ((buffer[5] as u64)
            << 16) | ((buffer[6] as u64) << 8) | (buffer[7] as u64);
        let sec = ((buffer[8] as u64) << 56) | ((buffer[9] as u64) << 48) | ((buffer[10] as u64)
            << 40) | ((buffer[11] as u64) << 32) | ((buffer[12] as u64) << 24) | ((buffer[13]
            as u64) << 16) | ((buffer[14] as u64) << 8) | (buffer[15] as u64);
        let usec = ((buffer[16] as u32) << 24) | ((buffer[17] as u32) << 16) | ((buffer[18] as u32)
            << 8) | (buffer[19] as u32);
        let flags = ((buffer[20] as u32) << 24) | ((buffer[21] as u32) << 16) | ((buffer[22]
            as u32) << 8) | (buffer[23] as u32);
        proof {
            assert(buffer@.subrange(0, 8)[0] == buffer@[0]);
        }
        Self { seq, sec, usec, flags }
    }
}

} // verus!
