//! The first offline connection request; its zero padding probes the path MTU.

use vstd::prelude::*;
use crate::protocol::raknet::packet_ids::ID_OPEN_CONN_REQ1;
use crate::wire::{bytes_to_array16, put_bytes, put_u8, put_zeros, ByteReader};

verus! {

pub struct OpenConnReq1 {
    pub magic: [u8; 16],
    pub protocol: u8,
    pub mtu_size: u16,
}

/// The length the encoded request is padded up to: the MTU less the 28 bytes
/// of IP and UDP headers, never below zero.
pub open spec fn padded_len(mtu_size: u16) -> nat {
    if mtu_size >= 28 { (mtu_size - 28) as nat } else { 0 }
}

impl OpenConnReq1 {
    pub fn new(magic: [u8; 16], protocol: u8, mtu_size: u16) -> (r: OpenConnReq1)
        ensures
            r == (OpenConnReq1 { magic, protocol, mtu_size }),
    {
        OpenConnReq1 { magic, protocol, mtu_size }
    }

    /// Identifier, magic, protocol version, then zeros up to `padded_len(mtu_size)` bytes in all.
    pub open spec fn spec_encode(self) -> Seq<u8> {
        let head = seq![ID_OPEN_CONN_REQ1] + self.magic@ + seq![self.protocol];
        if padded_len(self.mtu_size) > head.len() {
            head + Seq::new((padded_len(self.mtu_size) - head.len()) as nat, |i: int| 0u8)
        } else {
            head
        }
    }

    /// The fields read from the bytes after the identifier: magic, protocol,
    /// and the count of the bytes after them (kept to 16 bits) as the MTU;
    /// the padding is not consumed.
    pub open spec fn spec_decode(s: Seq<u8>) -> Option<(Seq<u8>, u8, u16, nat)> {
        if s.len() < 17 {
            None
        } else {
            Some((s.subrange(0, 16), s[16], ((s.len() - 17) % 0x10000) as u16, 17))
        }
    }

    /// Replaces the contents of `stream` with the encoded request.
    pub fn encode(&self, stream: &mut Vec<u8>)
        ensures
            final(stream)@ == self.spec_encode(),
    {
        stream.clear();
        put_u8(stream, ID_OPEN_CONN_REQ1);
        put_bytes(stream, self.magic.as_slice());
        put_u8(stream, self.protocol);
        let target: usize = if self.mtu_size >= 28 { (self.mtu_size - 28) as usize } else { 0 };
        if target > stream.len() {
            let pad = target - stream.len();
            put_zeros(stream, pad);
        }
        assert(stream@ =~= self.spec_encode());
    }

    /// Reads the request that follows the identifier; on too short an input
    /// returns `None` and leaves `stream` as it was.
    pub fn decode(stream: &mut ByteReader) -> (r: Option<OpenConnReq1>)
        ensures
            match OpenConnReq1::spec_decode(old(stream).rest()) {
                Some((magic, protocol, mtu_size, n)) => r matches Some(p) && p.magic@ == magic
                    && p.protocol == protocol && p.mtu_size == mtu_size && final(stream).rest() == old(
                    stream,
                ).rest().skip(n as int),
                None => r is None && final(stream).rest() == old(stream).rest(),
            },
    {
        if stream.remaining_byte_count() < 17 {
            return None;
        }
        let ghost s = stream.rest();
        let magic_bytes = stream.get(16).unwrap();
        let magic = bytes_to_array16(&magic_bytes);
        let protocol = stream.get_u8().unwrap();
        let mtu_size = (stream.remaining_byte_count() % 0x10000) as u16;
        assert(s.skip(16).skip(1) =~= s.skip(17));
        Some(OpenConnReq1 { magic, protocol, mtu_size })
    }
}

/// An encoded request is exactly as long as its MTU less 28 asks, but never
/// shorter than its 18 bytes of content; decoding it gives back the magic and
/// the protocol, and as MTU the number of padding bytes.
pub proof fn lemma_open_conn_req1_roundtrip(p: OpenConnReq1)
    ensures
        p.spec_encode().len() == if padded_len(p.mtu_size) > 18 { padded_len(p.mtu_size) } else { 18 },
        OpenConnReq1::spec_decode(p.spec_encode().drop_first()) == Some(
            (
                p.magic@,
                p.protocol,
                (if padded_len(p.mtu_size) > 18 { padded_len(p.mtu_size) - 18 } else { 0 }) as u16,
                17nat,
            ),
        ),
{
    let s = p.spec_encode().drop_first();
    assert(s.subrange(0, 16) =~= p.magic@);
}

} // verus!
