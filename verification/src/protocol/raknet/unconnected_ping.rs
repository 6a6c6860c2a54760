//! The offline ping a client sends to discover a server.

use vstd::prelude::*;
use crate::protocol::raknet::packet_ids::{ID_UNCONNECTED_PING, MAGIC};
use crate::wire::{
    be_bytes, be_value, lemma_be_bytes_len, lemma_be_roundtrip, lemma_p256_values, put_bytes,
    put_u64_be, put_u8, ByteReader,
};

verus! {

pub struct UnconnectedPing {
    pub ping_time: u64,
    pub client_guid: u64,
}

impl UnconnectedPing {
    pub fn create(ping_time: u64, client_guid: u64) -> (r: UnconnectedPing)
        ensures
            r == (UnconnectedPing { ping_time, client_guid }),
    {
        UnconnectedPing { ping_time, client_guid }
    }

    /// Identifier, ping time, the magic, then the client GUID (integers big-endian).
    pub open spec fn spec_encode(self) -> Seq<u8> {
        seq![ID_UNCONNECTED_PING] + be_bytes(self.ping_time as nat, 8) + MAGIC@ + be_bytes(
            self.client_guid as nat,
            8,
        )
    }

    /// The message read from the bytes after the identifier (the sixteen
    /// magic bytes are skipped unchecked), and how many bytes it took.
    pub open spec fn spec_decode(s: Seq<u8>) -> Option<(UnconnectedPing, nat)> {
        if s.len() < 32 {
            None
        } else {
            Some((UnconnectedPing {
                ping_time: be_value(s.subrange(0, 8)) as u64,
                client_guid: be_value(s.subrange(24, 32)) as u64,
            }, 32))
        }
    }

    /// Replaces the contents of `stream` with the encoded message.
    pub fn encode(&self, stream: &mut Vec<u8>)
        ensures
            final(stream)@ == self.spec_encode(),
    {
        stream.clear();
        put_u8(stream, ID_UNCONNECTED_PING);
        put_u64_be(stream, self.ping_time);
        put_bytes(stream, MAGIC.as_slice());
        put_u64_be(stream, self.client_guid);
    }

    /// Reads the message that follows the identifier; on too short an input
    /// returns `None` and leaves `stream` as it was.
    pub fn decode(stream: &mut ByteReader) -> (r: Option<UnconnectedPing>)
        ensures
            match UnconnectedPing::spec_decode(old(stream).rest()) {
                Some((p, n)) => r == Some(p) && final(stream).rest() == old(stream).rest().skip(n as int),
                None => r is None && final(stream).rest() == old(stream).rest(),
            },
    {
        if stream.remaining_byte_count() < 32 {
            return None;
        }
        let ghost s = stream.rest();
        let ping_time = stream.get_u64_be().unwrap();
        let _ = stream.get(16);
        let client_guid = stream.get_u64_be().unwrap();
        assert(s.take(8) =~= s.subrange(0, 8));
        assert(s.skip(8).skip(16) =~= s.skip(24));
        assert(s.skip(24).take(8) =~= s.subrange(24, 32));
        assert(s.skip(24).skip(8) =~= s.skip(32));
        Some(UnconnectedPing { ping_time, client_guid })
    }
}

/// Decoding an encoded ping, whatever follows it, gives the ping back.
pub proof fn lemma_unconnected_ping_roundtrip(p: UnconnectedPing, t: Seq<u8>)
    ensures
        UnconnectedPing::spec_decode(p.spec_encode().drop_first() + t) == Some((p, 32nat)),
{
    lemma_be_bytes_len(p.ping_time as nat, 8);
    lemma_be_roundtrip(p.ping_time as nat, 8);
    lemma_be_bytes_len(p.client_guid as nat, 8);
    lemma_be_roundtrip(p.client_guid as nat, 8);
    lemma_p256_values();
    let s = p.spec_encode().drop_first() + t;
    assert(s.subrange(0, 8) =~= be_bytes(p.ping_time as nat, 8));
    assert(s.subrange(24, 32) =~= be_bytes(p.client_guid as nat, 8));
}

} // verus!
