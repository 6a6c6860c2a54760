//! The answer to a keep-alive ping over an established RakNet connection.

use vstd::prelude::*;
use crate::protocol::raknet::packet_ids::ID_CONNECTED_PONG;
use crate::wire::{
    be_bytes, be_value, lemma_be_bytes_len, lemma_be_roundtrip, lemma_p256_values, put_u64_be,
    put_u8, ByteReader,
};

verus! {

pub struct ConnectedPong {
    pub ping_time: u64,
    pub pong_time: u64,
}

impl ConnectedPong {
    pub fn create(ping_time: u64, pong_time: u64) -> (r: ConnectedPong)
        ensures
            r == (ConnectedPong { ping_time, pong_time }),
    {
        ConnectedPong { ping_time, pong_time }
    }

    /// Identifier, then the ping time and the pong time (big-endian).
    pub open spec fn spec_encode(self) -> Seq<u8> {
        seq![ID_CONNECTED_PONG] + be_bytes(self.ping_time as nat, 8) + be_bytes(self.pong_time as nat, 8)
    }

    /// The message read from the bytes after the identifier, and how many bytes it took.
    pub open spec fn spec_decode(s: Seq<u8>) -> Option<(ConnectedPong, nat)> {
        if s.len() < 16 {
            None
        } else {
            Some(
                (
                    ConnectedPong {
                        ping_time: be_value(s.subrange(0, 8)) as u64,
                        pong_time: be_value(s.subrange(8, 16)) as u64,
                    },
                    16,
                ),
            )
        }
    }

    /// Replaces the contents of `stream` with the encoded message.
    pub fn encode(&self, stream: &mut Vec<u8>)
        ensures
            final(stream)@ == self.spec_encode(),
    {
        stream.clear();
        put_u8(stream, ID_CONNECTED_PONG);
        put_u64_be(stream, self.ping_time);
        put_u64_be(stream, self.pong_time);
    }

    /// Reads the message that follows the identifier; on too short an input
    /// returns `None` and leaves `stream` as it was.
    pub fn decode(stream: &mut ByteReader) -> (r: Option<ConnectedPong>)
        ensures
            match ConnectedPong::spec_decode(old(stream).rest()) {
                Some((p, n)) => r == Some(p) && final(stream).rest() == old(stream).rest().skip(n as int),
                None => r is None && final(stream).rest() == old(stream).rest(),
            },
    {
        let ghost s = stream.rest();
        if stream.remaining_byte_count() < 16 {
            return None;
        }
        let ping_time = match stream.get_u64_be() {
            Some(v) => v,
            None => return None,
        };
        let pong_time = match stream.get_u64_be() {
            Some(v) => v,
            None => return None,
        };
        assert(s.take(8) =~= s.subrange(0, 8));
        assert(s.skip(8).take(8) =~= s.subrange(8, 16));
        assert(s.skip(8).skip(8) =~= s.skip(16));
        Some(ConnectedPong { ping_time, pong_time })
    }
}

/// Decoding an encoded pong, whatever follows it, gives the pong back.
pub proof fn lemma_connected_pong_roundtrip(p: ConnectedPong, t: Seq<u8>)
    ensures
        ConnectedPong::spec_decode(p.spec_encode().drop_first() + t) == Some((p, 16nat)),
{
    lemma_be_bytes_len(p.ping_time as nat, 8);
    lemma_be_bytes_len(p.pong_time as nat, 8);
    lemma_be_roundtrip(p.ping_time as nat, 8);
    lemma_be_roundtrip(p.pong_time as nat, 8);
    lemma_p256_values();
    let s = p.spec_encode().drop_first() + t;
    assert(s.subrange(0, 8) =~= be_bytes(p.ping_time as nat, 8));
    assert(s.subrange(8, 16) =~= be_bytes(p.pong_time as nat, 8));
}

} // verus!
