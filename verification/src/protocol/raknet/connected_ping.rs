//! The keep-alive ping exchanged over an established RakNet connection.

use vstd::prelude::*;
use crate::protocol::raknet::packet_ids::ID_CONNECTED_PING;
use crate::wire::{
    be_bytes, be_value, lemma_be_bytes_len, lemma_be_roundtrip, lemma_p256_values, put_u64_be,
    put_u8, ByteReader,
};

verus! {

pub struct ConnectedPing {
    pub ping_time: u64,
}

impl ConnectedPing {
    pub fn create(ping_time: u64) -> (r: ConnectedPing)
        ensures
            r == (ConnectedPing { ping_time }),
    {
        ConnectedPing { ping_time }
    }

    /// Identifier, then the ping time (big-endian).
    pub open spec fn spec_encode(self) -> Seq<u8> {
        seq![ID_CONNECTED_PING] + be_bytes(self.ping_time as nat, 8)
    }

    /// The message read from the bytes after the identifier, and how many bytes it took.
    pub open spec fn spec_decode(s: Seq<u8>) -> Option<(ConnectedPing, nat)> {
        if s.len() < 8 {
            None
        } else {
            Some((ConnectedPing { ping_time: be_value(s.subrange(0, 8)) as u64 }, 8))
        }
    }

    /// Replaces the contents of `stream` with the encoded message.
    pub fn encode(&self, stream: &mut Vec<u8>)
        ensures
            final(stream)@ == self.spec_encode(),
    {
        stream.clear();
        put_u8(stream, ID_CONNECTED_PING);
        put_u64_be(stream, self.ping_time);
    }

    /// Reads the message that follows the identifier; on too short an input
    /// returns `None` and leaves `stream` as it was.
    pub fn decode(stream: &mut ByteReader) -> (r: Option<ConnectedPing>)
        ensures
            match ConnectedPing::spec_decode(old(stream).rest()) {
                Some((p, n)) => r == Some(p) && final(stream).rest() == old(stream).rest().skip(n as int),
                None => r is None && final(stream).rest() == old(stream).rest(),
            },
    {
        let ghost s = stream.rest();
        match stream.get_u64_be() {
            Some(ping_time) => {
                assert(s.take(8) =~= s.subrange(0, 8));
                Some(ConnectedPing { ping_time })
            },
            None => None,
        }
    }
}

/// Decoding an encoded ping, whatever follows it, gives the ping back.
pub proof fn lemma_connected_ping_roundtrip(p: ConnectedPing, t: Seq<u8>)
    ensures
        ConnectedPing::spec_decode(p.spec_encode().drop_first() + t) == Some((p, 8nat)),
{
    lemma_be_bytes_len(p.ping_time as nat, 8);
    lemma_be_roundtrip(p.ping_time as nat, 8);
    lemma_p256_values();
    let s = p.spec_encode().drop_first() + t;
    assert(s.subrange(0, 8) =~= be_bytes(p.ping_time as nat, 8));
}

} // verus!
