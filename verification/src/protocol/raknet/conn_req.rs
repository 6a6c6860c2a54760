//! The connection request a client sends once the offline handshake is done.

use vstd::prelude::*;
use crate::protocol::raknet::packet_ids::ID_CONN_REQ;
use crate::wire::{
    be_bytes, be_value, bool_byte, lemma_be_bytes_len, lemma_be_roundtrip, lemma_p256_values, put_bool,
    put_u64_be, put_u8, ByteReader,
};

verus! {

pub struct ConnReq {
    pub client_guid: u64,
    pub request_time: u64,
    pub secure: bool,
}

impl ConnReq {
    pub fn new(client_guid: u64, request_time: u64, secure: bool) -> (r: ConnReq)
        ensures
            r == (ConnReq { client_guid, request_time, secure }),
    {
        ConnReq { client_guid, request_time, secure }
    }

    /// Identifier, GUID and request time (big-endian), then the security flag.
    pub open spec fn spec_encode(self) -> Seq<u8> {
        seq![ID_CONN_REQ] + be_bytes(self.client_guid as nat, 8) + be_bytes(self.request_time as nat, 8)
            + seq![bool_byte(self.secure)]
    }

    /// The message read from the bytes after the identifier, and how many bytes it took.
    pub open spec fn spec_decode(s: Seq<u8>) -> Option<(ConnReq, nat)> {
        if s.len() < 17 {
            None
        } else {
            Some((ConnReq {
                client_guid: be_value(s.subrange(0, 8)) as u64,
                request_time: be_value(s.subrange(8, 16)) as u64,
                secure: s[16] != 0,
            }, 17))
        }
    }

    /// Replaces the contents of `stream` with the encoded message.
    pub fn encode(&self, stream: &mut Vec<u8>)
        ensures
            final(stream)@ == self.spec_encode(),
    {
        stream.clear();
        put_u8(stream, ID_CONN_REQ);
        put_u64_be(stream, self.client_guid);
        put_u64_be(stream, self.request_time);
        put_bool(stream, self.secure);
    }

    /// Reads the message that follows the identifier; on too short an input
    /// returns `None` and leaves `stream` as it was.
    pub fn decode(stream: &mut ByteReader) -> (r: Option<ConnReq>)
        ensures
            match ConnReq::spec_decode(old(stream).rest()) {
                Some((p, n)) => r == Some(p) && final(stream).rest() == old(stream).rest().skip(n as int),
                None => r is None && final(stream).rest() == old(stream).rest(),
            },
    {
        if stream.remaining_byte_count() < 17 {
            return None;
        }
        let ghost s = stream.rest();
        let client_guid = stream.get_u64_be().unwrap();
        let request_time = stream.get_u64_be().unwrap();
        let secure = stream.get_bool().unwrap();
        assert(s.skip(8).take(8) =~= s.subrange(8, 16));
        assert(s.skip(8).skip(8) =~= s.skip(16));
        assert(s.skip(16).skip(1) =~= s.skip(17));
        assert(s.take(8) =~= s.subrange(0, 8));
        Some(ConnReq { client_guid, request_time, secure })
    }
}

/// Decoding an encoded connection request, whatever follows it, gives the
/// request back.
pub proof fn lemma_conn_req_roundtrip(p: ConnReq, t: Seq<u8>)
    ensures
        ConnReq::spec_decode(p.spec_encode().drop_first() + t) == Some((p, 17nat)),
{
    let a = be_bytes(p.client_guid as nat, 8);
    let b = be_bytes(p.request_time as nat, 8);
    lemma_be_bytes_len(p.client_guid as nat, 8);
    lemma_be_bytes_len(p.request_time as nat, 8);
    lemma_be_roundtrip(p.client_guid as nat, 8);
    lemma_be_roundtrip(p.request_time as nat, 8);
    lemma_p256_values();
    let s = p.spec_encode().drop_first() + t;
    assert(s.subrange(0, 8) =~= a);
    assert(s.subrange(8, 16) =~= b);
    assert(s[16] == bool_byte(p.secure));
}

} // verus!
