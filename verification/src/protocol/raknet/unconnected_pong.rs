//! The offline pong a server answers a ping with, carrying its MOTD string.

use vstd::prelude::*;
use vstd::utf8::{decode_utf8, encode_utf8, valid_utf8, encode_utf8_decode_utf8, encode_utf8_valid_utf8};
use vstd::string::StringSliceAdditionalSpecFns;
use crate::protocol::raknet::packet_ids::{ID_UNCONNECTED_PONG, MAGIC};
use crate::wire::{
    be_bytes, be_value, lemma_be_bytes_len, lemma_be_roundtrip, lemma_be_value_bound, lemma_p256_values, put_bytes,
    put_u16_be, put_u64_be, put_u8, utf8_to_string, ByteReader,
};

verus! {

pub struct UnconnectedPong {
    pub pong_time: u64,
    pub server_id: u64,
    pub server_name: String,
}

impl UnconnectedPong {
    pub fn create(pong_time: u64, server_id: u64, server_name: String) -> (r: UnconnectedPong)
        ensures
            r == (UnconnectedPong { pong_time, server_id, server_name }),
    {
        UnconnectedPong { pong_time, server_id, server_name }
    }

    /// Identifier, pong time, server id, the magic, the byte length of the
    /// name (big-endian, kept to 16 bits), then the name's UTF-8 bytes.
    pub open spec fn spec_encode(self) -> Seq<u8> {
        let name = encode_utf8(self.server_name@);
        seq![ID_UNCONNECTED_PONG] + be_bytes(self.pong_time as nat, 8) + be_bytes(
            self.server_id as nat,
            8,
        ) + MAGIC@ + be_bytes(name.len() % 0x10000, 2) + name
    }

    /// The fields read from the bytes after the identifier (the magic is
    /// skipped unchecked): pong time, server id, the characters of the name,
    /// and how many bytes they took. `None` when the bytes run out or the name
    /// is not well-formed UTF-8.
    pub open spec fn spec_decode(s: Seq<u8>) -> Option<(u64, u64, Seq<char>, nat)> {
        if s.len() < 34 {
            None
        } else {
            let len = be_value(s.subrange(32, 34));
            if s.len() < 34 + len {
                None
            } else {
                let name = s.subrange(34, 34 + len as int);
                if valid_utf8(name) {
                    Some(
                        (
                            be_value(s.subrange(0, 8)) as u64,
                            be_value(s.subrange(8, 16)) as u64,
                            decode_utf8(name),
                            34 + len,
                        ),
                    )
                } else {
                    None
                }
            }
        }
    }

    /// Replaces the contents of `stream` with the encoded message.
    pub fn encode(&self, stream: &mut Vec<u8>)
        ensures
            final(stream)@ == self.spec_encode(),
    {
        stream.clear();
        put_u8(stream, ID_UNCONNECTED_PONG);
        put_u64_be(stream, self.pong_time);
        put_u64_be(stream, self.server_id);
        put_bytes(stream, MAGIC.as_slice());
        let bytes = self.server_name.as_str().as_bytes();
        let len = bytes.len();
        put_u16_be(stream, (len % 0x10000) as u16);
        put_bytes(stream, bytes);
    }

    /// Reads the message that follows the identifier; on too short an input
    /// or a name that is not UTF-8 returns `None` and leaves `stream` as it was.
    /// A name that is not UTF-8 is malformed input, answered like any other:
    /// the reader never panics on what the network sends.
    pub fn decode(stream: &mut ByteReader) -> (r: Option<UnconnectedPong>)
        ensures
            match UnconnectedPong::spec_decode(old(stream).rest()) {
                Some((pong_time, server_id, name, n)) => r matches Some(p) && p.pong_time == pong_time
                    && p.server_id == server_id && p.server_name@ == name && final(stream).rest()
                    == old(stream).rest().skip(n as int),
                None => r is None && final(stream).rest() == old(stream).rest(),
            },
            ({
                let s = old(stream).rest();
                s.len() >= 34 && s.len() >= 34 + be_value(s.subrange(32, 34)) && !valid_utf8(
                    s.subrange(34, 34 + be_value(s.subrange(32, 34)) as int),
                )
            }) ==> r is None && final(stream).rest() == old(stream).rest(),
    {
        let mut cur = *stream;
        let ghost s = cur.rest();
        if cur.remaining_byte_count() < 34 {
            return None;
        }
        let pong_time = cur.get_u64_be().unwrap();
        let server_id = cur.get_u64_be().unwrap();
        let _ = cur.get(16);
        let len = cur.get_u16_be().unwrap();
        assert(s.take(8) =~= s.subrange(0, 8));
        assert(s.skip(8).take(8) =~= s.subrange(8, 16));
        assert(s.skip(8).skip(8).skip(16) =~= s.skip(32));
        assert(s.skip(32).take(2) =~= s.subrange(32, 34));
        assert(s.skip(32).skip(2) =~= s.skip(34));
        proof {
            lemma_be_value_bound(s.subrange(32, 34));
            lemma_p256_values();
        }
        let bytes = match cur.get(len as usize) {
            Some(b) => b,
            None => return None,
        };
        assert(s.skip(34).take(len as int) =~= s.subrange(34, 34 + len as int));
        assert(s.skip(34).skip(len as int) =~= s.skip(34 + len as int));
        let server_name = match utf8_to_string(bytes) {
            Some(name) => name,
            None => return None,
        };
        *stream = cur;
        Some(UnconnectedPong { pong_time, server_id, server_name })
    }
}

/// Decoding an encoded pong gives its fields back, whatever follows it, as
/// long as the name's UTF-8 encoding is shorter than 65536 bytes.
pub proof fn lemma_unconnected_pong_roundtrip(p: UnconnectedPong, t: Seq<u8>)
    requires
        encode_utf8(p.server_name@).len() < 0x10000,
    ensures
        UnconnectedPong::spec_decode(p.spec_encode().drop_first() + t) == Some(
            (
                p.pong_time,
                p.server_id,
                p.server_name@,
                34 + encode_utf8(p.server_name@).len(),
            ),
        ),
{
    let name = encode_utf8(p.server_name@);
    lemma_be_bytes_len(p.pong_time as nat, 8);
    lemma_be_roundtrip(p.pong_time as nat, 8);
    lemma_be_bytes_len(p.server_id as nat, 8);
    lemma_be_roundtrip(p.server_id as nat, 8);
    lemma_be_bytes_len(name.len() % 0x10000, 2);
    lemma_be_roundtrip(name.len() % 0x10000, 2);
    lemma_p256_values();
    encode_utf8_decode_utf8(p.server_name@);
    encode_utf8_valid_utf8(p.server_name@);
    let s = p.spec_encode().drop_first() + t;
    assert(s.subrange(0, 8) =~= be_bytes(p.pong_time as nat, 8));
    assert(s.subrange(8, 16) =~= be_bytes(p.server_id as nat, 8));
    assert(s.subrange(32, 34) =~= be_bytes(name.len() % 0x10000, 2));
    assert(s.subrange(34, 34 + name.len() as int) =~= name);
}

} // verus!
