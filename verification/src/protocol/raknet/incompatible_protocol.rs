//! The server's answer to a client that speaks another RakNet protocol version.

use vstd::prelude::*;
use crate::protocol::raknet::packet_ids::ID_INCOMPATIBLE_PROTOCOL;
use crate::wire::{
    be_bytes, be_value, bytes_to_array16, lemma_be_bytes_len, lemma_be_roundtrip,
    lemma_p256_values, put_bytes, put_u64_be, put_u8, ByteReader,
};

verus! {

pub struct IncompatibleProtocol {
    pub server_protocol: u8,
    pub magic: [u8; 16],
    pub server_guid: u64,
}

impl IncompatibleProtocol {
    pub fn new(server_protocol: u8, magic: [u8; 16], server_guid: u64) -> (r: IncompatibleProtocol)
        ensures
            r == (IncompatibleProtocol { server_protocol, magic, server_guid }),
    {
        IncompatibleProtocol { server_protocol, magic, server_guid }
    }

    /// Identifier, protocol version, magic, then the server GUID (big-endian).
    pub open spec fn spec_encode(self) -> Seq<u8> {
        seq![ID_INCOMPATIBLE_PROTOCOL, self.server_protocol] + self.magic@ + be_bytes(
            self.server_guid as nat,
            8,
        )
    }

    /// The fields read from the bytes after the identifier: protocol, magic,
    /// GUID, and how many bytes they took.
    pub open spec fn spec_decode(s: Seq<u8>) -> Option<(u8, Seq<u8>, u64, nat)> {
        if s.len() < 25 {
            None
        } else {
            Some((s[0], s.subrange(1, 17), be_value(s.subrange(17, 25)) as u64, 25))
        }
    }

    /// Replaces the contents of `stream` with the encoded message.
    pub fn encode(&self, stream: &mut Vec<u8>)
        ensures
            final(stream)@ == self.spec_encode(),
    {
        stream.clear();
        put_u8(stream, ID_INCOMPATIBLE_PROTOCOL);
        put_u8(stream, self.server_protocol);
        put_bytes(stream, self.magic.as_slice());
        put_u64_be(stream, self.server_guid);
        assert(stream@ =~= self.spec_encode());
    }

    /// Reads the message that follows the identifier; on too short an input
    /// returns `None` and leaves `stream` as it was.
    pub fn decode(stream: &mut ByteReader) -> (r: Option<IncompatibleProtocol>)
        ensures
            match IncompatibleProtocol::spec_decode(old(stream).rest()) {
                Some((protocol, magic, guid, n)) => r matches Some(p) && p.server_protocol == protocol
                    && p.magic@ == magic && p.server_guid == guid && final(stream).rest() == old(
                    stream,
                ).rest().skip(n as int),
                None => r is None && final(stream).rest() == old(stream).rest(),
            },
    {
        if stream.remaining_byte_count() < 25 {
            return None;
        }
        let ghost s = stream.rest();
        let server_protocol = stream.get_u8().unwrap();
        let magic_bytes = stream.get(16).unwrap();
        let magic = bytes_to_array16(&magic_bytes);
        let server_guid = stream.get_u64_be().unwrap();
        assert(s.skip(1).take(16) =~= s.subrange(1, 17));
        assert(s.skip(1).skip(16) =~= s.skip(17));
        assert(s.skip(17).take(8) =~= s.subrange(17, 25));
        assert(s.skip(17).skip(8) =~= s.skip(25));
        Some(IncompatibleProtocol { server_protocol, magic, server_guid })
    }
}

/// Decoding an encoded message, whatever follows it, gives its fields back.
pub proof fn lemma_incompatible_protocol_roundtrip(p: IncompatibleProtocol, t: Seq<u8>)
    ensures
        IncompatibleProtocol::spec_decode(p.spec_encode().drop_first() + t) == Some(
            (p.server_protocol, p.magic@, p.server_guid, 25nat),
        ),
{
    lemma_be_bytes_len(p.server_guid as nat, 8);
    lemma_be_roundtrip(p.server_guid as nat, 8);
    lemma_p256_values();
    let s = p.spec_encode().drop_first() + t;
    assert(s.subrange(1, 17) =~= p.magic@);
    assert(s.subrange(17, 25) =~= be_bytes(p.server_guid as nat, 8));
}

} // verus!
