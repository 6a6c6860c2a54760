//! The server's answer to the second offline connection request.

use vstd::prelude::*;
use crate::protocol::raknet::packet_ids::ID_OPEN_CONN_REPLY2;
use crate::utils::address::{
    address_bytes, address_valid, lemma_address_roundtrip, parse_address, InternetAddress,
    InternetAddressView,
};
use crate::wire::{
    be_bytes, be_value, bool_byte, bytes_to_array16, lemma_be_bytes_len, lemma_be_roundtrip,
    lemma_p256_values, put_bool, put_bytes, put_u16_be, put_u64_be, put_u8, ByteReader,
};

verus! {

pub struct OpenConnReply2 {
    pub magic: [u8; 16],
    pub server_guid: u64,
    pub client_address: InternetAddress,
    pub mtu: u16,
    pub encryption_enabled: bool,
}

pub struct OpenConnReply2View {
    pub magic: Seq<u8>,
    pub server_guid: u64,
    pub client_address: InternetAddressView,
    pub mtu: u16,
    pub encryption_enabled: bool,
}

impl View for OpenConnReply2 {
    type V = OpenConnReply2View;

    open spec fn view(&self) -> OpenConnReply2View {
        OpenConnReply2View {
            magic: self.magic@,
            server_guid: self.server_guid,
            client_address: self.client_address@,
            mtu: self.mtu,
            encryption_enabled: self.encryption_enabled,
        }
    }
}

/// The identifier, the magic, the server GUID (64 bits), the client address,
/// the MTU (16 bits), then the encryption flag; integers big-endian.
pub open spec fn open_conn_reply2_bytes(v: OpenConnReply2View) -> Seq<u8> {
    seq![ID_OPEN_CONN_REPLY2] + v.magic + be_bytes(v.server_guid as nat, 8) + address_bytes(v.client_address)
        + be_bytes(v.mtu as nat, 2) + seq![bool_byte(v.encryption_enabled)]
}

/// The reply read from the bytes after the identifier, and what follows it.
pub open spec fn parse_open_conn_reply2(s: Seq<u8>) -> Option<(OpenConnReply2View, Seq<u8>)> {
    if s.len() < 24 {
        None
    } else {
        match parse_address(s.skip(24)) {
            None => None,
            Some((client_address, s1)) => if s1.len() < 3 {
                None
            } else {
                Some(
                    (
                        OpenConnReply2View {
                            magic: s.subrange(0, 16),
                            server_guid: be_value(s.subrange(16, 24)) as u64,
                            client_address,
                            mtu: be_value(s1.subrange(0, 2)) as u16,
                            encryption_enabled: s1[2] != 0,
                        },
                        s1.skip(3),
                    ),
                )
            },
        }
    }
}

/// A reply with a valid client address, encoded, decodes back to itself
/// after its identifier, whatever follows it.
pub proof fn lemma_open_conn_reply2_roundtrip(v: OpenConnReply2View, t: Seq<u8>)
    requires
        address_valid(v.client_address),
        v.magic.len() == 16,
    ensures
        parse_open_conn_reply2(open_conn_reply2_bytes(v).drop_first() + t) == Some((v, t)),
{
    lemma_p256_values();
    lemma_be_bytes_len(v.server_guid as nat, 8);
    lemma_be_roundtrip(v.server_guid as nat, 8);
    lemma_be_bytes_len(v.mtu as nat, 2);
    lemma_be_roundtrip(v.mtu as nat, 2);
    let s = open_conn_reply2_bytes(v).drop_first() + t;
    let tail = be_bytes(v.mtu as nat, 2) + seq![bool_byte(v.encryption_enabled)] + t;
    assert(s.subrange(0, 16) =~= v.magic);
    assert(s.subrange(16, 24) =~= be_bytes(v.server_guid as nat, 8));
    assert(s.skip(24) =~= address_bytes(v.client_address) + tail);
    lemma_address_roundtrip(v.client_address, tail);
    assert(tail.subrange(0, 2) =~= be_bytes(v.mtu as nat, 2));
    assert(tail.skip(3) =~= t);
}

impl OpenConnReply2 {
    /// Replaces the contents of `stream` with the encoded reply.
    pub fn encode(&self, stream: &mut Vec<u8>)
        requires
            address_valid(self.client_address@),
        ensures
            final(stream)@ == open_conn_reply2_bytes(self@),
    {
        stream.clear();
        put_u8(stream, ID_OPEN_CONN_REPLY2);
        put_bytes(stream, self.magic.as_slice());
        put_u64_be(stream, self.server_guid);
        self.client_address.put_address(stream);
        put_u16_be(stream, self.mtu);
        put_bool(stream, self.encryption_enabled);
        assert(stream@ =~= open_conn_reply2_bytes(self@));
    }

    /// Reads the reply that follows the identifier; on too short or
    /// malformed an input returns `None` and leaves `stream` as it was.
    pub fn decode(stream: &mut ByteReader) -> (r: Option<OpenConnReply2>)
        ensures
            match parse_open_conn_reply2(old(stream).rest()) {
                Some((v, rest)) => r matches Some(p) && p@ == v && final(stream).rest() == rest,
                None => r is None && final(stream).rest() == old(stream).rest(),
            },
    {
        if stream.remaining_byte_count() < 24 {
            return None;
        }
        let ghost s = stream.rest();
        let mut cur = *stream;
        let magic_bytes = cur.get(16).unwrap();
        let magic = bytes_to_array16(&magic_bytes);
        let server_guid = cur.get_u64_be().unwrap();
        assert(s.skip(16).take(8) =~= s.subrange(16, 24));
        assert(s.skip(16).skip(8) =~= s.skip(24));
        let client_address = match InternetAddress::get_address(&mut cur) {
            Some(a) => a,
            None => return None,
        };
        let ghost s1 = cur.rest();
        if cur.remaining_byte_count() < 3 {
            return None;
        }
        let mtu = cur.get_u16_be().unwrap();
        let encryption_enabled = cur.get_bool().unwrap();
        assert(s1.take(2) =~= s1.subrange(0, 2));
        assert(s1.skip(2).skip(1) =~= s1.skip(3));
        *stream = cur;
        Some(OpenConnReply2 { magic, server_guid, client_address, mtu, encryption_enabled })
    }
}

} // verus!
