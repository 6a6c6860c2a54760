//! The server's answer to the first offline connection request.

use vstd::prelude::*;
use crate::protocol::raknet::packet_ids::ID_OPEN_CONN_REPLY1;
use crate::wire::{
    be_bytes, be_value, bool_byte, bytes_to_array16, lemma_be_bytes_len, lemma_be_roundtrip,
    lemma_be_value_bound, lemma_p256_values, put_bool, put_bytes, put_u16_be, put_u32_be,
    put_u64_be, put_u8, ByteReader,
};

verus! {

pub struct OpenConnReply1 {
    pub magic: [u8; 16],
    pub server_guid: u64,
    pub server_security: bool,
    pub cookie: Option<u32>,
    pub mtu: u16,
}

impl OpenConnReply1 {
    /// Identifier, magic, server GUID, security flag, the cookie when there
    /// is one, then the MTU (integers big-endian).
    pub open spec fn spec_encode(self) -> Seq<u8> {
        seq![ID_OPEN_CONN_REPLY1] + self.magic@ + be_bytes(self.server_guid as nat, 8) + seq![
            bool_byte(self.server_security),
        ] + match self.cookie {
            Some(c) => be_bytes(c as nat, 4),
            None => Seq::empty(),
        } + be_bytes(self.mtu as nat, 2)
    }

    /// The fields read from the bytes after the identifier: magic, GUID,
    /// security flag, the cookie (read exactly when the flag is set), MTU,
    /// and how many bytes they took.
    pub open spec fn spec_decode(s: Seq<u8>) -> Option<(Seq<u8>, u64, bool, Option<u32>, u16, nat)> {
        if s.len() < 25 {
            None
        } else if s[24] != 0 {
            if s.len() < 31 {
                None
            } else {
                Some(
                    (
                        s.subrange(0, 16),
                        be_value(s.subrange(16, 24)) as u64,
                        true,
                        Some(be_value(s.subrange(25, 29)) as u32),
                        be_value(s.subrange(29, 31)) as u16,
                        31,
                    ),
                )
            }
        } else if s.len() < 27 {
            None
        } else {
            Some(
                (
                    s.subrange(0, 16),
                    be_value(s.subrange(16, 24)) as u64,
                    false,
                    None,
                    be_value(s.subrange(25, 27)) as u16,
                    27,
                ),
            )
        }
    }

    /// Replaces the contents of `stream` with the encoded reply.
    pub fn encode(&self, stream: &mut Vec<u8>)
        ensures
            final(stream)@ == self.spec_encode(),
    {
        stream.clear();
        put_u8(stream, ID_OPEN_CONN_REPLY1);
        put_bytes(stream, self.magic.as_slice());
        put_u64_be(stream, self.server_guid);
        put_bool(stream, self.server_security);
        if let Some(cookie) = self.cookie {
            put_u32_be(stream, cookie);
        }
        put_u16_be(stream, self.mtu);
        assert(stream@ =~= self.spec_encode());
    }

    /// Reads the reply that follows the identifier; on too short an input
    /// returns `None` and leaves `stream` as it was.
    pub fn decode(stream: &mut ByteReader) -> (r: Option<OpenConnReply1>)
        ensures
            match OpenConnReply1::spec_decode(old(stream).rest()) {
                Some((magic, guid, security, cookie, mtu, n)) => r matches Some(p) && p.magic@ == magic
                    && p.server_guid == guid && p.server_security == security && p.cookie == cookie
                    && p.mtu == mtu && final(stream).rest() == old(stream).rest().skip(n as int),
                None => r is None && final(stream).rest() == old(stream).rest(),
            },
    {
        if stream.remaining_byte_count() < 25 {
            return None;
        }
        let ghost s = stream.rest();
        let mut cur = *stream;
        let magic_bytes = cur.get(16).unwrap();
        let magic = bytes_to_array16(&magic_bytes);
        let server_guid = cur.get_u64_be().unwrap();
        let server_security = cur.get_bool().unwrap();
        assert(s.skip(16).take(8) =~= s.subrange(16, 24));
        assert(s.skip(16).skip(8) =~= s.skip(24));
        assert(s.skip(24).skip(1) =~= s.skip(25));
        let mut cookie: Option<u32> = None;
        if server_security {
            match cur.get_u32_be() {
                Some(c) => {
                    cookie = Some(c);
                },
                None => return None,
            }
            assert(s.skip(25).take(4) =~= s.subrange(25, 29));
            assert(s.skip(25).skip(4) =~= s.skip(29));
        }
        let mtu = match cur.get_u16_be() {
            Some(m) => m,
            None => return None,
        };
        if server_security {
            assert(s.skip(29).take(2) =~= s.subrange(29, 31));
            assert(s.skip(29).skip(2) =~= s.skip(31));
        } else {
            assert(s.skip(25).take(2) =~= s.subrange(25, 27));
            assert(s.skip(25).skip(2) =~= s.skip(27));
        }
        *stream = cur;
        Some(OpenConnReply1 { magic, server_guid, server_security, cookie, mtu })
    }
}

/// Decoding an encoded reply, whatever follows it, gives its fields back when
/// the cookie is present exactly when the security flag is set.
pub proof fn lemma_open_conn_reply1_roundtrip(p: OpenConnReply1, t: Seq<u8>)
    requires
        p.cookie is Some <==> p.server_security,
    ensures
        OpenConnReply1::spec_decode(p.spec_encode().drop_first() + t) == Some(
            (
                p.magic@,
                p.server_guid,
                p.server_security,
                p.cookie,
                p.mtu,
                (if p.server_security { 31nat } else { 27nat }),
            ),
        ),
{
    lemma_be_bytes_len(p.server_guid as nat, 8);
    lemma_be_roundtrip(p.server_guid as nat, 8);
    lemma_be_bytes_len(p.mtu as nat, 2);
    lemma_be_roundtrip(p.mtu as nat, 2);
    lemma_p256_values();
    let s = p.spec_encode().drop_first() + t;
    assert(s.subrange(0, 16) =~= p.magic@);
    assert(s.subrange(16, 24) =~= be_bytes(p.server_guid as nat, 8));
    if let Some(c) = p.cookie {
        lemma_be_bytes_len(c as nat, 4);
        lemma_be_roundtrip(c as nat, 4);
        assert(s.subrange(25, 29) =~= be_bytes(c as nat, 4));
        assert(s.subrange(29, 31) =~= be_bytes(p.mtu as nat, 2));
    } else {
        assert(s.subrange(25, 27) =~= be_bytes(p.mtu as nat, 2));
    }
}

} // verus!
