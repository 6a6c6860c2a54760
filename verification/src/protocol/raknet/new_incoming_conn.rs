//! The message a client sends once the server has accepted its connection.

use vstd::prelude::*;
use crate::protocol::raknet::packet_ids::ID_NEW_INCOMING_CONN;
use crate::utils::address::{
    address_bytes, address_valid, address_views, addresses_bytes, all_valid, get_addresses,
    lemma_address_roundtrip, lemma_addresses_roundtrip, parse_address, parse_addresses, put_addresses,
    InternetAddress, InternetAddressView,
};
use crate::wire::{
    be_bytes, be_value, lemma_be_bytes_len, lemma_be_roundtrip, lemma_p256_values, put_u64_be, put_u8,
    ByteReader,
};

verus! {

/// How many system addresses the message carries.
pub const NEW_INCOMING_CONN_ADDRESSES: usize = 20;

pub struct NewIncomingConn {
    pub server_address: InternetAddress,
    pub system_addresses: Vec<InternetAddress>,
    pub ping_time: u64,
    pub pong_time: u64,
}

pub struct NewIncomingConnView {
    pub server_address: InternetAddressView,
    pub system_addresses: Seq<InternetAddressView>,
    pub ping_time: u64,
    pub pong_time: u64,
}

impl View for NewIncomingConn {
    type V = NewIncomingConnView;

    open spec fn view(&self) -> NewIncomingConnView {
        NewIncomingConnView {
            server_address: self.server_address@,
            system_addresses: address_views(self.system_addresses@),
            ping_time: self.ping_time,
            pong_time: self.pong_time,
        }
    }
}

/// The identifier, the server address, the system addresses, then the ping
/// and pong times (64 bits, big-endian).
pub open spec fn new_incoming_conn_bytes(v: NewIncomingConnView) -> Seq<u8> {
    seq![ID_NEW_INCOMING_CONN] + address_bytes(v.server_address) + addresses_bytes(v.system_addresses)
        + be_bytes(v.ping_time as nat, 8) + be_bytes(v.pong_time as nat, 8)
}

/// The message read from the bytes after the identifier, and what follows it.
pub open spec fn parse_new_incoming_conn(s: Seq<u8>) -> Option<(NewIncomingConnView, Seq<u8>)> {
    match parse_address(s) {
        None => None,
        Some((server_address, s1)) => match parse_addresses(s1, NEW_INCOMING_CONN_ADDRESSES as nat) {
            None => None,
            Some((system_addresses, s2)) => if s2.len() < 16 {
                None
            } else {
                Some(
                    (
                        NewIncomingConnView {
                            server_address,
                            system_addresses,
                            ping_time: be_value(s2.subrange(0, 8)) as u64,
                            pong_time: be_value(s2.subrange(8, 16)) as u64,
                        },
                        s2.skip(16),
                    ),
                )
            },
        },
    }
}

/// Every address can be written: the message can be encoded.
pub open spec fn new_incoming_conn_valid(v: NewIncomingConnView) -> bool {
    address_valid(v.server_address) && all_valid(v.system_addresses)
}

/// A message with twenty valid system addresses, encoded, decodes back to
/// itself after its identifier, whatever follows it.
pub proof fn lemma_new_incoming_conn_roundtrip(v: NewIncomingConnView, t: Seq<u8>)
    requires
        new_incoming_conn_valid(v),
        v.system_addresses.len() == NEW_INCOMING_CONN_ADDRESSES,
    ensures
        parse_new_incoming_conn(new_incoming_conn_bytes(v).drop_first() + t) == Some((v, t)),
{
    lemma_p256_values();
    lemma_be_bytes_len(v.ping_time as nat, 8);
    lemma_be_roundtrip(v.ping_time as nat, 8);
    lemma_be_bytes_len(v.pong_time as nat, 8);
    lemma_be_roundtrip(v.pong_time as nat, 8);
    let a = address_bytes(v.server_address);
    let b = addresses_bytes(v.system_addresses);
    let c = be_bytes(v.ping_time as nat, 8) + be_bytes(v.pong_time as nat, 8) + t;
    assert(new_incoming_conn_bytes(v).drop_first() + t =~= a + (b + c));
    lemma_address_roundtrip(v.server_address, b + c);
    lemma_addresses_roundtrip(v.system_addresses, c);
    assert(c.subrange(0, 8) =~= be_bytes(v.ping_time as nat, 8));
    assert(c.subrange(8, 16) =~= be_bytes(v.pong_time as nat, 8));
    assert(c.skip(16) =~= t);
}

impl NewIncomingConn {
    pub fn new(
        server_address: InternetAddress,
        system_addresses: Vec<InternetAddress>,
        ping_time: u64,
        pong_time: u64,
    ) -> (r: NewIncomingConn)
        ensures
            r == (NewIncomingConn { server_address, system_addresses, ping_time, pong_time }),
    {
        NewIncomingConn { server_address, system_addresses, ping_time, pong_time }
    }

    /// Whether every address can be written.
    pub fn is_valid(&self) -> (r: bool)
        ensures
            r == new_incoming_conn_valid(self@),
    {
        if !self.server_address.is_valid() {
            return false;
        }
        let mut i: usize = 0;
        while i < self.system_addresses.len()
            invariant
                i <= self.system_addresses@.len(),
                forall|j: int| 0 <= j < i ==> address_valid(#[trigger] address_views(self.system_addresses@)[j]),
            decreases self.system_addresses@.len() - i,
        {
            if !self.system_addresses[i].is_valid() {
                assert(!address_valid(address_views(self.system_addresses@)[i as int]));
                return false;
            }
            i = i + 1;
        }
        true
    }

    /// Replaces the contents of `stream` with the encoded message.
    pub fn encode(&self, stream: &mut Vec<u8>)
        requires
            new_incoming_conn_valid(self@),
        ensures
            final(stream)@ == new_incoming_conn_bytes(self@),
    {
        stream.clear();
        put_u8(stream, ID_NEW_INCOMING_CONN);
        self.server_address.put_address(stream);
        put_addresses(stream, &self.system_addresses);
        put_u64_be(stream, self.ping_time);
        put_u64_be(stream, self.pong_time);
        assert(stream@ =~= new_incoming_conn_bytes(self@));
    }

    /// Reads the message that follows the identifier; on too short or
    /// malformed an input returns `None` and leaves `stream` as it was.
    pub fn decode(stream: &mut ByteReader) -> (r: Option<NewIncomingConn>)
        ensures
            match parse_new_incoming_conn(old(stream).rest()) {
                Some((v, rest)) => r matches Some(p) && p@ == v && final(stream).rest() == rest,
                None => r is None && final(stream).rest() == old(stream).rest(),
            },
    {
        let mut cur = *stream;
        let server_address = match InternetAddress::get_address(&mut cur) {
            Some(a) => a,
            None => return None,
        };
        let system_addresses = match get_addresses(&mut cur, NEW_INCOMING_CONN_ADDRESSES) {
            Some(a) => a,
            None => return None,
        };
        let ghost s2 = cur.rest();
        if cur.remaining_byte_count() < 16 {
            return None;
        }
        let ping_time = cur.get_u64_be().unwrap();
        let pong_time = cur.get_u64_be().unwrap();
        assert(s2.take(8) =~= s2.subrange(0, 8));
        assert(s2.skip(8).take(8) =~= s2.subrange(8, 16));
        assert(s2.skip(8).skip(8) =~= s2.skip(16));
        *stream = cur;
        Some(NewIncomingConn { server_address, system_addresses, ping_time, pong_time })
    }
}

} // verus!
