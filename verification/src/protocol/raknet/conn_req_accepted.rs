//! The server's acceptance of a connection request.

use vstd::prelude::*;
use crate::protocol::raknet::packet_ids::ID_CONN_REQ_ACCEPTED;
use crate::utils::address::{
    address_bytes, address_valid, address_views, addresses_bytes, all_valid, get_addresses,
    lemma_address_roundtrip, lemma_addresses_roundtrip, parse_address, parse_addresses, put_addresses,
    InternetAddress, InternetAddressView,
};
use crate::wire::{
    be_bytes, be_value, lemma_be_bytes_len, lemma_be_roundtrip, lemma_p256_values, put_u16_be,
    put_u64_be, put_u8, ByteReader,
};

verus! {

/// How many system addresses the message carries.
pub const CONN_REQ_ACCEPTED_ADDRESSES: usize = 10;

pub struct ConnReqAccepted {
    pub client_address: InternetAddress,
    pub system_index: u16,
    pub system_addresses: Vec<InternetAddress>,
    pub ping_time: u64,
    pub pong_time: u64,
}

pub struct ConnReqAcceptedView {
    pub client_address: InternetAddressView,
    pub system_index: u16,
    pub system_addresses: Seq<InternetAddressView>,
    pub ping_time: u64,
    pub pong_time: u64,
}

impl View for ConnReqAccepted {
    type V = ConnReqAcceptedView;

    open spec fn view(&self) -> ConnReqAcceptedView {
        ConnReqAcceptedView {
            client_address: self.client_address@,
            system_index: self.system_index,
            system_addresses: address_views(self.system_addresses@),
            ping_time: self.ping_time,
            pong_time: self.pong_time,
        }
    }
}

/// The loopback address with no port, which stands in for system addresses
/// the message does not carry.
pub open spec fn loopback() -> InternetAddressView {
    InternetAddressView { version: 4, address: "127.0.0.1"@, port: 0 }
}

/// The identifier, the client address, the system index (16 bits), the
/// system addresses, then the ping and pong times (64 bits); integers
/// big-endian.
pub open spec fn conn_req_accepted_bytes(v: ConnReqAcceptedView) -> Seq<u8> {
    seq![ID_CONN_REQ_ACCEPTED] + address_bytes(v.client_address) + be_bytes(v.system_index as nat, 2)
        + addresses_bytes(v.system_addresses) + be_bytes(v.ping_time as nat, 8) + be_bytes(
        v.pong_time as nat,
        8,
    )
}

/// The message read from the bytes after the identifier, and what follows
/// it. The system addresses are read only when more than 16 bytes follow
/// the system index; else they are all `loopback`.
pub open spec fn parse_conn_req_accepted(s: Seq<u8>) -> Option<(ConnReqAcceptedView, Seq<u8>)> {
    match parse_address(s) {
        None => None,
        Some((client_address, s1)) => if s1.len() < 2 {
            None
        } else {
            let system_index = be_value(s1.subrange(0, 2)) as u16;
            let s2 = s1.skip(2);
            let read = if s2.len() > 16 {
                parse_addresses(s2, CONN_REQ_ACCEPTED_ADDRESSES as nat)
            } else {
                Some((Seq::new(CONN_REQ_ACCEPTED_ADDRESSES as nat, |i: int| loopback()), s2))
            };
            match read {
                None => None,
                Some((system_addresses, s3)) => if s3.len() < 16 {
                    None
                } else {
                    Some(
                        (
                            ConnReqAcceptedView {
                                client_address,
                                system_index,
                                system_addresses,
                                ping_time: be_value(s3.subrange(0, 8)) as u64,
                                pong_time: be_value(s3.subrange(8, 16)) as u64,
                            },
                            s3.skip(16),
                        ),
                    )
                },
            }
        },
    }
}

/// Every address can be written: the message can be encoded.
pub open spec fn conn_req_accepted_valid(v: ConnReqAcceptedView) -> bool {
    address_valid(v.client_address) && all_valid(v.system_addresses)
}

/// A message with ten valid system addresses, encoded, decodes back to
/// itself after its identifier, whatever follows it.
#[verifier::rlimit(30)]
pub proof fn lemma_conn_req_accepted_roundtrip(v: ConnReqAcceptedView, t: Seq<u8>)
    requires
        conn_req_accepted_valid(v),
        v.system_addresses.len() == CONN_REQ_ACCEPTED_ADDRESSES,
    ensures
        parse_conn_req_accepted(conn_req_accepted_bytes(v).drop_first() + t) == Some((v, t)),
{
    lemma_p256_values();
    lemma_be_bytes_len(v.system_index as nat, 2);
    lemma_be_roundtrip(v.system_index as nat, 2);
    lemma_be_bytes_len(v.ping_time as nat, 8);
    lemma_be_roundtrip(v.ping_time as nat, 8);
    lemma_be_bytes_len(v.pong_time as nat, 8);
    lemma_be_roundtrip(v.pong_time as nat, 8);
    let a = address_bytes(v.client_address);
    let i = be_bytes(v.system_index as nat, 2);
    let b = addresses_bytes(v.system_addresses);
    let c = be_bytes(v.ping_time as nat, 8) + be_bytes(v.pong_time as nat, 8) + t;
    let s1 = i + (b + c);
    assert(conn_req_accepted_bytes(v).drop_first() + t =~= a + s1);
    lemma_address_roundtrip(v.client_address, s1);
    assert(s1.subrange(0, 2) =~= i);
    assert(s1.skip(2) =~= b + c);
    lemma_addresses_roundtrip(v.system_addresses, c);
    assert((b + c).len() > 16);
    assert(c.subrange(0, 8) =~= be_bytes(v.ping_time as nat, 8));
    assert(c.subrange(8, 16) =~= be_bytes(v.pong_time as nat, 8));
    assert(c.skip(16) =~= t);
}

impl ConnReqAccepted {
    /// Whether every address can be written.
    pub fn is_valid(&self) -> (r: bool)
        ensures
            r == conn_req_accepted_valid(self@),
    {
        if !self.client_address.is_valid() {
            return false;
        }
        let mut i: usize = 0;
        while i < self.system_addresses.len()
            invariant
                i <= self.system_addresses@.len(),
                forall|j: int| 0 <= j < i ==> address_valid(#[trigger] address_views(self.system_addresses@)[j]),
            decreases self.system_addresses@.len() - i,
        {
            if !self.system_addresses[i].is_valid() {
                assert(!address_valid(address_views(self.system_addresses@)[i as int]));
                return false;
            }
            i = i + 1;
        }
        true
    }

    /// Replaces the contents of `stream` with the encoded message.
    pub fn encode(&self, stream: &mut Vec<u8>)
        requires
            conn_req_accepted_valid(self@),
        ensures
            final(stream)@ == conn_req_accepted_bytes(self@),
    {
        stream.clear();
        put_u8(stream, ID_CONN_REQ_ACCEPTED);
        self.client_address.put_address(stream);
        put_u16_be(stream, self.system_index);
        put_addresses(stream, &self.system_addresses);
        put_u64_be(stream, self.ping_time);
        put_u64_be(stream, self.pong_time);
        assert(stream@ =~= conn_req_accepted_bytes(self@));
    }

    /// Ten copies of the loopback address with no port.
    fn loopback_addresses() -> (r: Vec<InternetAddress>)
        ensures
            address_views(r@) == Seq::new(CONN_REQ_ACCEPTED_ADDRESSES as nat, |i: int| loopback()),
    {
        let mut out: Vec<InternetAddress> = Vec::new();
        let mut i: usize = 0;
        while i < CONN_REQ_ACCEPTED_ADDRESSES
            invariant
                i <= CONN_REQ_ACCEPTED_ADDRESSES,
                address_views(out@) == Seq::new(i as nat, |j: int| loopback()),
            decreases CONN_REQ_ACCEPTED_ADDRESSES - i,
        {
            let text = "127.0.0.1".to_owned();
            assert(text@ == "127.0.0.1"@);
            let a = InternetAddress::new(4, text, 0);
            assert(a@ == loopback());
            let ghost before = out@;
            out.push(a);
            assert(address_views(out@) =~= address_views(before).push(loopback()));
            i = i + 1;
            assert(address_views(out@) =~= Seq::new(i as nat, |j: int| loopback()));
        }
        out
    }

    /// Reads the message that follows the identifier; on too short or
    /// malformed an input returns `None` and leaves `stream` as it was.
    pub fn decode(stream: &mut ByteReader) -> (r: Option<ConnReqAccepted>)
        ensures
            match parse_conn_req_accepted(old(stream).rest()) {
                Some((v, rest)) => r matches Some(p) && p@ == v && final(stream).rest() == rest,
                None => r is None && final(stream).rest() == old(stream).rest(),
            },
    {
        let mut cur = *stream;
        let client_address = match InternetAddress::get_address(&mut cur) {
            Some(a) => a,
            None => return None,
        };
        let system_index = match cur.get_u16_be() {
            Some(v) => v,
            None => return None,
        };
        let ghost s1 = old(stream).rest().skip(address_bytes(client_address@).len() as int);
        let system_addresses = if cur.remaining_byte_count() > 16 {
            match get_addresses(&mut cur, CONN_REQ_ACCEPTED_ADDRESSES) {
                Some(a) => a,
                None => return None,
            }
        } else {
            Self::loopback_addresses()
        };
        let ghost s3 = cur.rest();
        if cur.remaining_byte_count() < 16 {
            return None;
        }
        let ping_time = cur.get_u64_be().unwrap();
        let pong_time = cur.get_u64_be().unwrap();
        assert(s3.take(8) =~= s3.subrange(0, 8));
        assert(s3.skip(8).take(8) =~= s3.subrange(8, 16));
        assert(s3.skip(8).skip(8) =~= s3.skip(16));
        *stream = cur;
        Some(ConnReqAccepted { client_address, system_index, system_addresses, ping_time, pong_time })
    }
}

} // verus!
