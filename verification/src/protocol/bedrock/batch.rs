//! The body of a game message once it is decompressed and decrypted: the
//! game packets one after the other, each as a byte string (its length as a
//! variable-length integer, then its bytes).

use vstd::prelude::*;
use crate::protocol::bedrock::serializer::packet_serializer::{
    byte_string_bytes, lemma_byte_string_roundtrip, parse_byte_string, PacketSerializer,
};
use crate::wire::{lemma_varint_parse_bound, ByteReader};

verus! {

/// The packets of a batch, in order; `None` where the bytes do not split
/// into whole byte strings.
pub open spec fn parse_batch(s: Seq<u8>) -> Option<Seq<Seq<u8>>>
    decreases s.len(),
{
    if s.len() == 0 {
        Some(Seq::empty())
    } else {
        match parse_byte_string(s) {
            None => None,
            Some((b, m)) => if 1 <= m <= s.len() {
                match parse_batch(s.skip(m as int)) {
                    None => None,
                    Some(rest) => Some(seq![b] + rest),
                }
            } else {
                None
            },
        }
    }
}

/// The packets written one after the other.
pub open spec fn batch_bytes(ps: Seq<Seq<u8>>) -> Seq<u8>
    decreases ps.len(),
{
    if ps.len() == 0 {
        Seq::empty()
    } else {
        byte_string_bytes(ps[0]) + batch_bytes(ps.drop_first())
    }
}

/// A byte string takes at least one byte and no more than there are, so
/// the bound in `parse_batch` always holds.
pub proof fn lemma_byte_string_takes(s: Seq<u8>)
    ensures
        parse_byte_string(s) matches Some((b, m)) ==> 1 <= m <= s.len(),
{
    lemma_varint_parse_bound(s, 5);
}

/// Packets shorter than 2^32 bytes, written one after the other, split back
/// into the same packets.
pub proof fn lemma_batch_roundtrip(ps: Seq<Seq<u8>>)
    requires
        forall|i: int| 0 <= i < ps.len() ==> (#[trigger] ps[i]).len() < 0x1_0000_0000,
    ensures
        parse_batch(batch_bytes(ps)) == Some(ps),
    decreases ps.len(),
{
    if ps.len() > 0 {
        let rest = ps.drop_first();
        assert forall|i: int| 0 <= i < rest.len() implies (#[trigger] rest[i]).len() < 0x1_0000_0000 by {
            assert(rest[i] == ps[i + 1]);
        }
        lemma_batch_roundtrip(rest);
        let t = batch_bytes(rest);
        let s = batch_bytes(ps);
        assert(ps[0].len() < 0x1_0000_0000);
        lemma_byte_string_roundtrip(ps[0], t);
        lemma_byte_string_takes(s);
        let m = byte_string_bytes(ps[0]).len();
        assert(s.skip(m as int) =~= t);
        assert(seq![ps[0]] + rest =~= ps);
    }
}

/// Splits a batch into its packets; `None` where the bytes do not split
/// into whole byte strings.
pub fn split_batch(body: &[u8]) -> (r: Option<Vec<Vec<u8>>>)
    ensures
        match parse_batch(body@) {
            Some(ps) => r matches Some(v) && v@.map_values(|p: Vec<u8>| p@) == ps,
            None => r is None,
        },
{
    let mut cur = ByteReader::new(body);
    let mut out: Vec<Vec<u8>> = Vec::new();
    assert(out@.map_values(|p: Vec<u8>| p@) =~= Seq::<Seq<u8>>::empty());
    while !cur.feof()
        invariant
            parse_batch(body@) == match parse_batch(cur.rest()) {
                Some(rest) => Some(out@.map_values(|p: Vec<u8>| p@) + rest),
                None => None,
            },
        decreases cur.rest().len(),
    {
        let ghost s = cur.rest();
        proof {
            lemma_byte_string_takes(s);
        }
        match PacketSerializer::get_byte_string(&mut cur) {
            Some(p) => {
                let ghost before = out@.map_values(|q: Vec<u8>| q@);
                out.push(p);
                assert(out@.map_values(|q: Vec<u8>| q@) =~= before.push(p@));
                proof {
                    if let Some(rest) = parse_batch(cur.rest()) {
                        assert(before + (seq![p@] + rest) =~= before.push(p@) + rest);
                    }
                }
            },
            None => {
                return None;
            },
        }
    }
    assert(out@.map_values(|p: Vec<u8>| p@) + Seq::<Seq<u8>>::empty() =~= out@.map_values(
        |p: Vec<u8>| p@,
    ));
    Some(out)
}

} // verus!
