//! Acknowledgements (ACK) and requests to resend (NACK) of datagrams, one
//! record each: a single sequence number or an inclusive range of them.

use vstd::prelude::*;
use crate::wire::{
    be_bytes, be_value, bool_byte, le_bytes, le_value, lemma_be_bytes_len, lemma_be_roundtrip,
    lemma_le_bytes_len, lemma_le_roundtrip, lemma_p256_values, put_bool, put_u16_be, put_u24_le,
    put_u8, ByteReader,
};

verus! {

pub struct Acknowledge {
    /// `ID_ACK` or `ID_NACK`.
    pub packet_type: u8,
    pub record_count: u16,
    pub single: bool,
    pub sequence_number: Option<u32>,
    pub start_index: Option<u32>,
    pub end_index: Option<u32>,
}

/// The record holds what it says it holds: a sequence number when single,
/// a start and an end otherwise.
pub open spec fn acknowledge_complete(a: Acknowledge) -> bool {
    if a.single { a.sequence_number is Some } else { a.start_index is Some && a.end_index is Some }
}

/// The type, the record count (16 bits, big-endian), the single flag, then
/// the sequence number or the start and end (24 bits each, little-endian).
pub open spec fn acknowledge_bytes(a: Acknowledge) -> Seq<u8> {
    seq![a.packet_type] + be_bytes(a.record_count as nat, 2) + seq![bool_byte(a.single)] + if a.single {
        le_bytes(a.sequence_number.unwrap() as nat, 3)
    } else {
        le_bytes(a.start_index.unwrap() as nat, 3) + le_bytes(a.end_index.unwrap() as nat, 3)
    }
}

/// The message at the start of `s`, type byte included, and what follows it.
pub open spec fn parse_acknowledge(s: Seq<u8>) -> Option<(Acknowledge, Seq<u8>)> {
    if s.len() < 7 {
        None
    } else {
        let packet_type = s[0];
        let record_count = be_value(s.subrange(1, 3)) as u16;
        if s[3] != 0 {
            Some(
                (
                    Acknowledge {
                        packet_type,
                        record_count,
                        single: true,
                        sequence_number: Some(le_value(s.subrange(4, 7)) as u32),
                        start_index: None,
                        end_index: None,
                    },
                    s.skip(7),
                ),
            )
        } else if s.len() < 10 {
            None
        } else {
            Some(
                (
                    Acknowledge {
                        packet_type,
                        record_count,
                        single: false,
                        sequence_number: None,
                        start_index: Some(le_value(s.subrange(4, 7)) as u32),
                        end_index: Some(le_value(s.subrange(7, 10)) as u32),
                    },
                    s.skip(10),
                ),
            )
        }
    }
}

/// The message for one range of sequence numbers: single when it holds one.
pub open spec fn range_acknowledge(packet_type: u8, range: (u32, u32)) -> Acknowledge {
    if range.0 == range.1 {
        Acknowledge {
            packet_type,
            record_count: 1,
            single: true,
            sequence_number: Some(range.0),
            start_index: None,
            end_index: None,
        }
    } else {
        Acknowledge {
            packet_type,
            record_count: 1,
            single: false,
            sequence_number: None,
            start_index: Some(range.0),
            end_index: Some(range.1),
        }
    }
}

/// A complete message whose numbers fit 24 bits, encoded, decodes back to
/// itself, whatever follows it.
pub proof fn lemma_acknowledge_roundtrip(a: Acknowledge, t: Seq<u8>)
    requires
        acknowledge_complete(a),
        a.sequence_number matches Some(n) ==> n < 0x100_0000,
        a.start_index matches Some(n) ==> n < 0x100_0000,
        a.end_index matches Some(n) ==> n < 0x100_0000,
        a.single ==> a.start_index is None && a.end_index is None,
        !a.single ==> a.sequence_number is None,
    ensures
        parse_acknowledge(acknowledge_bytes(a) + t) == Some((a, t)),
{
    lemma_p256_values();
    lemma_be_bytes_len(a.record_count as nat, 2);
    lemma_be_roundtrip(a.record_count as nat, 2);
    let s = acknowledge_bytes(a) + t;
    assert(s.subrange(1, 3) =~= be_bytes(a.record_count as nat, 2));
    if a.single {
        let n = a.sequence_number.unwrap() as nat;
        lemma_le_bytes_len(n, 3);
        lemma_le_roundtrip(n, 3);
        assert(s.subrange(4, 7) =~= le_bytes(n, 3));
        assert(s.skip(7) =~= t);
    } else {
        let x = a.start_index.unwrap() as nat;
        let y = a.end_index.unwrap() as nat;
        lemma_le_bytes_len(x, 3);
        lemma_le_roundtrip(x, 3);
        lemma_le_bytes_len(y, 3);
        lemma_le_roundtrip(y, 3);
        assert(s.subrange(4, 7) =~= le_bytes(x, 3));
        assert(s.subrange(7, 10) =~= le_bytes(y, 3));
        assert(s.skip(10) =~= t);
    }
}

impl Acknowledge {
    pub fn create(
        packet_type: u8,
        record_count: u16,
        single: bool,
        sequence_number: Option<u32>,
        start_index: Option<u32>,
        end_index: Option<u32>,
    ) -> (r: Acknowledge)
        ensures
            r == (Acknowledge { packet_type, record_count, single, sequence_number, start_index, end_index }),
    {
        Acknowledge { packet_type, record_count, single, sequence_number, start_index, end_index }
    }

    /// The message for one range of sequence numbers: single when it holds one.
    pub fn for_range(packet_type: u8, range: (u32, u32)) -> (r: Acknowledge)
        ensures
            r == range_acknowledge(packet_type, range),
    {
        if range.0 == range.1 {
            Acknowledge::create(packet_type, 1, true, Some(range.0), None, None)
        } else {
            Acknowledge::create(packet_type, 1, false, None, Some(range.0), Some(range.1))
        }
    }

    /// Replaces the contents of `stream` with the encoded message.
    pub fn encode(&self, stream: &mut Vec<u8>)
        requires
            acknowledge_complete(*self),
        ensures
            final(stream)@ == acknowledge_bytes(*self),
    {
        stream.clear();
        put_u8(stream, self.packet_type);
        put_u16_be(stream, self.record_count);
        put_bool(stream, self.single);
        if self.single {
            put_u24_le(stream, self.sequence_number.unwrap());
        } else {
            put_u24_le(stream, self.start_index.unwrap());
            put_u24_le(stream, self.end_index.unwrap());
        }
        assert(stream@ =~= acknowledge_bytes(*self));
    }

    /// Reads a message, type byte included; on too short an input returns
    /// `None` and leaves `stream` as it was.
    pub fn decode(stream: &mut ByteReader) -> (r: Option<Acknowledge>)
        ensures
            match parse_acknowledge(old(stream).rest()) {
                Some((a, rest)) => r == Some(a) && final(stream).rest() == rest,
                None => r is None && final(stream).rest() == old(stream).rest(),
            },
    {
        if stream.remaining_byte_count() < 7 {
            return None;
        }
        let ghost s = stream.rest();
        let mut cur = *stream;
        let packet_type = cur.get_u8().unwrap();
        let record_count = cur.get_u16_be().unwrap();
        let single = cur.get_bool().unwrap();
        assert(s.skip(1).take(2) =~= s.subrange(1, 3));
        assert(s.skip(1).skip(2).skip(1) =~= s.skip(4));
        if single {
            let n = cur.get_u24_le().unwrap();
            assert(s.skip(4).take(3) =~= s.subrange(4, 7));
            assert(s.skip(4).skip(3) =~= s.skip(7));
            *stream = cur;
            Some(Acknowledge::create(packet_type, record_count, true, Some(n), None, None))
        } else {
            if cur.remaining_byte_count() < 6 {
                return None;
            }
            let x = cur.get_u24_le().unwrap();
            let y = cur.get_u24_le().unwrap();
            assert(s.skip(4).take(3) =~= s.subrange(4, 7));
            assert(s.skip(4).skip(3).take(3) =~= s.subrange(7, 10));
            assert(s.skip(4).skip(3).skip(3) =~= s.skip(10));
            *stream = cur;
            Some(Acknowledge::create(packet_type, record_count, false, None, Some(x), Some(y)))
        }
    }
}

} // verus!
