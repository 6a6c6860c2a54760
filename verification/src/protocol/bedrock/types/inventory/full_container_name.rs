//! The name of a container: its id and, for containers made at run time, a
//! dynamic id.

use vstd::prelude::*;
use crate::wire::{
    le_bytes, lemma_bool_roundtrip, lemma_u32_le_roundtrip, parse_bool, parse_u32_le, put_bool,
    put_u32_le, put_u8, bool_byte, ByteReader,
};

verus! {

#[derive(Clone, Copy, Debug, PartialEq, Eq, Structural)]
pub struct FullContainerName {
    pub container_id: u8,
    pub dynamic_id: Option<u32>,
}

/// The container id as one byte, then the dynamic id as a flag followed,
/// when present, by 32 little-endian bits.
pub open spec fn full_container_name_bytes(v: FullContainerName) -> Seq<u8> {
    seq![v.container_id] + match v.dynamic_id {
        Some(d) => seq![bool_byte(true)] + le_bytes(d as nat, 4),
        None => seq![bool_byte(false)],
    }
}

/// The container name at the start of `s`, and what follows it.
pub open spec fn parse_full_container_name(s: Seq<u8>) -> Option<(FullContainerName, Seq<u8>)> {
    if s.len() < 1 {
        None
    } else {
        let s1 = s.skip(1);
        match parse_bool(s1) {
            None => None,
            Some((present, n)) => {
                let s2 = s1.skip(n as int);
                if present {
                    match parse_u32_le(s2) {
                        None => None,
                        Some((d, m)) => Some(
                            (FullContainerName { container_id: s[0], dynamic_id: Some(d) }, s2.skip(m as int)),
                        ),
                    }
                } else {
                    Some((FullContainerName { container_id: s[0], dynamic_id: None }, s2))
                }
            },
        }
    }
}

/// A container name written out reads back as itself, whatever follows it.
pub proof fn lemma_full_container_name_roundtrip(v: FullContainerName, t: Seq<u8>)
    ensures
        parse_full_container_name(full_container_name_bytes(v) + t) == Some((v, t)),
{
    let s = full_container_name_bytes(v) + t;
    match v.dynamic_id {
        Some(d) => {
            let tail = le_bytes(d as nat, 4) + t;
            assert(s.skip(1) =~= seq![bool_byte(true)] + tail);
            lemma_bool_roundtrip(true, tail);
            lemma_u32_le_roundtrip(d, t);
            assert(s.skip(1).skip(1) =~= tail);
            assert(tail.skip(4) =~= t);
        },
        None => {
            assert(s.skip(1) =~= seq![bool_byte(false)] + t);
            lemma_bool_roundtrip(false, t);
            assert(s.skip(1).skip(1) =~= t);
        },
    }
}

impl FullContainerName {
    pub fn new(container_id: u8, dynamic_id: Option<u32>) -> (r: FullContainerName)
        ensures
            r == (FullContainerName { container_id, dynamic_id }),
    {
        FullContainerName { container_id, dynamic_id }
    }

    /// Reads a container name; on too short an input returns `None` and
    /// leaves `stream` as it was.
    pub fn read(stream: &mut ByteReader) -> (r: Option<FullContainerName>)
        ensures
            match parse_full_container_name(old(stream).rest()) {
                Some((v, rest)) => r == Some(v) && final(stream).rest() == rest,
                None => r is None && final(stream).rest() == old(stream).rest(),
            },
    {
        let mut cur = *stream;
        let container_id = match cur.get_u8() {
            Some(v) => v,
            None => return None,
        };
        let present = match cur.get_bool() {
            Some(v) => v,
            None => return None,
        };
        let dynamic_id = if present {
            match cur.get_u32_le() {
                Some(v) => Some(v),
                None => return None,
            }
        } else {
            None
        };
        *stream = cur;
        Some(FullContainerName { container_id, dynamic_id })
    }

    /// Appends the container name.
    pub fn write(&self, stream: &mut Vec<u8>)
        ensures
            final(stream)@ == old(stream)@ + full_container_name_bytes(*self),
    {
        put_u8(stream, self.container_id);
        match self.dynamic_id {
            Some(d) => {
                put_bool(stream, true);
                put_u32_le(stream, d);
            },
            None => {
                put_bool(stream, false);
            },
        }
        assert(final(stream)@ =~= old(stream)@ + full_container_name_bytes(*self));
    }
}

} // verus!
