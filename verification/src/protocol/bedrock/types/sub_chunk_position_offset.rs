//! Where a sub-chunk lies relative to the one a request was centred on.

use vstd::prelude::*;
use crate::wire::{put_u8, ByteReader};

verus! {

/// The signed value of a byte read as two's complement.
pub open spec fn byte_i8(b: u8) -> i8 {
    if b >= 128 { (b - 256) as i8 } else { b as i8 }
}

/// The byte that carries a signed value in two's complement.
pub open spec fn i8_byte(v: i8) -> u8 {
    if v < 0 { (v + 256) as u8 } else { v as u8 }
}

/// Reading a byte written from a signed value gives the value back.
pub proof fn lemma_i8_roundtrip(v: i8)
    ensures
        byte_i8(i8_byte(v)) == v,
{
}

/// The byte of a signed value.
pub fn i8_to_byte(v: i8) -> (r: u8)
    ensures
        r == i8_byte(v),
{
    if v < 0 { (v as i16 + 256) as u8 } else { v as u8 }
}

/// The signed value of a byte.
pub fn byte_to_i8(b: u8) -> (r: i8)
    ensures
        r == byte_i8(b),
{
    if b >= 128 { (b as i16 - 256) as i8 } else { b as i8 }
}

#[derive(Clone, Copy, Debug, PartialEq, Eq, Structural)]
pub struct SubChunkPositionOffset {
    pub x_offset: i8,
    pub y_offset: i8,
    pub z_offset: i8,
}

/// The three offsets, one signed byte each.
pub open spec fn offset_bytes(v: SubChunkPositionOffset) -> Seq<u8> {
    seq![i8_byte(v.x_offset), i8_byte(v.y_offset), i8_byte(v.z_offset)]
}

/// The offsets at the start of `s`, and what follows them.
pub open spec fn parse_offset(s: Seq<u8>) -> Option<(SubChunkPositionOffset, Seq<u8>)> {
    if s.len() < 3 {
        None
    } else {
        Some(
            (
                SubChunkPositionOffset {
                    x_offset: byte_i8(s[0]),
                    y_offset: byte_i8(s[1]),
                    z_offset: byte_i8(s[2]),
                },
                s.skip(3),
            ),
        )
    }
}

/// Offsets written out read back as themselves, whatever follows them.
pub proof fn lemma_offset_roundtrip(v: SubChunkPositionOffset, t: Seq<u8>)
    ensures
        parse_offset(offset_bytes(v) + t) == Some((v, t)),
{
    assert((offset_bytes(v) + t).skip(3) =~= t);
}

impl SubChunkPositionOffset {
    pub fn new(x_offset: i8, y_offset: i8, z_offset: i8) -> (r: SubChunkPositionOffset)
        ensures
            r == (SubChunkPositionOffset { x_offset, y_offset, z_offset }),
    {
        SubChunkPositionOffset { x_offset, y_offset, z_offset }
    }

    /// Reads the offsets; on too short an input returns `None` and leaves
    /// `stream` as it was.
    pub fn read(stream: &mut ByteReader) -> (r: Option<SubChunkPositionOffset>)
        ensures
            match parse_offset(old(stream).rest()) {
                Some((v, rest)) => r == Some(v) && final(stream).rest() == rest,
                None => r is None && final(stream).rest() == old(stream).rest(),
            },
    {
        let mut cur = *stream;
        let ghost s = cur.rest();
        let x = match cur.get_u8() {
            Some(v) => v,
            None => return None,
        };
        let y = match cur.get_u8() {
            Some(v) => v,
            None => return None,
        };
        let z = match cur.get_u8() {
            Some(v) => v,
            None => return None,
        };
        assert(s.skip(1).skip(1).skip(1) =~= s.skip(3));
        *stream = cur;
        Some(SubChunkPositionOffset { x_offset: byte_to_i8(x), y_offset: byte_to_i8(y), z_offset: byte_to_i8(z) })
    }

    /// Appends the offsets.
    pub fn write(&self, stream: &mut Vec<u8>)
        ensures
            final(stream)@ == old(stream)@ + offset_bytes(*self),
    {
        put_u8(stream, i8_to_byte(self.x_offset));
        put_u8(stream, i8_to_byte(self.y_offset));
        put_u8(stream, i8_to_byte(self.z_offset));
        assert(final(stream)@ =~= old(stream)@ + offset_bytes(*self));
    }
}

} // verus!
