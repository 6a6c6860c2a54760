//! The height of each of the 16 × 16 columns of a sub-chunk, relative to its
//! bottom: below 0 the column lies lower, above 15 higher.

use vstd::prelude::*;
use crate::protocol::bedrock::types::sub_chunk_position_offset::{
    byte_i8, byte_to_i8, i8_byte, i8_to_byte, lemma_i8_roundtrip,
};
use crate::wire::{put_u8, ByteReader};

verus! {

/// How many columns a height map holds.
pub const HEIGHT_MAP_SIZE: usize = 256;

pub struct SubChunkHeightMapInfo {
    heights: Vec<i8>,
}

impl View for SubChunkHeightMapInfo {
    type V = Seq<i8>;

    closed spec fn view(&self) -> Seq<i8> {
        self.heights@
    }
}

/// Every column is below the sub-chunk.
pub open spec fn all_too_low(h: Seq<i8>) -> bool {
    forall|i: int| 0 <= i < h.len() ==> #[trigger] h[i] < 0
}

/// Every column is above the sub-chunk.
pub open spec fn all_too_high(h: Seq<i8>) -> bool {
    forall|i: int| 0 <= i < h.len() ==> #[trigger] h[i] > 15
}

/// A map of 256 columns all of height `v`.
pub open spec fn filled(v: i8) -> Seq<i8> {
    Seq::new(HEIGHT_MAP_SIZE as nat, |i: int| v)
}

/// The heights as they travel: one signed byte each.
pub open spec fn heights_bytes(h: Seq<i8>) -> Seq<u8> {
    h.map_values(|v: i8| i8_byte(v))
}

/// The 256 heights at the start of `s`, and what follows them.
pub open spec fn parse_heights(s: Seq<u8>) -> Option<(Seq<i8>, Seq<u8>)> {
    if s.len() < HEIGHT_MAP_SIZE {
        None
    } else {
        Some((s.take(HEIGHT_MAP_SIZE as int).map_values(|b: u8| byte_i8(b)), s.skip(HEIGHT_MAP_SIZE as int)))
    }
}

/// Heights written out read back as themselves, whatever follows them.
pub proof fn lemma_heights_roundtrip(h: Seq<i8>, t: Seq<u8>)
    requires
        h.len() == HEIGHT_MAP_SIZE,
    ensures
        parse_heights(heights_bytes(h) + t) == Some((h, t)),
{
    let s = heights_bytes(h) + t;
    assert forall|i: int| 0 <= i < h.len() implies byte_i8(#[trigger] s[i]) == h[i] by {
        lemma_i8_roundtrip(h[i]);
    }
    assert(s.take(HEIGHT_MAP_SIZE as int).map_values(|b: u8| byte_i8(b)) =~= h);
    assert(s.skip(HEIGHT_MAP_SIZE as int) =~= t);
}

impl SubChunkHeightMapInfo {
    #[verifier::type_invariant]
    spec fn well_formed(self) -> bool {
        self.heights@.len() == HEIGHT_MAP_SIZE
    }

    /// A map of the given heights; `None` unless there are 256 of them.
    pub fn new(heights: Vec<i8>) -> (r: Option<SubChunkHeightMapInfo>)
        ensures
            r is Some <==> heights@.len() == HEIGHT_MAP_SIZE,
            r matches Some(m) ==> m@ == heights@,
    {
        if heights.len() == HEIGHT_MAP_SIZE {
            Some(SubChunkHeightMapInfo { heights })
        } else {
            None
        }
    }

    /// The heights, 256 of them.
    pub fn heights(&self) -> (r: &Vec<i8>)
        ensures
            r@ == self@,
            r@.len() == HEIGHT_MAP_SIZE,
    {
        proof {
            use_type_invariant(self);
        }
        &self.heights
    }

    /// A map of 256 columns of the given height.
    fn filled_with(v: i8) -> (r: SubChunkHeightMapInfo)
        ensures
            r@ == filled(v),
    {
        let mut heights: Vec<i8> = Vec::with_capacity(HEIGHT_MAP_SIZE);
        let mut i: usize = 0;
        while i < HEIGHT_MAP_SIZE
            invariant
                i <= HEIGHT_MAP_SIZE,
                heights@ == Seq::new(i as nat, |j: int| v),
            decreases HEIGHT_MAP_SIZE - i,
        {
            heights.push(v);
            i = i + 1;
            assert(heights@ =~= Seq::new(i as nat, |j: int| v));
        }
        SubChunkHeightMapInfo { heights }
    }

    /// A copy of the map.
    pub fn copied(&self) -> (r: SubChunkHeightMapInfo)
        ensures
            r@ == self@,
    {
        proof {
            use_type_invariant(self);
        }
        let heights = self.heights.clone();
        assert(heights@ =~= self.heights@);
        SubChunkHeightMapInfo { heights }
    }

    /// Every column above the sub-chunk: all heights 16.
    pub fn all_too_high() -> (r: SubChunkHeightMapInfo)
        ensures
            r@ == filled(16i8),
    {
        Self::filled_with(16)
    }

    /// Every column below the sub-chunk: all heights -1.
    pub fn all_too_low() -> (r: SubChunkHeightMapInfo)
        ensures
            r@ == filled(-1i8),
    {
        Self::filled_with(-1)
    }

    /// Whether every column is below the sub-chunk.
    pub fn is_all_too_low(&self) -> (r: bool)
        ensures
            r == all_too_low(self@),
    {
        let mut i: usize = 0;
        while i < self.heights.len()
            invariant
                i <= self.heights@.len(),
                forall|j: int| 0 <= j < i ==> #[trigger] self.heights@[j] < 0,
            decreases self.heights@.len() - i,
        {
            if self.heights[i] >= 0 {
                return false;
            }
            i = i + 1;
        }
        true
    }

    /// Whether every column is above the sub-chunk.
    pub fn is_all_too_high(&self) -> (r: bool)
        ensures
            r == all_too_high(self@),
    {
        let mut i: usize = 0;
        while i < self.heights.len()
            invariant
                i <= self.heights@.len(),
                forall|j: int| 0 <= j < i ==> #[trigger] self.heights@[j] > 15,
            decreases self.heights@.len() - i,
        {
            if self.heights[i] <= 15 {
                return false;
            }
            i = i + 1;
        }
        true
    }

    /// Reads 256 heights; on too short an input returns `None` and leaves
    /// `stream` as it was.
    pub fn read(stream: &mut ByteReader) -> (r: Option<SubChunkHeightMapInfo>)
        ensures
            match parse_heights(old(stream).rest()) {
                Some((h, rest)) => r matches Some(m) && m@ == h && final(stream).rest() == rest,
                None => r is None && final(stream).rest() == old(stream).rest(),
            },
    {
        let bytes = match stream.get(HEIGHT_MAP_SIZE) {
            Some(b) => b,
            None => return None,
        };
        let ghost want = bytes@.map_values(|b: u8| byte_i8(b));
        let mut heights: Vec<i8> = Vec::with_capacity(HEIGHT_MAP_SIZE);
        let mut i: usize = 0;
        while i < bytes.len()
            invariant
                i <= bytes@.len(),
                bytes@.len() == HEIGHT_MAP_SIZE,
                want == bytes@.map_values(|b: u8| byte_i8(b)),
                heights@ == want.take(i as int),
            decreases bytes@.len() - i,
        {
            heights.push(byte_to_i8(bytes[i]));
            i = i + 1;
            assert(heights@ =~= want.take(i as int));
        }
        assert(heights@ =~= want);
        Some(SubChunkHeightMapInfo { heights })
    }

    /// Appends the heights.
    pub fn write(&self, stream: &mut Vec<u8>)
        ensures
            final(stream)@ == old(stream)@ + heights_bytes(self@),
    {
        let ghost start = stream@;
        let ghost want = heights_bytes(self@);
        let mut i: usize = 0;
        while i < self.heights.len()
            invariant
                i <= self.heights@.len(),
                want == heights_bytes(self.heights@),
                stream@ == start + want.take(i as int),
            decreases self.heights@.len() - i,
        {
            put_u8(stream, i8_to_byte(self.heights[i]));
            i = i + 1;
            assert(stream@ =~= start + want.take(i as int));
        }
        assert(want.take(i as int) =~= want);
    }
}

} // verus!
