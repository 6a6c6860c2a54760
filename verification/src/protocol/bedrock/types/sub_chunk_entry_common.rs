//! One sub-chunk of a sub-chunk reply: where it lies, whether it was found,
//! its terrain and its two height maps.

use vstd::prelude::*;
use crate::protocol::bedrock::serializer::packet_serializer::{
    byte_string_bytes, lemma_byte_string_roundtrip, parse_byte_string, PacketSerializer,
};
use crate::protocol::bedrock::types::sub_chunk_height_map_info::{
    all_too_high, all_too_low, filled, heights_bytes, lemma_heights_roundtrip, parse_heights,
    SubChunkHeightMapInfo, HEIGHT_MAP_SIZE,
};
use crate::protocol::bedrock::types::sub_chunk_height_map_type::SubChunkHeightMapType;
use crate::protocol::bedrock::types::sub_chunk_position_offset::{
    lemma_offset_roundtrip, offset_bytes, parse_offset, SubChunkPositionOffset,
};
use crate::wire::{bool_byte, lemma_bool_roundtrip, parse_bool, put_bool, put_u8, ByteReader};

verus! {

pub struct SubChunkEntryCommon {
    pub offset: SubChunkPositionOffset,
    pub request_result: u8,
    pub terrain_data: Option<Vec<u8>>,
    pub height_map: Option<SubChunkHeightMapInfo>,
    pub render_height_map: Option<SubChunkHeightMapInfo>,
}

pub struct SubChunkEntryCommonView {
    pub offset: SubChunkPositionOffset,
    pub request_result: u8,
    pub terrain_data: Option<Seq<u8>>,
    pub height_map: Option<Seq<i8>>,
    pub render_height_map: Option<Seq<i8>>,
}

/// The heights of a map, if there is one.
pub open spec fn map_view(m: Option<SubChunkHeightMapInfo>) -> Option<Seq<i8>> {
    match m {
        Some(h) => Some(h@),
        None => None,
    }
}

/// The bytes, if there are any.
pub open spec fn bytes_view(d: Option<Vec<u8>>) -> Option<Seq<u8>> {
    match d {
        Some(b) => Some(b@),
        None => None,
    }
}

impl View for SubChunkEntryCommon {
    type V = SubChunkEntryCommonView;

    open spec fn view(&self) -> SubChunkEntryCommonView {
        SubChunkEntryCommonView {
            offset: self.offset,
            request_result: self.request_result,
            terrain_data: bytes_view(self.terrain_data),
            height_map: map_view(self.height_map),
            render_height_map: map_view(self.render_height_map),
        }
    }
}

/// An optional byte string: a flag, then the byte string when there is one.
pub open spec fn optional_byte_string_bytes(d: Option<Seq<u8>>) -> Seq<u8> {
    match d {
        Some(b) => seq![bool_byte(true)] + byte_string_bytes(b),
        None => seq![bool_byte(false)],
    }
}

/// The optional byte string at the start of `s`, and what follows it.
pub open spec fn parse_optional_byte_string(s: Seq<u8>) -> Option<(Option<Seq<u8>>, Seq<u8>)> {
    match parse_bool(s) {
        None => None,
        Some((present, n)) => {
            let s1 = s.skip(n as int);
            if present {
                match parse_byte_string(s1) {
                    None => None,
                    Some((b, m)) => Some((Some(b), s1.skip(m as int))),
                }
            } else {
                Some((None, s1))
            }
        },
    }
}

/// The optional heights at the start of `s`, and what follows them.
pub open spec fn parse_optional_heights(s: Seq<u8>) -> Option<(Option<Seq<i8>>, Seq<u8>)> {
    match parse_bool(s) {
        None => None,
        Some((present, n)) => {
            let s1 = s.skip(n as int);
            if present {
                match parse_heights(s1) {
                    None => None,
                    Some((h, rest)) => Some((Some(h), rest)),
                }
            } else {
                Some((None, s1))
            }
        },
    }
}

/// The height map a kind byte and the heights that followed it stand for;
/// `None` for a kind that is not known.
pub open spec fn height_map_of(kind: u8, data: Option<Seq<i8>>) -> Option<Option<Seq<i8>>> {
    if kind == SubChunkHeightMapType::NO_DATA {
        Some(None)
    } else if kind == SubChunkHeightMapType::DATA {
        Some(data)
    } else if kind == SubChunkHeightMapType::ALL_TOO_HIGH {
        Some(Some(filled(16i8)))
    } else if kind == SubChunkHeightMapType::ALL_TOO_LOW {
        Some(Some(filled(-1i8)))
    } else {
        None
    }
}

/// The render height map a kind byte stands for: as `height_map_of`, and a
/// copy of the height map for `ALL_COPIED`.
pub open spec fn render_height_map_of(kind: u8, data: Option<Seq<i8>>, height_map: Option<Seq<i8>>) -> Option<
    Option<Seq<i8>>,
> {
    if kind == SubChunkHeightMapType::ALL_COPIED {
        Some(height_map)
    } else {
        height_map_of(kind, data)
    }
}

/// A height map as it travels: its kind, then a flag and the heights only
/// for a map that is neither all too low nor all too high. A missing map
/// travels as `none_kind`.
pub open spec fn map_field_bytes(m: Option<Seq<i8>>, none_kind: u8) -> Seq<u8> {
    match m {
        Some(h) => if all_too_low(h) {
            seq![SubChunkHeightMapType::ALL_TOO_LOW, bool_byte(false)]
        } else if all_too_high(h) {
            seq![SubChunkHeightMapType::ALL_TOO_HIGH, bool_byte(false)]
        } else {
            seq![SubChunkHeightMapType::DATA, bool_byte(true)] + heights_bytes(h)
        },
        None => seq![none_kind, bool_byte(false)],
    }
}

/// The entry: offset, result byte, optional terrain, then the height map
/// (a missing one as `NO_DATA`) and the render height map (a missing one as
/// `ALL_COPIED`).
pub open spec fn entry_bytes(v: SubChunkEntryCommonView) -> Seq<u8> {
    offset_bytes(v.offset) + seq![v.request_result] + optional_byte_string_bytes(v.terrain_data)
        + map_field_bytes(v.height_map, SubChunkHeightMapType::NO_DATA) + map_field_bytes(
        v.render_height_map,
        SubChunkHeightMapType::ALL_COPIED,
    )
}

/// The entry at the start of `s` gives a height map kind byte that is not
/// known, after its offset, result byte and optional terrain.
pub open spec fn unknown_height_map_kind(s: Seq<u8>) -> bool {
    match parse_offset(s) {
        None => false,
        Some((_, s1)) => s1.len() >= 1 && match parse_optional_byte_string(s1.skip(1)) {
            None => false,
            Some((_, s3)) => s3.len() >= 1 && s3[0] > SubChunkHeightMapType::ALL_TOO_LOW,
        },
    }
}

/// The entry at the start of `s`, and what follows it.
pub open spec fn parse_entry(s: Seq<u8>) -> Option<(SubChunkEntryCommonView, Seq<u8>)> {
    match parse_offset(s) {
        None => None,
        Some((offset, s1)) => if s1.len() < 1 {
            None
        } else {
            match parse_optional_byte_string(s1.skip(1)) {
                None => None,
                Some((terrain_data, s3)) => if s3.len() < 1 {
                    None
                } else {
                    match parse_optional_heights(s3.skip(1)) {
                        None => None,
                        Some((data, s4)) => match height_map_of(s3[0], data) {
                            None => None,
                            Some(height_map) => if s4.len() < 1 {
                                None
                            } else {
                                match parse_optional_heights(s4.skip(1)) {
                                    None => None,
                                    Some((render_data, s5)) => match render_height_map_of(
                                        s4[0],
                                        render_data,
                                        height_map,
                                    ) {
                                        None => None,
                                        Some(render_height_map) => Some(
                                            (
                                                SubChunkEntryCommonView {
                                                    offset,
                                                    request_result: s1[0],
                                                    terrain_data,
                                                    height_map,
                                                    render_height_map,
                                                },
                                                s5,
                                            ),
                                        ),
                                    },
                                }
                            },
                        },
                    }
                },
            }
        },
    }
}

/// What a height map reads back as: a map all too low as all -1, one all
/// too high as all 16, any other as itself.
pub open spec fn normal_map(h: Seq<i8>) -> Seq<i8> {
    if all_too_low(h) {
        filled(-1i8)
    } else if all_too_high(h) {
        filled(16i8)
    } else {
        h
    }
}

/// What an entry reads back as: its maps made normal, and a missing render
/// map replaced by the height map.
pub open spec fn entry_read_back(v: SubChunkEntryCommonView) -> SubChunkEntryCommonView {
    let height_map = match v.height_map {
        Some(h) => Some(normal_map(h)),
        None => None,
    };
    SubChunkEntryCommonView {
        height_map,
        render_height_map: match v.render_height_map {
            Some(h) => Some(normal_map(h)),
            None => height_map,
        },
        ..v
    }
}

/// Every map holds 256 heights and the terrain fits a 32-bit length.
pub open spec fn entry_fits(v: SubChunkEntryCommonView) -> bool {
    &&& (v.terrain_data matches Some(d) ==> d.len() < 0x1_0000_0000)
    &&& (v.height_map matches Some(h) ==> h.len() == HEIGHT_MAP_SIZE)
    &&& (v.render_height_map matches Some(h) ==> h.len() == HEIGHT_MAP_SIZE)
}

proof fn lemma_map_field_roundtrip(m: Option<Seq<i8>>, none_kind: u8, t: Seq<u8>)
    requires
        m matches Some(h) ==> h.len() == HEIGHT_MAP_SIZE,
    ensures
        (map_field_bytes(m, none_kind) + t).len() >= 1,
        (map_field_bytes(m, none_kind) + t)[0] == match m {
            Some(h) => if all_too_low(h) {
                SubChunkHeightMapType::ALL_TOO_LOW
            } else if all_too_high(h) {
                SubChunkHeightMapType::ALL_TOO_HIGH
            } else {
                SubChunkHeightMapType::DATA
            },
            None => none_kind,
        },
        parse_optional_heights((map_field_bytes(m, none_kind) + t).skip(1)) == Some(
            (
                match m {
                    Some(h) => if all_too_low(h) || all_too_high(h) {
                        None
                    } else {
                        Some(h)
                    },
                    None => None,
                },
                t,
            ),
        ),
{
    let s = map_field_bytes(m, none_kind) + t;
    match m {
        Some(h) => if all_too_low(h) || all_too_high(h) {
            assert(s.skip(1) =~= seq![bool_byte(false)] + t);
            lemma_bool_roundtrip(false, t);
            assert(s.skip(1).skip(1) =~= t);
        } else {
            assert(s.skip(1) =~= seq![bool_byte(true)] + (heights_bytes(h) + t));
            lemma_bool_roundtrip(true, heights_bytes(h) + t);
            assert(s.skip(1).skip(1) =~= heights_bytes(h) + t);
            lemma_heights_roundtrip(h, t);
        },
        None => {
            assert(s.skip(1) =~= seq![bool_byte(false)] + t);
            lemma_bool_roundtrip(false, t);
            assert(s.skip(1).skip(1) =~= t);
        },
    }
}

/// An entry written out reads back, whatever follows it, as the entry with
/// its maps made normal and a missing render map replaced by the height map.
#[verifier::rlimit(40)]
#[verifier::spinoff_prover]
pub proof fn lemma_entry_roundtrip(v: SubChunkEntryCommonView, t: Seq<u8>)
    requires
        entry_fits(v),
    ensures
        parse_entry(entry_bytes(v) + t) == Some((entry_read_back(v), t)),
{
    let a = offset_bytes(v.offset);
    let c = optional_byte_string_bytes(v.terrain_data);
    let d = map_field_bytes(v.height_map, SubChunkHeightMapType::NO_DATA);
    let e = map_field_bytes(v.render_height_map, SubChunkHeightMapType::ALL_COPIED);
    let s1 = seq![v.request_result] + c + d + e + t;
    assert(entry_bytes(v) + t =~= a + s1);
    lemma_offset_roundtrip(v.offset, s1);
    assert(s1.skip(1) =~= c + (d + e + t));
    assert(parse_optional_byte_string(c + (d + e + t)) == Some((v.terrain_data, d + e + t))) by {
        match v.terrain_data {
            Some(b) => {
                let u = byte_string_bytes(b) + (d + e + t);
                assert(c + (d + e + t) =~= seq![bool_byte(true)] + u);
                lemma_bool_roundtrip(true, u);
                assert((c + (d + e + t)).skip(1) =~= u);
                lemma_byte_string_roundtrip(b, d + e + t);
                assert(u.skip(byte_string_bytes(b).len() as int) =~= d + e + t);
            },
            None => {
                assert(c + (d + e + t) =~= seq![bool_byte(false)] + (d + e + t));
                lemma_bool_roundtrip(false, d + e + t);
                assert((c + (d + e + t)).skip(1) =~= d + e + t);
            },
        }
    }
    assert(d + e + t =~= d + (e + t));
    lemma_map_field_roundtrip(v.height_map, SubChunkHeightMapType::NO_DATA, e + t);
    lemma_map_field_roundtrip(v.render_height_map, SubChunkHeightMapType::ALL_COPIED, t);
}

impl SubChunkEntryCommon {
    pub fn new(
        offset: SubChunkPositionOffset,
        request_result: u8,
        terrain_data: Option<Vec<u8>>,
        height_map: Option<SubChunkHeightMapInfo>,
        render_height_map: Option<SubChunkHeightMapInfo>,
    ) -> (r: SubChunkEntryCommon)
        ensures
            r == (SubChunkEntryCommon { offset, request_result, terrain_data, height_map, render_height_map }),
    {
        SubChunkEntryCommon { offset, request_result, terrain_data, height_map, render_height_map }
    }

    /// Reads an optional byte string.
    fn read_optional_byte_string(stream: &mut ByteReader) -> (r: Option<Option<Vec<u8>>>)
        ensures
            match parse_optional_byte_string(old(stream).rest()) {
                Some((d, rest)) => r matches Some(x) && bytes_view(x) == d && final(stream).rest()
                    == rest,
                None => r is None && final(stream).rest() == old(stream).rest(),
            },
    {
        PacketSerializer::read_optional(stream, |s: &mut ByteReader| -> (r: Option<Vec<u8>>)
            ensures
                match parse_byte_string(old(s).rest()) {
                    Some((b, n)) => r matches Some(v) && v@ == b && final(s).rest() == old(s).rest().skip(n as int),
                    None => r is None,
                },
        { PacketSerializer::get_byte_string(s) })
    }

    /// Reads optional heights.
    fn read_optional_heights(stream: &mut ByteReader) -> (r: Option<Option<SubChunkHeightMapInfo>>)
        ensures
            match parse_optional_heights(old(stream).rest()) {
                Some((d, rest)) => r matches Some(x) && map_view(x) == d && final(stream).rest() == rest,
                None => r is None && final(stream).rest() == old(stream).rest(),
            },
    {
        PacketSerializer::read_optional(stream, |s: &mut ByteReader| -> (r: Option<SubChunkHeightMapInfo>)
            ensures
                match parse_heights(old(s).rest()) {
                    Some((h, rest)) => r matches Some(m) && m@ == h && final(s).rest() == rest,
                    None => r is None,
                },
        { SubChunkHeightMapInfo::read(s) })
    }

    /// The height map a kind stands for, given the heights that followed it.
    fn map_of(kind: u8, data: Option<SubChunkHeightMapInfo>) -> (r: Option<Option<SubChunkHeightMapInfo>>)
        ensures
            match height_map_of(kind, map_view(data)) {
                Some(m) => r matches Some(x) && map_view(x) == m,
                None => r is None,
            },
    {
        if kind == SubChunkHeightMapType::NO_DATA {
            Some(None)
        } else if kind == SubChunkHeightMapType::DATA {
            Some(data)
        } else if kind == SubChunkHeightMapType::ALL_TOO_HIGH {
            Some(Some(SubChunkHeightMapInfo::all_too_high()))
        } else if kind == SubChunkHeightMapType::ALL_TOO_LOW {
            Some(Some(SubChunkHeightMapInfo::all_too_low()))
        } else {
            None
        }
    }

    /// Reads an entry; on too short or malformed an input (a height map kind
    /// that is not known) returns `None` and leaves `stream` as it was.
    /// An unknown kind byte, for the height map or the render height map, is
    /// answered like any other malformed input, never by a panic:
    /// `height_map_of` and `render_height_map_of` are `None` there, so
    /// `parse_entry` is too.
    pub fn read(stream: &mut ByteReader) -> (r: Option<SubChunkEntryCommon>)
        ensures
            match parse_entry(old(stream).rest()) {
                Some((v, rest)) => r matches Some(x) && x@ == v && final(stream).rest() == rest,
                None => r is None && final(stream).rest() == old(stream).rest(),
            },
            unknown_height_map_kind(old(stream).rest()) ==> r is None && final(stream).rest() == old(
                stream,
            ).rest(),
    {
        let mut cur = *stream;
        let offset = match SubChunkPositionOffset::read(&mut cur) {
            Some(v) => v,
            None => return None,
        };
        let request_result = match cur.get_u8() {
            Some(v) => v,
            None => return None,
        };
        let terrain_data = match Self::read_optional_byte_string(&mut cur) {
            Some(v) => v,
            None => return None,
        };
        let kind = match cur.get_u8() {
            Some(v) => v,
            None => return None,
        };
        let data = match Self::read_optional_heights(&mut cur) {
            Some(v) => v,
            None => return None,
        };
        let height_map = match Self::map_of(kind, data) {
            Some(v) => v,
            None => return None,
        };
        let render_kind = match cur.get_u8() {
            Some(v) => v,
            None => return None,
        };
        let render_data = match Self::read_optional_heights(&mut cur) {
            Some(v) => v,
            None => return None,
        };
        let render_height_map = if render_kind == SubChunkHeightMapType::ALL_COPIED {
            match &height_map {
                Some(m) => Some(m.copied()),
                None => None,
            }
        } else {
            match Self::map_of(render_kind, render_data) {
                Some(v) => v,
                None => return None,
            }
        };
        *stream = cur;
        Some(SubChunkEntryCommon { offset, request_result, terrain_data, height_map, render_height_map })
    }

    /// Appends a height map: its kind, then a flag and the heights only for a
    /// map that is neither all too low nor all too high; a missing map as
    /// `none_kind`.
    fn write_map(stream: &mut Vec<u8>, m: &Option<SubChunkHeightMapInfo>, none_kind: u8)
        ensures
            final(stream)@ == old(stream)@ + map_field_bytes(map_view(*m), none_kind),
    {
        match m {
            Some(h) => {
                if h.is_all_too_low() {
                    put_u8(stream, SubChunkHeightMapType::ALL_TOO_LOW);
                    put_bool(stream, false);
                } else if h.is_all_too_high() {
                    put_u8(stream, SubChunkHeightMapType::ALL_TOO_HIGH);
                    put_bool(stream, false);
                } else {
                    put_u8(stream, SubChunkHeightMapType::DATA);
                    put_bool(stream, true);
                    h.write(stream);
                }
            },
            None => {
                put_u8(stream, none_kind);
                put_bool(stream, false);
            },
        }
        assert(final(stream)@ =~= old(stream)@ + map_field_bytes(map_view(*m), none_kind));
    }

    /// Appends the entry.
    pub fn write(&self, stream: &mut Vec<u8>)
        ensures
            final(stream)@ == old(stream)@ + entry_bytes(self@),
    {
        self.offset.write(stream);
        put_u8(stream, self.request_result);
        PacketSerializer::write_optional(stream, &self.terrain_data, |s: &mut Vec<u8>, d: &Vec<u8>|
            ensures final(s)@ == old(s)@ + byte_string_bytes(d@),
        { PacketSerializer::put_byte_string(s, d.as_slice()) });
        Self::write_map(stream, &self.height_map, SubChunkHeightMapType::NO_DATA);
        Self::write_map(stream, &self.render_height_map, SubChunkHeightMapType::ALL_COPIED);
        assert(final(stream)@ =~= old(stream)@ + entry_bytes(self@));
    }
}

} // verus!
