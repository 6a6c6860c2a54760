//! A player's skin: its images, animations, persona pieces and tint colours,
//! with the byte form the game protocol gives them.

use vstd::prelude::*;
use crate::protocol::bedrock::command_output::string_fits;
use crate::protocol::bedrock::serializer::packet_serializer::{
    byte_string_bytes, lemma_byte_string_roundtrip, lemma_string_roundtrip, lemma_uuid_roundtrip,
    parse_byte_string, parse_string, parse_uuid_field, string_bytes, swap_halves, uuid_parse, uuid_text,
    PacketSerializer,
};
use crate::wire::{
    lemma_bool_roundtrip, lemma_i32_le_roundtrip, lemma_u32_le_roundtrip, lemma_u8_roundtrip,
    lemma_var_u32_roundtrip, bool_byte, from_twos, le_bytes, le_value, parse_bool, parse_i32_le, parse_u32_le, parse_u8,
    parse_var_u32, put_bool, put_i32_le, put_u32_le, put_u8, put_var_u32, twos, var_u32_bytes,
    ByteReader,
};

verus! {

/// How many colours a persona piece's tint carries on the wire.
pub const COLOR_COUNT: u32 = 4;

/// An image: width, height and its pixel bytes.
pub struct SkinImage {
    pub width: u32,
    pub height: u32,
    pub data: Vec<u8>,
}

pub struct SkinImageView {
    pub width: u32,
    pub height: u32,
    pub data: Seq<u8>,
}

impl View for SkinImage {
    type V = SkinImageView;

    open spec fn view(&self) -> SkinImageView {
        SkinImageView { width: self.width, height: self.height, data: self.data@ }
    }
}

/// An animation of the skin. `frames` holds the bits of the frame count, a
/// 32-bit float on the wire, unchanged.
pub struct SkinAnimation {
    pub image: SkinImage,
    pub animation_type: u32,
    pub frames: u32,
    pub expression_type: u32,
}

pub struct SkinAnimationView {
    pub image: SkinImageView,
    pub animation_type: u32,
    pub frames: u32,
    pub expression_type: u32,
}

impl View for SkinAnimation {
    type V = SkinAnimationView;

    open spec fn view(&self) -> SkinAnimationView {
        SkinAnimationView {
            image: self.image@,
            animation_type: self.animation_type,
            frames: self.frames,
            expression_type: self.expression_type,
        }
    }
}

/// A piece of a persona skin.
pub struct PersonaSkinPiece {
    pub piece_id: String,
    pub piece_type: i32,
    pub pack_id: String,
    pub is_default_piece: bool,
    pub product_id: String,
}

pub struct PersonaSkinPieceView {
    pub piece_id: Seq<char>,
    pub piece_type: i32,
    pub pack_id: Seq<char>,
    pub is_default_piece: bool,
    pub product_id: Seq<char>,
}

impl View for PersonaSkinPiece {
    type V = PersonaSkinPieceView;

    open spec fn view(&self) -> PersonaSkinPieceView {
        PersonaSkinPieceView {
            piece_id: self.piece_id@,
            piece_type: self.piece_type,
            pack_id: self.pack_id@,
            is_default_piece: self.is_default_piece,
            product_id: self.product_id@,
        }
    }
}

/// The tint colours of one kind of persona piece.
pub struct PersonaPieceTintColor {
    pub piece_type: String,
    pub colors: Vec<i32>,
}

pub struct PersonaPieceTintColorView {
    pub piece_type: Seq<char>,
    pub colors: Seq<i32>,
}

impl View for PersonaPieceTintColor {
    type V = PersonaPieceTintColorView;

    open spec fn view(&self) -> PersonaPieceTintColorView {
        PersonaPieceTintColorView { piece_type: self.piece_type@, colors: self.colors@ }
    }
}

/// A player's skin.
pub struct SkinData {
    pub skin_id: String,
    pub play_fab_id: String,
    pub resource_patch: String,
    pub skin_image: SkinImage,
    pub animations: Vec<SkinAnimation>,
    pub cape_image: Option<SkinImage>,
    pub geometry_data: String,
    pub geometry_data_engine_version: String,
    pub animation_data: String,
    pub cape_id: String,
    pub full_skin_id: Option<String>,
    pub arm_size: u8,
    pub skin_color: i32,
    pub persona_pieces: Vec<PersonaSkinPiece>,
    pub piece_tint_colors: Vec<PersonaPieceTintColor>,
    pub is_verified: bool,
    pub premium: bool,
    pub persona: bool,
    pub persona_cape_on_classic: bool,
    pub is_primary_user: bool,
    pub is_override: bool,
    pub trusted_skin_flag: String,
    pub profile_hash: String,
}

pub struct SkinDataView {
    pub skin_id: Seq<char>,
    pub play_fab_id: Seq<char>,
    pub resource_patch: Seq<char>,
    pub skin_image: SkinImageView,
    pub animations: Seq<SkinAnimationView>,
    pub cape_image: Option<SkinImageView>,
    pub geometry_data: Seq<char>,
    pub geometry_data_engine_version: Seq<char>,
    pub animation_data: Seq<char>,
    pub cape_id: Seq<char>,
    pub full_skin_id: Option<Seq<char>>,
    pub arm_size: u8,
    pub skin_color: i32,
    pub persona_pieces: Seq<PersonaSkinPieceView>,
    pub piece_tint_colors: Seq<PersonaPieceTintColorView>,
    pub is_verified: bool,
    pub premium: bool,
    pub persona: bool,
    pub persona_cape_on_classic: bool,
    pub is_primary_user: bool,
    pub is_override: bool,
    pub trusted_skin_flag: Seq<char>,
    pub profile_hash: Seq<char>,
}

impl View for SkinData {
    type V = SkinDataView;

    open spec fn view(&self) -> SkinDataView {
        SkinDataView {
            skin_id: self.skin_id@,
            play_fab_id: self.play_fab_id@,
            resource_patch: self.resource_patch@,
            skin_image: self.skin_image@,
            animations: self.animations@.map_values(|a: SkinAnimation| a@),
            cape_image: match self.cape_image {
                Some(c) => Some(c@),
                None => None,
            },
            geometry_data: self.geometry_data@,
            geometry_data_engine_version: self.geometry_data_engine_version@,
            animation_data: self.animation_data@,
            cape_id: self.cape_id@,
            full_skin_id: match self.full_skin_id {
                Some(f) => Some(f@),
                None => None,
            },
            arm_size: self.arm_size,
            skin_color: self.skin_color,
            persona_pieces: self.persona_pieces@.map_values(|p: PersonaSkinPiece| p@),
            piece_tint_colors: self.piece_tint_colors@.map_values(|t: PersonaPieceTintColor| t@),
            is_verified: self.is_verified,
            premium: self.premium,
            persona: self.persona,
            persona_cape_on_classic: self.persona_cape_on_classic,
            is_primary_user: self.is_primary_user,
            is_override: self.is_override,
            trusted_skin_flag: self.trusted_skin_flag@,
            profile_hash: self.profile_hash@,
        }
    }
}

/// A signed 32-bit number, little-endian two's complement.
pub open spec fn i32_le_bytes(v: i32) -> Seq<u8> {
    le_bytes(twos(v as int, 4), 4)
}

/// A count as written: a variable-length integer kept to 32 bits.
pub open spec fn count_bytes(n: nat) -> Seq<u8> {
    var_u32_bytes((n % 0x1_0000_0000) as u32)
}

/// An image: width and height (little-endian), then its bytes with their length.
pub open spec fn skin_image_bytes(i: SkinImageView) -> Seq<u8> {
    le_bytes(i.width as nat, 4) + le_bytes(i.height as nat, 4) + byte_string_bytes(i.data)
}

/// An animation: its image, its type, the frame count's bits (little-endian)
/// and its expression type.
pub open spec fn animation_bytes(a: SkinAnimationView) -> Seq<u8> {
    skin_image_bytes(a.image) + var_u32_bytes(a.animation_type) + le_bytes(a.frames as nat, 4)
        + var_u32_bytes(a.expression_type)
}

pub open spec fn animations_bytes(s: Seq<SkinAnimationView>) -> Seq<u8>
    decreases s.len(),
{
    if s.len() == 0 {
        Seq::empty()
    } else {
        animations_bytes(s.drop_last()) + animation_bytes(s.last())
    }
}

/// A persona piece: id, type, the pack's UUID, whether it is a default
/// piece, and the product id.
pub open spec fn piece_bytes(p: PersonaSkinPieceView) -> Seq<u8> {
    string_bytes(p.piece_id) + i32_le_bytes(p.piece_type) + swap_halves(uuid_parse(p.pack_id).unwrap())
        + seq![bool_byte(p.is_default_piece)] + string_bytes(p.product_id)
}

pub open spec fn pieces_bytes(s: Seq<PersonaSkinPieceView>) -> Seq<u8>
    decreases s.len(),
{
    if s.len() == 0 {
        Seq::empty()
    } else {
        pieces_bytes(s.drop_last()) + piece_bytes(s.last())
    }
}

pub open spec fn colors_bytes(s: Seq<i32>) -> Seq<u8>
    decreases s.len(),
{
    if s.len() == 0 {
        Seq::empty()
    } else {
        colors_bytes(s.drop_last()) + i32_le_bytes(s.last())
    }
}

/// A tint: the piece type, then each colour.
pub open spec fn tint_bytes(t: PersonaPieceTintColorView) -> Seq<u8> {
    string_bytes(t.piece_type) + colors_bytes(t.colors)
}

pub open spec fn tints_bytes(s: Seq<PersonaPieceTintColorView>) -> Seq<u8>
    decreases s.len(),
{
    if s.len() == 0 {
        Seq::empty()
    } else {
        tints_bytes(s.drop_last()) + tint_bytes(s.last())
    }
}

/// Every persona piece names its pack by text the UUID parser accepts.
pub open spec fn pieces_writable(s: Seq<PersonaSkinPieceView>) -> bool {
    forall|i: int| 0 <= i < s.len() ==> uuid_parse(#[trigger] s[i].pack_id) is Some
}

/// The skin's ids, image and animations, and its cape image when it has one.
pub open spec fn skin_front_bytes(v: SkinDataView) -> Seq<u8> {
    string_bytes(v.skin_id) + string_bytes(v.play_fab_id) + string_bytes(v.resource_patch)
        + skin_image_bytes(v.skin_image) + count_bytes(v.animations.len()) + animations_bytes(v.animations)
        + match v.cape_image {
        Some(c) => skin_image_bytes(c),
        None => Seq::empty(),
    }
}

/// The geometry and animation texts, the cape id, the full skin id when
/// there is one, the arm size and the skin colour.
pub open spec fn skin_middle_bytes(v: SkinDataView) -> Seq<u8> {
    string_bytes(v.geometry_data) + string_bytes(v.geometry_data_engine_version) + string_bytes(
        v.animation_data,
    ) + string_bytes(v.cape_id) + match v.full_skin_id {
        Some(f) => string_bytes(f),
        None => Seq::empty(),
    } + seq![v.arm_size] + i32_le_bytes(v.skin_color)
}

/// The five flags as bytes.
pub open spec fn skin_flags_bytes(v: SkinDataView) -> Seq<u8> {
    seq![
        bool_byte(v.premium),
        bool_byte(v.persona),
        bool_byte(v.persona_cape_on_classic),
        bool_byte(v.is_primary_user),
        bool_byte(v.is_override),
    ]
}

/// The persona pieces and tints with their counts, the flags, then the
/// trusted-skin flag and the profile hash.
pub open spec fn skin_back_bytes(v: SkinDataView) -> Seq<u8> {
    count_bytes(v.persona_pieces.len()) + pieces_bytes(v.persona_pieces) + count_bytes(
        v.piece_tint_colors.len(),
    ) + tints_bytes(v.piece_tint_colors) + skin_flags_bytes(v) + string_bytes(v.trusted_skin_flag)
        + string_bytes(v.profile_hash)
}

/// The skin as written. A missing cape image or full skin id writes nothing
/// in its place; `is_verified` is not written.
pub open spec fn skin_bytes(v: SkinDataView) -> Seq<u8> {
    skin_front_bytes(v) + skin_middle_bytes(v) + skin_back_bytes(v)
}

/// The image at the start of `s`, and what follows it.
pub open spec fn parse_skin_image(s: Seq<u8>) -> Option<(SkinImageView, Seq<u8>)> {
    match parse_u32_le(s) {
        None => None,
        Some((width, n1)) => {
            let s1 = s.skip(n1 as int);
            match parse_u32_le(s1) {
                None => None,
                Some((height, n2)) => {
                    let s2 = s1.skip(n2 as int);
                    match parse_byte_string(s2) {
                        None => None,
                        Some((data, n3)) => Some((SkinImageView { width, height, data }, s2.skip(n3 as int))),
                    }
                },
            }
        },
    }
}

/// The animation at the start of `s`, and what follows it.
pub open spec fn parse_animation(s: Seq<u8>) -> Option<(SkinAnimationView, Seq<u8>)> {
    match parse_skin_image(s) {
        None => None,
        Some((image, s1)) => match parse_var_u32(s1) {
            None => None,
            Some((animation_type, n2)) => {
                let s2 = s1.skip(n2 as int);
                match parse_u32_le(s2) {
                    None => None,
                    Some((frames, n3)) => {
                        let s3 = s2.skip(n3 as int);
                        match parse_var_u32(s3) {
                            None => None,
                            Some((expression_type, n4)) => Some(
                                (
                                    SkinAnimationView { image, animation_type, frames, expression_type },
                                    s3.skip(n4 as int),
                                ),
                            ),
                        }
                    },
                }
            },
        },
    }
}

/// `n` animations one after the other, and what follows them.
pub open spec fn parse_animations(s: Seq<u8>, n: nat) -> Option<(Seq<SkinAnimationView>, Seq<u8>)>
    decreases n,
{
    if n == 0 {
        Some((Seq::empty(), s))
    } else {
        match parse_animations(s, (n - 1) as nat) {
            None => None,
            Some((xs, r)) => match parse_animation(r) {
                None => None,
                Some((x, rest)) => Some((xs.push(x), rest)),
            },
        }
    }
}

/// The persona piece at the start of `s`, and what follows it.
pub open spec fn parse_piece(s: Seq<u8>) -> Option<(PersonaSkinPieceView, Seq<u8>)> {
    match parse_string(s) {
        None => None,
        Some((piece_id, n1)) => {
            let s1 = s.skip(n1 as int);
            match parse_i32_le(s1) {
                None => None,
                Some((piece_type, n2)) => {
                    let s2 = s1.skip(n2 as int);
                    match parse_uuid_field(s2) {
                        None => None,
                        Some((pack_id, n3)) => {
                            let s3 = s2.skip(n3 as int);
                            match parse_bool(s3) {
                                None => None,
                                Some((is_default_piece, n4)) => {
                                    let s4 = s3.skip(n4 as int);
                                    match parse_string(s4) {
                                        None => None,
                                        Some((product_id, n5)) => Some(
                                            (
                                                PersonaSkinPieceView {
                                                    piece_id,
                                                    piece_type,
                                                    pack_id,
                                                    is_default_piece,
                                                    product_id,
                                                },
                                                s4.skip(n5 as int),
                                            ),
                                        ),
                                    }
                                },
                            }
                        },
                    }
                },
            }
        },
    }
}

/// `n` persona pieces one after the other, and what follows them.
pub open spec fn parse_pieces(s: Seq<u8>, n: nat) -> Option<(Seq<PersonaSkinPieceView>, Seq<u8>)>
    decreases n,
{
    if n == 0 {
        Some((Seq::empty(), s))
    } else {
        match parse_pieces(s, (n - 1) as nat) {
            None => None,
            Some((xs, r)) => match parse_piece(r) {
                None => None,
                Some((x, rest)) => Some((xs.push(x), rest)),
            },
        }
    }
}

/// `n` colours one after the other, and what follows them.
pub open spec fn parse_colors(s: Seq<u8>, n: nat) -> Option<(Seq<i32>, Seq<u8>)>
    decreases n,
{
    if n == 0 {
        Some((Seq::empty(), s))
    } else {
        match parse_colors(s, (n - 1) as nat) {
            None => None,
            Some((xs, r)) => match parse_i32_le(r) {
                None => None,
                Some((x, m)) => Some((xs.push(x), r.skip(m as int))),
            },
        }
    }
}

/// The tint at the start of `s`: a piece type and `COLOR_COUNT` colours.
pub open spec fn parse_tint(s: Seq<u8>) -> Option<(PersonaPieceTintColorView, Seq<u8>)> {
    match parse_string(s) {
        None => None,
        Some((piece_type, n1)) => match parse_colors(s.skip(n1 as int), COLOR_COUNT as nat) {
            None => None,
            Some((colors, rest)) => Some((PersonaPieceTintColorView { piece_type, colors }, rest)),
        },
    }
}

/// `n` tints one after the other, and what follows them.
pub open spec fn parse_tints(s: Seq<u8>, n: nat) -> Option<(Seq<PersonaPieceTintColorView>, Seq<u8>)>
    decreases n,
{
    if n == 0 {
        Some((Seq::empty(), s))
    } else {
        match parse_tints(s, (n - 1) as nat) {
            None => None,
            Some((xs, r)) => match parse_tint(r) {
                None => None,
                Some((x, rest)) => Some((xs.push(x), rest)),
            },
        }
    }
}

/// Three strings one after the other, and what follows them.
pub open spec fn parse_three_strings(s: Seq<u8>) -> Option<((Seq<char>, Seq<char>, Seq<char>), Seq<u8>)> {
    match parse_string(s) {
        None => None,
        Some((a, n1)) => {
            let s1 = s.skip(n1 as int);
            match parse_string(s1) {
                None => None,
                Some((b, n2)) => {
                    let s2 = s1.skip(n2 as int);
                    match parse_string(s2) {
                        None => None,
                        Some((c, n3)) => Some(((a, b, c), s2.skip(n3 as int))),
                    }
                },
            }
        },
    }
}

/// The skin image, the counted animations and the cape image at the start
/// of `s`, and what follows them.
pub open spec fn parse_skin_pictures(s: Seq<u8>) -> Option<
    ((SkinImageView, Seq<SkinAnimationView>, SkinImageView), Seq<u8>),
> {
    match parse_skin_image(s) {
        None => None,
        Some((image, s1)) => match parse_var_u32(s1) {
            None => None,
            Some((count, n2)) => match parse_animations(s1.skip(n2 as int), count as nat) {
                None => None,
                Some((animations, s3)) => match parse_skin_image(s3) {
                    None => None,
                    Some((cape, s4)) => Some(((image, animations, cape), s4)),
                },
            },
        },
    }
}

/// The ids, image, animations and cape image at the start of `s`, and what
/// follows them.
#[verifier::opaque]
pub open spec fn parse_skin_front(s: Seq<u8>) -> Option<
    ((Seq<char>, Seq<char>, Seq<char>, SkinImageView, Seq<SkinAnimationView>, SkinImageView), Seq<u8>),
> {
    match parse_three_strings(s) {
        None => None,
        Some(((a, b, c), s1)) => match parse_skin_pictures(s1) {
            None => None,
            Some(((image, animations, cape), rest)) => Some(((a, b, c, image, animations, cape), rest)),
        },
    }
}

/// Four strings one after the other, and what follows them.
pub open spec fn parse_four_strings(s: Seq<u8>) -> Option<((Seq<char>, Seq<char>, Seq<char>, Seq<char>), Seq<u8>)> {
    match parse_string(s) {
        None => None,
        Some((a, n1)) => {
            let s1 = s.skip(n1 as int);
            match parse_string(s1) {
                None => None,
                Some((b, n2)) => {
                    let s2 = s1.skip(n2 as int);
                    match parse_string(s2) {
                        None => None,
                        Some((c, n3)) => {
                            let s3 = s2.skip(n3 as int);
                            match parse_string(s3) {
                                None => None,
                                Some((d, n4)) => Some(((a, b, c, d), s3.skip(n4 as int))),
                            }
                        },
                    }
                },
            }
        },
    }
}

/// The geometry and animation texts, the cape id, the full skin id, the arm
/// size and the skin colour at the start of `s`, and what follows them.
#[verifier::opaque]
pub open spec fn parse_skin_middle(s: Seq<u8>) -> Option<
    ((Seq<char>, Seq<char>, Seq<char>, Seq<char>, Seq<char>, u8, i32), Seq<u8>),
> {
    match parse_four_strings(s) {
        None => None,
        Some(((g, e, a, c), s1)) => match parse_string(s1) {
            None => None,
            Some((full, n2)) => {
                let s2 = s1.skip(n2 as int);
                match parse_u8(s2) {
                    None => None,
                    Some((arm, n3)) => {
                        let s3 = s2.skip(n3 as int);
                        match parse_i32_le(s3) {
                            None => None,
                            Some((color, n4)) => Some(((g, e, a, c, full, arm, color), s3.skip(n4 as int))),
                        }
                    },
                }
            },
        },
    }
}

/// The five flags at the start of `s`, and what follows them.
pub open spec fn parse_flags(s: Seq<u8>) -> Option<(Seq<bool>, Seq<u8>)> {
    if s.len() < 5 {
        None
    } else {
        Some((seq![s[0] != 0, s[1] != 0, s[2] != 0, s[3] != 0, s[4] != 0], s.skip(5)))
    }
}

/// The persona pieces and tints with their counts, the flags, the
/// trusted-skin flag and the profile hash at the start of `s`, and what
/// follows them.
#[verifier::opaque]
pub open spec fn parse_skin_back(s: Seq<u8>) -> Option<
    ((Seq<PersonaSkinPieceView>, Seq<PersonaPieceTintColorView>, Seq<bool>, Seq<char>, Seq<char>), Seq<u8>),
> {
    match parse_var_u32(s) {
        None => None,
        Some((pc, n1)) => match parse_pieces(s.skip(n1 as int), pc as nat) {
            None => None,
            Some((pieces, s2)) => match parse_var_u32(s2) {
                None => None,
                Some((tc, n3)) => match parse_tints(s2.skip(n3 as int), tc as nat) {
                    None => None,
                    Some((tints, s4)) => match parse_flags(s4) {
                        None => None,
                        Some((flags, s5)) => match parse_string(s5) {
                            None => None,
                            Some((trusted, n6)) => {
                                let s6 = s5.skip(n6 as int);
                                match parse_string(s6) {
                                    None => None,
                                    Some((hash, n7)) => Some(((pieces, tints, flags, trusted, hash), s6.skip(n7 as int))),
                                }
                            },
                        },
                    },
                },
            },
        },
    }
}

/// The skin at the start of `s`, and what follows it. The cape image and the
/// full skin id are always read, and a skin read is taken as verified.
pub open spec fn parse_skin(s: Seq<u8>) -> Option<(SkinDataView, Seq<u8>)> {
    match parse_skin_front(s) {
        None => None,
        Some(((skin_id, play_fab_id, resource_patch, skin_image, animations, cape), s1)) => match parse_skin_middle(s1) {
            None => None,
            Some(((geometry_data, geometry_data_engine_version, animation_data, cape_id, full, arm_size, skin_color), s2)) =>
                match parse_skin_back(s2) {
                None => None,
                Some(((persona_pieces, piece_tint_colors, flags, trusted_skin_flag, profile_hash), rest)) => Some(
                    (
                        SkinDataView {
                            skin_id,
                            play_fab_id,
                            resource_patch,
                            skin_image,
                            animations,
                            cape_image: Some(cape),
                            geometry_data,
                            geometry_data_engine_version,
                            animation_data,
                            cape_id,
                            full_skin_id: Some(full),
                            arm_size,
                            skin_color,
                            persona_pieces,
                            piece_tint_colors,
                            is_verified: true,
                            premium: flags[0],
                            persona: flags[1],
                            persona_cape_on_classic: flags[2],
                            is_primary_user: flags[3],
                            is_override: flags[4],
                            trusted_skin_flag,
                            profile_hash,
                        },
                        rest,
                    ),
                ),
            },
        },
    }
}

/// An image whose bytes fit a 32-bit length.
pub open spec fn image_fits(i: SkinImageView) -> bool {
    i.data.len() < 0x1_0000_0000
}

/// A persona piece whose strings fit and whose pack is named by the
/// hyphenated lowercase text of the UUID it parses to.
pub open spec fn piece_fits(p: PersonaSkinPieceView) -> bool {
    &&& string_fits(p.piece_id)
    &&& string_fits(p.product_id)
    &&& uuid_parse(p.pack_id) is Some
    &&& uuid_parse(p.pack_id).unwrap().len() == 16
    &&& uuid_text(uuid_parse(p.pack_id).unwrap()) == p.pack_id
}

/// A tint whose piece type fits and which has `COLOR_COUNT` colours.
pub open spec fn tint_fits(t: PersonaPieceTintColorView) -> bool {
    string_fits(t.piece_type) && t.colors.len() == COLOR_COUNT
}

/// A skin that reads back as written: a cape image and a full skin id are
/// there, it is marked verified, its counts fit 32 bits, every string and
/// image fits, each pack is named canonically, and each tint has
/// `COLOR_COUNT` colours.
pub open spec fn skin_fits(v: SkinDataView) -> bool {
    &&& front_fits(v)
    &&& middle_fits(v)
    &&& back_fits(v)
    &&& v.is_verified
}

/// The ids, image, animations and cape image of a skin that fits.
pub open spec fn front_fits(v: SkinDataView) -> bool {
    &&& string_fits(v.skin_id)
    &&& string_fits(v.play_fab_id)
    &&& string_fits(v.resource_patch)
    &&& image_fits(v.skin_image)
    &&& v.animations.len() < 0x1_0000_0000
    &&& (forall|i: int| 0 <= i < v.animations.len() ==> image_fits(#[trigger] v.animations[i].image))
    &&& (v.cape_image matches Some(c) && image_fits(c))
}

/// The texts and full skin id of a skin that fits.
pub open spec fn middle_fits(v: SkinDataView) -> bool {
    &&& string_fits(v.geometry_data)
    &&& string_fits(v.geometry_data_engine_version)
    &&& string_fits(v.animation_data)
    &&& string_fits(v.cape_id)
    &&& (v.full_skin_id matches Some(f) && string_fits(f))
}

/// The persona pieces, tints and closing strings of a skin that fits.
pub open spec fn back_fits(v: SkinDataView) -> bool {
    &&& v.persona_pieces.len() < 0x1_0000_0000
    &&& (forall|i: int| 0 <= i < v.persona_pieces.len() ==> piece_fits(#[trigger] v.persona_pieces[i]))
    &&& v.piece_tint_colors.len() < 0x1_0000_0000
    &&& (forall|i: int| 0 <= i < v.piece_tint_colors.len() ==> tint_fits(#[trigger] v.piece_tint_colors[i]))
    &&& string_fits(v.trusted_skin_flag)
    &&& string_fits(v.profile_hash)
}

#[verifier::spinoff_prover]
proof fn lemma_image_roundtrip(i: SkinImageView, t: Seq<u8>)
    requires
        image_fits(i),
    ensures
        parse_skin_image(skin_image_bytes(i) + t) == Some((i, t)),
{
    let a = le_bytes(i.width as nat, 4);
    let b = le_bytes(i.height as nat, 4);
    let c = byte_string_bytes(i.data);
    let s = skin_image_bytes(i) + t;
    assert(s =~= a + (b + c + t));
    lemma_u32_le_roundtrip(i.width, b + c + t);
    assert(s.skip(4) =~= b + (c + t));
    lemma_u32_le_roundtrip(i.height, c + t);
    assert(s.skip(4).skip(4) =~= c + t);
    lemma_byte_string_roundtrip(i.data, t);
    assert((c + t).skip(c.len() as int) =~= t);
}

#[verifier::spinoff_prover]
proof fn lemma_animation_roundtrip(x: SkinAnimationView, t: Seq<u8>)
    requires
        image_fits(x.image),
    ensures
        parse_animation(animation_bytes(x) + t) == Some((x, t)),
{
    let a = skin_image_bytes(x.image);
    let b = var_u32_bytes(x.animation_type);
    let c = le_bytes(x.frames as nat, 4);
    let d = var_u32_bytes(x.expression_type);
    assert(animation_bytes(x) + t =~= a + (b + c + d + t));
    lemma_image_roundtrip(x.image, b + c + d + t);
    lemma_var_u32_roundtrip(x.animation_type, c + d + t);
    assert((b + c + d + t) =~= b + (c + d + t));
    assert((b + (c + d + t)).skip(b.len() as int) =~= c + d + t);
    lemma_u32_le_roundtrip(x.frames, d + t);
    assert((c + d + t) =~= c + (d + t));
    assert((c + (d + t)).skip(4) =~= d + t);
    lemma_var_u32_roundtrip(x.expression_type, t);
    assert((d + t).skip(d.len() as int) =~= t);
}

#[verifier::spinoff_prover]
proof fn lemma_animations_roundtrip(xs: Seq<SkinAnimationView>, t: Seq<u8>)
    requires
        forall|i: int| 0 <= i < xs.len() ==> image_fits(#[trigger] xs[i].image),
    ensures
        parse_animations(animations_bytes(xs) + t, xs.len()) == Some((xs, t)),
    decreases xs.len(),
{
    if xs.len() > 0 {
        let init = xs.drop_last();
        let last = xs.last();
        let tail = animation_bytes(last) + t;
        assert forall|i: int| 0 <= i < init.len() implies image_fits(#[trigger] init[i].image) by {
            assert(init[i] == xs[i]);
        }
        lemma_animations_roundtrip(init, tail);
        assert(animations_bytes(xs) + t =~= animations_bytes(init) + tail);
        assert(image_fits(xs[xs.len() - 1].image));
        lemma_animation_roundtrip(last, t);
        assert(init.push(last) =~= xs);
    }
}

#[verifier::spinoff_prover]
proof fn lemma_piece_roundtrip(p: PersonaSkinPieceView, t: Seq<u8>)
    requires
        piece_fits(p),
    ensures
        parse_piece(piece_bytes(p) + t) == Some((p, t)),
{
    let u = uuid_parse(p.pack_id).unwrap();
    let a = string_bytes(p.piece_id);
    let b = i32_le_bytes(p.piece_type);
    let c = swap_halves(u);
    let d = seq![bool_byte(p.is_default_piece)];
    let e = string_bytes(p.product_id);
    let r4 = e + t;
    let r3 = d + r4;
    let r2 = c + r3;
    let r1 = b + r2;
    let s = a + r1;
    assert(piece_bytes(p) + t =~= s);
    assert(parse_string(s) == Some((p.piece_id, a.len()))) by {
        lemma_string_roundtrip(p.piece_id, r1);
    }
    assert(s.skip(a.len() as int) =~= r1);
    assert(parse_i32_le(r1) == Some((p.piece_type, 4nat)) && b.len() == 4) by {
        lemma_i32_le_roundtrip(p.piece_type, r2);
    }
    assert(r1.skip(4) =~= r2);
    assert(parse_uuid_field(r2) == Some((p.pack_id, 16nat)) && c.len() == 16) by {
        lemma_uuid_roundtrip(u, r3);
    }
    assert(r2.skip(16) =~= r3);
    assert(parse_bool(r3) == Some((p.is_default_piece, 1nat))) by {
        lemma_bool_roundtrip(p.is_default_piece, r4);
    }
    assert(r3.skip(1) =~= r4);
    assert(parse_string(r4) == Some((p.product_id, e.len()))) by {
        lemma_string_roundtrip(p.product_id, t);
    }
    assert(r4.skip(e.len() as int) =~= t);
}

#[verifier::spinoff_prover]
proof fn lemma_pieces_roundtrip(xs: Seq<PersonaSkinPieceView>, t: Seq<u8>)
    requires
        forall|i: int| 0 <= i < xs.len() ==> piece_fits(#[trigger] xs[i]),
    ensures
        parse_pieces(pieces_bytes(xs) + t, xs.len()) == Some((xs, t)),
    decreases xs.len(),
{
    if xs.len() > 0 {
        let init = xs.drop_last();
        let last = xs.last();
        let tail = piece_bytes(last) + t;
        assert forall|i: int| 0 <= i < init.len() implies piece_fits(#[trigger] init[i]) by {
            assert(init[i] == xs[i]);
        }
        lemma_pieces_roundtrip(init, tail);
        assert(pieces_bytes(xs) + t =~= pieces_bytes(init) + tail);
        assert(piece_fits(xs[xs.len() - 1]));
        lemma_piece_roundtrip(last, t);
        assert(init.push(last) =~= xs);
    }
}

#[verifier::spinoff_prover]
proof fn lemma_colors_roundtrip(xs: Seq<i32>, t: Seq<u8>)
    ensures
        parse_colors(colors_bytes(xs) + t, xs.len()) == Some((xs, t)),
    decreases xs.len(),
{
    if xs.len() > 0 {
        let init = xs.drop_last();
        let last = xs.last();
        let tail = i32_le_bytes(last) + t;
        lemma_colors_roundtrip(init, tail);
        assert(colors_bytes(xs) + t =~= colors_bytes(init) + tail);
        lemma_i32_le_roundtrip(last, t);
        assert(tail.skip(4) =~= t);
        assert(init.push(last) =~= xs);
    }
}

#[verifier::spinoff_prover]
proof fn lemma_tint_roundtrip(x: PersonaPieceTintColorView, t: Seq<u8>)
    requires
        tint_fits(x),
    ensures
        parse_tint(tint_bytes(x) + t) == Some((x, t)),
{
    let a = string_bytes(x.piece_type);
    let b = colors_bytes(x.colors);
    assert(tint_bytes(x) + t =~= a + (b + t));
    lemma_string_roundtrip(x.piece_type, b + t);
    assert((a + (b + t)).skip(a.len() as int) =~= b + t);
    lemma_colors_roundtrip(x.colors, t);
}

#[verifier::spinoff_prover]
proof fn lemma_tints_roundtrip(xs: Seq<PersonaPieceTintColorView>, t: Seq<u8>)
    requires
        forall|i: int| 0 <= i < xs.len() ==> tint_fits(#[trigger] xs[i]),
    ensures
        parse_tints(tints_bytes(xs) + t, xs.len()) == Some((xs, t)),
    decreases xs.len(),
{
    if xs.len() > 0 {
        let init = xs.drop_last();
        let last = xs.last();
        let tail = tint_bytes(last) + t;
        assert forall|i: int| 0 <= i < init.len() implies tint_fits(#[trigger] init[i]) by {
            assert(init[i] == xs[i]);
        }
        lemma_tints_roundtrip(init, tail);
        assert(tints_bytes(xs) + t =~= tints_bytes(init) + tail);
        assert(tint_fits(xs[xs.len() - 1]));
        lemma_tint_roundtrip(last, t);
        assert(init.push(last) =~= xs);
    }
}

#[verifier::spinoff_prover]
proof fn lemma_pictures_roundtrip(image: SkinImageView, xs: Seq<SkinAnimationView>, cape: SkinImageView, t: Seq<u8>)
    requires
        image_fits(image),
        image_fits(cape),
        xs.len() < 0x1_0000_0000,
        forall|i: int| 0 <= i < xs.len() ==> image_fits(#[trigger] xs[i].image),
    ensures
        parse_skin_pictures(
            skin_image_bytes(image) + count_bytes(xs.len()) + animations_bytes(xs) + skin_image_bytes(cape) + t,
        ) == Some(((image, xs, cape), t)),
{
    let d = skin_image_bytes(image);
    let e = count_bytes(xs.len());
    let f = animations_bytes(xs);
    let g = skin_image_bytes(cape);
    let r6 = g + t;
    let r5 = f + r6;
    let r4 = e + r5;
    let r3 = d + r4;
    assert(d + e + f + g + t =~= r3);
    lemma_image_roundtrip(image, r4);
    let n = xs.len() as u32;
    assert(e == var_u32_bytes(n));
    lemma_var_u32_roundtrip(n, r5);
    assert(r4.skip(e.len() as int) =~= r5);
    lemma_animations_roundtrip(xs, r6);
    lemma_image_roundtrip(cape, t);
}

#[verifier::spinoff_prover]
proof fn lemma_three_strings_roundtrip(a: Seq<char>, b: Seq<char>, c: Seq<char>, t: Seq<u8>)
    requires
        string_fits(a),
        string_fits(b),
        string_fits(c),
    ensures
        parse_three_strings(string_bytes(a) + string_bytes(b) + string_bytes(c) + t) == Some(((a, b, c), t)),
{
    let x = string_bytes(a);
    let y = string_bytes(b);
    let z = string_bytes(c);
    let r2 = z + t;
    let r1 = y + r2;
    let s = x + r1;
    assert(x + y + z + t =~= s);
    assert(parse_string(s) == Some((a, x.len()))) by {
        lemma_string_roundtrip(a, r1);
    }
    assert(s.skip(x.len() as int) =~= r1);
    assert(parse_string(r1) == Some((b, y.len()))) by {
        lemma_string_roundtrip(b, r2);
    }
    assert(r1.skip(y.len() as int) =~= r2);
    assert(parse_string(r2) == Some((c, z.len()))) by {
        lemma_string_roundtrip(c, t);
    }
    assert(r2.skip(z.len() as int) =~= t);
}

#[verifier::spinoff_prover]
proof fn lemma_front_roundtrip(v: SkinDataView, t: Seq<u8>)
    requires
        front_fits(v),
    ensures
        parse_skin_front(skin_front_bytes(v) + t) == Some(
            (
                (v.skin_id, v.play_fab_id, v.resource_patch, v.skin_image, v.animations, v.cape_image.unwrap()),
                t,
            ),
        ),
{
    reveal(parse_skin_front);
    let ids = string_bytes(v.skin_id) + string_bytes(v.play_fab_id) + string_bytes(v.resource_patch);
    let pics = skin_image_bytes(v.skin_image) + count_bytes(v.animations.len()) + animations_bytes(v.animations)
        + skin_image_bytes(v.cape_image.unwrap());
    assert(skin_front_bytes(v) + t =~= string_bytes(v.skin_id) + string_bytes(v.play_fab_id) + string_bytes(
        v.resource_patch,
    ) + (pics + t));
    lemma_three_strings_roundtrip(v.skin_id, v.play_fab_id, v.resource_patch, pics + t);
    lemma_pictures_roundtrip(v.skin_image, v.animations, v.cape_image.unwrap(), t);
}

#[verifier::spinoff_prover]
proof fn lemma_middle_roundtrip(v: SkinDataView, t: Seq<u8>)
    requires
        middle_fits(v),
    ensures
        parse_skin_middle(skin_middle_bytes(v) + t) == Some(
            (
                (
                    v.geometry_data,
                    v.geometry_data_engine_version,
                    v.animation_data,
                    v.cape_id,
                    v.full_skin_id.unwrap(),
                    v.arm_size,
                    v.skin_color,
                ),
                t,
            ),
        ),
{
    reveal(parse_skin_middle);
    let full = v.full_skin_id.unwrap();
    let a = string_bytes(v.geometry_data);
    let b = string_bytes(v.geometry_data_engine_version);
    let c = string_bytes(v.animation_data);
    let d = string_bytes(v.cape_id);
    let e = string_bytes(full);
    let f = seq![v.arm_size];
    let g = i32_le_bytes(v.skin_color);
    let r6 = g + t;
    let r5 = f + r6;
    let r4 = e + r5;
    let r3 = d + r4;
    let r2 = c + r3;
    let r1 = b + r2;
    let s = a + r1;
    assert(skin_middle_bytes(v) + t =~= s);
    assert(parse_string(s) == Some((v.geometry_data, a.len()))) by {
        lemma_string_roundtrip(v.geometry_data, r1);
    }
    assert(s.skip(a.len() as int) =~= r1);
    assert(parse_string(r1) == Some((v.geometry_data_engine_version, b.len()))) by {
        lemma_string_roundtrip(v.geometry_data_engine_version, r2);
    }
    assert(r1.skip(b.len() as int) =~= r2);
    assert(parse_string(r2) == Some((v.animation_data, c.len()))) by {
        lemma_string_roundtrip(v.animation_data, r3);
    }
    assert(r2.skip(c.len() as int) =~= r3);
    assert(parse_string(r3) == Some((v.cape_id, d.len()))) by {
        lemma_string_roundtrip(v.cape_id, r4);
    }
    assert(r3.skip(d.len() as int) =~= r4);
    assert(parse_four_strings(s) == Some(
        ((v.geometry_data, v.geometry_data_engine_version, v.animation_data, v.cape_id), r4),
    ));
    assert(parse_string(r4) == Some((full, e.len()))) by {
        lemma_string_roundtrip(full, r5);
    }
    assert(r4.skip(e.len() as int) =~= r5);
    assert(parse_u8(r5) == Some((v.arm_size, 1nat))) by {
        lemma_u8_roundtrip(v.arm_size, r6);
    }
    assert(r5.skip(1) =~= r6);
    assert(parse_i32_le(r6) == Some((v.skin_color, 4nat)) && g.len() == 4) by {
        lemma_i32_le_roundtrip(v.skin_color, t);
    }
    assert(r6.skip(4) =~= t);
}

#[verifier::spinoff_prover]
#[verifier::rlimit(60)]
proof fn lemma_back_roundtrip(v: SkinDataView, t: Seq<u8>)
    requires
        back_fits(v),
    ensures
        parse_skin_back(skin_back_bytes(v) + t) == Some(
            (
                (
                    v.persona_pieces,
                    v.piece_tint_colors,
                    seq![v.premium, v.persona, v.persona_cape_on_classic, v.is_primary_user, v.is_override],
                    v.trusted_skin_flag,
                    v.profile_hash,
                ),
                t,
            ),
        ),
{
    reveal(parse_skin_back);
    let a = count_bytes(v.persona_pieces.len());
    let b = pieces_bytes(v.persona_pieces);
    let c = count_bytes(v.piece_tint_colors.len());
    let d = tints_bytes(v.piece_tint_colors);
    let e = skin_flags_bytes(v);
    let f = string_bytes(v.trusted_skin_flag);
    let g = string_bytes(v.profile_hash);
    let r6 = g + t;
    let r5 = f + r6;
    let r4 = e + r5;
    let r3 = d + r4;
    let r2 = c + r3;
    let r1 = b + r2;
    let s = a + r1;
    assert(skin_back_bytes(v) + t =~= s);
    let pc = v.persona_pieces.len() as u32;
    assert(parse_var_u32(s) == Some((pc, a.len()))) by {
        assert(a == var_u32_bytes(pc));
        lemma_var_u32_roundtrip(pc, r1);
    }
    assert(s.skip(a.len() as int) =~= r1);
    assert(parse_pieces(r1, pc as nat) == Some((v.persona_pieces, r2))) by {
        lemma_pieces_roundtrip(v.persona_pieces, r2);
    }
    let tc = v.piece_tint_colors.len() as u32;
    assert(parse_var_u32(r2) == Some((tc, c.len()))) by {
        assert(c == var_u32_bytes(tc));
        lemma_var_u32_roundtrip(tc, r3);
    }
    assert(r2.skip(c.len() as int) =~= r3);
    assert(parse_tints(r3, tc as nat) == Some((v.piece_tint_colors, r4))) by {
        lemma_tints_roundtrip(v.piece_tint_colors, r4);
    }
    assert(r4.skip(5) =~= r5);
    assert(parse_flags(r4) == Some(
        (seq![v.premium, v.persona, v.persona_cape_on_classic, v.is_primary_user, v.is_override], r5),
    ));
    assert(parse_string(r5) == Some((v.trusted_skin_flag, f.len()))) by {
        lemma_string_roundtrip(v.trusted_skin_flag, r6);
    }
    assert(r5.skip(f.len() as int) =~= r6);
    assert(parse_string(r6) == Some((v.profile_hash, g.len()))) by {
        lemma_string_roundtrip(v.profile_hash, t);
    }
    assert(r6.skip(g.len() as int) =~= t);
}

/// A skin written out reads back, whatever follows it, as the same skin
/// when it fits: with a cape image and a full skin id, marked verified, each
/// pack named canonically and each tint of `COLOR_COUNT` colours.
#[verifier::spinoff_prover]
pub proof fn lemma_skin_roundtrip(v: SkinDataView, t: Seq<u8>)
    requires
        skin_fits(v),
    ensures
        parse_skin(skin_bytes(v) + t) == Some((v, t)),
{
    let a = skin_front_bytes(v);
    let b = skin_middle_bytes(v);
    let c = skin_back_bytes(v);
    let s = a + (b + (c + t));
    assert(skin_bytes(v) + t =~= s);
    let flags = seq![v.premium, v.persona, v.persona_cape_on_classic, v.is_primary_user, v.is_override];
    assert(parse_skin_front(s) == Some(
        (
            (v.skin_id, v.play_fab_id, v.resource_patch, v.skin_image, v.animations, v.cape_image.unwrap()),
            b + (c + t),
        ),
    )) by {
        lemma_front_roundtrip(v, b + (c + t));
    }
    assert(parse_skin_middle(b + (c + t)) == Some(
        (
            (
                v.geometry_data,
                v.geometry_data_engine_version,
                v.animation_data,
                v.cape_id,
                v.full_skin_id.unwrap(),
                v.arm_size,
                v.skin_color,
            ),
            c + t,
        ),
    )) by {
        lemma_middle_roundtrip(v, c + t);
    }
    assert(parse_skin_back(c + t) == Some(
        ((v.persona_pieces, v.piece_tint_colors, flags, v.trusted_skin_flag, v.profile_hash), t),
    )) by {
        lemma_back_roundtrip(v, t);
    }
    assert(flags[0] == v.premium && flags[1] == v.persona && flags[2] == v.persona_cape_on_classic
        && flags[3] == v.is_primary_user && flags[4] == v.is_override);
    assert(v.cape_image == Some(v.cape_image.unwrap()));
    assert(v.full_skin_id == Some(v.full_skin_id.unwrap()));
}

proof fn lemma_parse_animations_fails(s: Seq<u8>, i: nat, n: nat)
    requires
        i <= n,
        parse_animations(s, i) is None,
    ensures
        parse_animations(s, n) is None,
    decreases n,
{
    if i < n {
        lemma_parse_animations_fails(s, i, (n - 1) as nat);
    }
}

proof fn lemma_parse_pieces_fails(s: Seq<u8>, i: nat, n: nat)
    requires
        i <= n,
        parse_pieces(s, i) is None,
    ensures
        parse_pieces(s, n) is None,
    decreases n,
{
    if i < n {
        lemma_parse_pieces_fails(s, i, (n - 1) as nat);
    }
}

proof fn lemma_parse_colors_fails(s: Seq<u8>, i: nat, n: nat)
    requires
        i <= n,
        parse_colors(s, i) is None,
    ensures
        parse_colors(s, n) is None,
    decreases n,
{
    if i < n {
        lemma_parse_colors_fails(s, i, (n - 1) as nat);
    }
}

proof fn lemma_parse_tints_fails(s: Seq<u8>, i: nat, n: nat)
    requires
        i <= n,
        parse_tints(s, i) is None,
    ensures
        parse_tints(s, n) is None,
    decreases n,
{
    if i < n {
        lemma_parse_tints_fails(s, i, (n - 1) as nat);
    }
}

impl PacketSerializer {
    fn get_skin_image(stream: &mut ByteReader) -> (r: Option<SkinImage>)
        ensures
            match parse_skin_image(old(stream).rest()) {
                Some((v, rest)) => r matches Some(x) && x@ == v && final(stream).rest() == rest,
                None => r is None && final(stream).rest() == old(stream).rest(),
            },
    {
        let mut cur = *stream;
        let width = match cur.get_u32_le() {
            Some(v) => v,
            None => return None,
        };
        let height = match cur.get_u32_le() {
            Some(v) => v,
            None => return None,
        };
        let data = match PacketSerializer::get_byte_string(&mut cur) {
            Some(v) => v,
            None => return None,
        };
        *stream = cur;
        Some(SkinImage { width, height, data })
    }

    fn get_skin_animation(stream: &mut ByteReader) -> (r: Option<SkinAnimation>)
        ensures
            match parse_animation(old(stream).rest()) {
                Some((v, rest)) => r matches Some(x) && x@ == v && final(stream).rest() == rest,
                None => r is None && final(stream).rest() == old(stream).rest(),
            },
    {
        let mut cur = *stream;
        let image = match Self::get_skin_image(&mut cur) {
            Some(v) => v,
            None => return None,
        };
        let animation_type = match cur.get_var_u32() {
            Some(v) => v,
            None => return None,
        };
        let frames = match cur.get_u32_le() {
            Some(v) => v,
            None => return None,
        };
        let expression_type = match cur.get_var_u32() {
            Some(v) => v,
            None => return None,
        };
        *stream = cur;
        Some(SkinAnimation { image, animation_type, frames, expression_type })
    }

    fn get_skin_animations(stream: &mut ByteReader, count: u32) -> (r: Option<Vec<SkinAnimation>>)
        ensures
            match parse_animations(old(stream).rest(), count as nat) {
                Some((xs, rest)) => r matches Some(v) && v@.map_values(|a: SkinAnimation| a@) == xs
                    && final(stream).rest() == rest,
                None => r is None && final(stream).rest() == old(stream).rest(),
            },
    {
        let mut cur = *stream;
        let ghost s = cur.rest();
        let mut out: Vec<SkinAnimation> = Vec::new();
        let mut i: u32 = 0;
        assert(out@.map_values(|a: SkinAnimation| a@) =~= Seq::<SkinAnimationView>::empty());
        while i < count
            invariant
                i <= count,
                s == old(stream).rest(),
                *stream == *old(stream),
                parse_animations(s, i as nat) == Some((out@.map_values(|a: SkinAnimation| a@), cur.rest())),
            decreases count - i,
        {
            match Self::get_skin_animation(&mut cur) {
                Some(a) => {
                    out.push(a);
                    i = i + 1;
                    assert(out@.map_values(|a: SkinAnimation| a@) =~= parse_animations(s, i as nat).unwrap().0);
                },
                None => {
                    proof {
                        lemma_parse_animations_fails(s, (i + 1) as nat, count as nat);
                    }
                    return None;
                },
            }
        }
        *stream = cur;
        Some(out)
    }

    fn get_persona_piece(stream: &mut ByteReader) -> (r: Option<PersonaSkinPiece>)
        ensures
            match parse_piece(old(stream).rest()) {
                Some((v, rest)) => r matches Some(x) && x@ == v && final(stream).rest() == rest,
                None => r is None && final(stream).rest() == old(stream).rest(),
            },
    {
        let mut cur = *stream;
        let piece_id = match PacketSerializer::get_string(&mut cur) {
            Some(v) => v,
            None => return None,
        };
        let piece_type = match cur.get_i32_le() {
            Some(v) => v,
            None => return None,
        };
        let pack_id = match PacketSerializer::get_uuid(&mut cur) {
            Some(v) => v,
            None => return None,
        };
        let is_default_piece = match cur.get_bool() {
            Some(v) => v,
            None => return None,
        };
        let product_id = match PacketSerializer::get_string(&mut cur) {
            Some(v) => v,
            None => return None,
        };
        *stream = cur;
        Some(PersonaSkinPiece { piece_id, piece_type, pack_id, is_default_piece, product_id })
    }

    fn get_persona_pieces(stream: &mut ByteReader, count: u32) -> (r: Option<Vec<PersonaSkinPiece>>)
        ensures
            match parse_pieces(old(stream).rest(), count as nat) {
                Some((xs, rest)) => r matches Some(v) && v@.map_values(|p: PersonaSkinPiece| p@) == xs
                    && final(stream).rest() == rest,
                None => r is None && final(stream).rest() == old(stream).rest(),
            },
    {
        let mut cur = *stream;
        let ghost s = cur.rest();
        let mut out: Vec<PersonaSkinPiece> = Vec::new();
        let mut i: u32 = 0;
        assert(out@.map_values(|p: PersonaSkinPiece| p@) =~= Seq::<PersonaSkinPieceView>::empty());
        while i < count
            invariant
                i <= count,
                s == old(stream).rest(),
                *stream == *old(stream),
                parse_pieces(s, i as nat) == Some((out@.map_values(|p: PersonaSkinPiece| p@), cur.rest())),
            decreases count - i,
        {
            match Self::get_persona_piece(&mut cur) {
                Some(p) => {
                    out.push(p);
                    i = i + 1;
                    assert(out@.map_values(|p: PersonaSkinPiece| p@) =~= parse_pieces(s, i as nat).unwrap().0);
                },
                None => {
                    proof {
                        lemma_parse_pieces_fails(s, (i + 1) as nat, count as nat);
                    }
                    return None;
                },
            }
        }
        *stream = cur;
        Some(out)
    }

    fn get_tint_color(stream: &mut ByteReader) -> (r: Option<PersonaPieceTintColor>)
        ensures
            match parse_tint(old(stream).rest()) {
                Some((v, rest)) => r matches Some(x) && x@ == v && final(stream).rest() == rest,
                None => r is None && final(stream).rest() == old(stream).rest(),
            },
    {
        let mut cur = *stream;
        let piece_type = match PacketSerializer::get_string(&mut cur) {
            Some(v) => v,
            None => return None,
        };
        let ghost s = cur.rest();
        let ghost o = old(stream).rest();
        assert(parse_string(o) matches Some((c, n)) && c == piece_type@ && s == o.skip(n as int));
        let mut colors: Vec<i32> = Vec::new();
        let mut i: u32 = 0;
        while i < COLOR_COUNT
            invariant
                i <= COLOR_COUNT,
                *stream == *old(stream),
                o == old(stream).rest(),
                parse_string(o) matches Some((c, n)) && c == piece_type@ && s == o.skip(n as int),
                parse_colors(s, i as nat) == Some((colors@, cur.rest())),
            decreases COLOR_COUNT - i,
        {
            match cur.get_i32_le() {
                Some(c) => {
                    colors.push(c);
                    i = i + 1;
                },
                None => {
                    proof {
                        lemma_parse_colors_fails(s, (i + 1) as nat, COLOR_COUNT as nat);
                    }
                    return None;
                },
            }
        }
        *stream = cur;
        Some(PersonaPieceTintColor { piece_type, colors })
    }

    fn get_tint_colors(stream: &mut ByteReader, count: u32) -> (r: Option<Vec<PersonaPieceTintColor>>)
        ensures
            match parse_tints(old(stream).rest(), count as nat) {
                Some((xs, rest)) => r matches Some(v) && v@.map_values(|t: PersonaPieceTintColor| t@) == xs
                    && final(stream).rest() == rest,
                None => r is None && final(stream).rest() == old(stream).rest(),
            },
    {
        let mut cur = *stream;
        let ghost s = cur.rest();
        let mut out: Vec<PersonaPieceTintColor> = Vec::new();
        let mut i: u32 = 0;
        assert(out@.map_values(|t: PersonaPieceTintColor| t@) =~= Seq::<PersonaPieceTintColorView>::empty());
        while i < count
            invariant
                i <= count,
                s == old(stream).rest(),
                *stream == *old(stream),
                parse_tints(s, i as nat) == Some((out@.map_values(|t: PersonaPieceTintColor| t@), cur.rest())),
            decreases count - i,
        {
            match Self::get_tint_color(&mut cur) {
                Some(t) => {
                    out.push(t);
                    i = i + 1;
                    assert(out@.map_values(|t: PersonaPieceTintColor| t@) =~= parse_tints(s, i as nat).unwrap().0);
                },
                None => {
                    proof {
                        lemma_parse_tints_fails(s, (i + 1) as nat, count as nat);
                    }
                    return None;
                },
            }
        }
        *stream = cur;
        Some(out)
    }


    #[verifier::spinoff_prover]
    fn get_skin_front(stream: &mut ByteReader) -> (r: Option<(String, String, String, SkinImage, Vec<SkinAnimation>, SkinImage)>)
        ensures
            match parse_skin_front(old(stream).rest()) {
                Some((t, rest)) => r matches Some(x) && x.0@ == t.0 && x.1@ == t.1 && x.2@ == t.2 && x.3@ == t.3
                    && x.4@.map_values(|a: SkinAnimation| a@) == t.4 && x.5@ == t.5 && final(stream).rest() == rest,
                None => r is None && final(stream).rest() == old(stream).rest(),
            },
    {
        reveal(parse_skin_front);
        let mut cur = *stream;
        let skin_id = match PacketSerializer::get_string(&mut cur) {
            Some(v) => v,
            None => return None,
        };
        let play_fab_id = match PacketSerializer::get_string(&mut cur) {
            Some(v) => v,
            None => return None,
        };
        let resource_patch = match PacketSerializer::get_string(&mut cur) {
            Some(v) => v,
            None => return None,
        };
        let image = match Self::get_skin_image(&mut cur) {
            Some(v) => v,
            None => return None,
        };
        let count = match cur.get_var_u32() {
            Some(v) => v,
            None => return None,
        };
        let animations = match Self::get_skin_animations(&mut cur, count) {
            Some(v) => v,
            None => return None,
        };
        let cape = match Self::get_skin_image(&mut cur) {
            Some(v) => v,
            None => return None,
        };
        *stream = cur;
        Some((skin_id, play_fab_id, resource_patch, image, animations, cape))
    }

    fn get_four_strings(stream: &mut ByteReader) -> (r: Option<(String, String, String, String)>)
        ensures
            match parse_four_strings(old(stream).rest()) {
                Some((t, rest)) => r matches Some(x) && x.0@ == t.0 && x.1@ == t.1 && x.2@ == t.2 && x.3@ == t.3
                    && final(stream).rest() == rest,
                None => r is None && final(stream).rest() == old(stream).rest(),
            },
    {
        let mut cur = *stream;
        let a = match PacketSerializer::get_string(&mut cur) {
            Some(v) => v,
            None => return None,
        };
        let b = match PacketSerializer::get_string(&mut cur) {
            Some(v) => v,
            None => return None,
        };
        let c = match PacketSerializer::get_string(&mut cur) {
            Some(v) => v,
            None => return None,
        };
        let d = match PacketSerializer::get_string(&mut cur) {
            Some(v) => v,
            None => return None,
        };
        *stream = cur;
        Some((a, b, c, d))
    }

    #[verifier::spinoff_prover]
    fn get_skin_middle(stream: &mut ByteReader) -> (r: Option<(String, String, String, String, String, u8, i32)>)
        ensures
            match parse_skin_middle(old(stream).rest()) {
                Some((t, rest)) => r matches Some(x) && x.0@ == t.0 && x.1@ == t.1 && x.2@ == t.2 && x.3@ == t.3
                    && x.4@ == t.4 && x.5 == t.5 && x.6 == t.6 && final(stream).rest() == rest,
                None => r is None && final(stream).rest() == old(stream).rest(),
            },
    {
        reveal(parse_skin_middle);
        let mut cur = *stream;
        let (g, e, a, c) = match Self::get_four_strings(&mut cur) {
            Some(v) => v,
            None => return None,
        };
        let full = match PacketSerializer::get_string(&mut cur) {
            Some(v) => v,
            None => return None,
        };
        let arm = match cur.get_u8() {
            Some(v) => v,
            None => return None,
        };
        let color = match cur.get_i32_le() {
            Some(v) => v,
            None => return None,
        };
        *stream = cur;
        Some((g, e, a, c, full, arm, color))
    }

    fn get_skin_flags(stream: &mut ByteReader) -> (r: Option<(bool, bool, bool, bool, bool)>)
        ensures
            match parse_flags(old(stream).rest()) {
                Some((f, rest)) => r matches Some(x) && seq![x.0, x.1, x.2, x.3, x.4] == f && final(stream).rest() == rest,
                None => r is None && final(stream).rest() == old(stream).rest(),
            },
    {
        if stream.remaining_byte_count() < 5 {
            return None;
        }
        let ghost s = stream.rest();
        let a = stream.get_bool().unwrap();
        let b = stream.get_bool().unwrap();
        let c = stream.get_bool().unwrap();
        let d = stream.get_bool().unwrap();
        let e = stream.get_bool().unwrap();
        assert(stream.rest() =~= s.skip(5));
        Some((a, b, c, d, e))
    }

    #[verifier::spinoff_prover]
    fn get_skin_back(stream: &mut ByteReader) -> (r: Option<
        (Vec<PersonaSkinPiece>, Vec<PersonaPieceTintColor>, (bool, bool, bool, bool, bool), String, String),
    >)
        ensures
            match parse_skin_back(old(stream).rest()) {
                Some((t, rest)) => r matches Some(x) && x.0@.map_values(|p: PersonaSkinPiece| p@) == t.0
                    && x.1@.map_values(|c: PersonaPieceTintColor| c@) == t.1 && seq![x.2.0, x.2.1, x.2.2, x.2.3, x.2.4]
                    == t.2 && x.3@ == t.3 && x.4@ == t.4 && final(stream).rest() == rest,
                None => r is None && final(stream).rest() == old(stream).rest(),
            },
    {
        reveal(parse_skin_back);
        let mut cur = *stream;
        let pc = match cur.get_var_u32() {
            Some(v) => v,
            None => return None,
        };
        let pieces = match Self::get_persona_pieces(&mut cur, pc) {
            Some(v) => v,
            None => return None,
        };
        let tc = match cur.get_var_u32() {
            Some(v) => v,
            None => return None,
        };
        let tints = match Self::get_tint_colors(&mut cur, tc) {
            Some(v) => v,
            None => return None,
        };
        let flags = match Self::get_skin_flags(&mut cur) {
            Some(v) => v,
            None => return None,
        };
        let trusted = match PacketSerializer::get_string(&mut cur) {
            Some(v) => v,
            None => return None,
        };
        let hash = match PacketSerializer::get_string(&mut cur) {
            Some(v) => v,
            None => return None,
        };
        *stream = cur;
        Some((pieces, tints, flags, trusted, hash))
    }

    #[verifier::spinoff_prover]
    /// Reads a skin; on too short or malformed an input returns `None` and
    /// leaves `stream` as it was. The cape image and the full skin id are
    /// always read, and the skin read is marked verified.
    pub fn get_skin(stream: &mut ByteReader) -> (r: Option<SkinData>)
        ensures
            match parse_skin(old(stream).rest()) {
                Some((v, rest)) => r matches Some(x) && x@ == v && final(stream).rest() == rest,
                None => r is None && final(stream).rest() == old(stream).rest(),
            },
    {
        let mut cur = *stream;
        let (skin_id, play_fab_id, resource_patch, skin_image, animations, cape) = match Self::get_skin_front(&mut cur) {
            Some(v) => v,
            None => return None,
        };
        let (geometry_data, geometry_data_engine_version, animation_data, cape_id, full, arm_size, skin_color) =
            match Self::get_skin_middle(&mut cur) {
            Some(v) => v,
            None => return None,
        };
        let (persona_pieces, piece_tint_colors, flags, trusted_skin_flag, profile_hash) = match Self::get_skin_back(&mut cur) {
            Some(v) => v,
            None => return None,
        };
        let (premium, persona, persona_cape_on_classic, is_primary_user, is_override) = flags;
        *stream = cur;
        let skin = SkinData {
            skin_id,
            play_fab_id,
            resource_patch,
            skin_image,
            animations,
            cape_image: Some(cape),
            geometry_data,
            geometry_data_engine_version,
            animation_data,
            cape_id,
            full_skin_id: Some(full),
            arm_size,
            skin_color,
            persona_pieces,
            piece_tint_colors,
            is_verified: true,
            premium,
            persona,
            persona_cape_on_classic,
            is_primary_user,
            is_override,
            trusted_skin_flag,
            profile_hash,
        };
        proof {
            let v = parse_skin(old(stream).rest()).unwrap().0;
            assert(skin@.animations == v.animations);
            assert(skin@.persona_pieces == v.persona_pieces);
            assert(skin@.piece_tint_colors == v.piece_tint_colors);
            assert(skin@ == v);
        }
        Some(skin)
    }

    fn put_skin_image(stream: &mut Vec<u8>, image: &SkinImage)
        ensures
            final(stream)@ == old(stream)@ + skin_image_bytes(image@),
    {
        put_u32_le(stream, image.width);
        put_u32_le(stream, image.height);
        PacketSerializer::put_byte_string(stream, image.data.as_slice());
        assert(final(stream)@ =~= old(stream)@ + skin_image_bytes(image@));
    }

    fn put_skin_animation(stream: &mut Vec<u8>, a: &SkinAnimation)
        ensures
            final(stream)@ == old(stream)@ + animation_bytes(a@),
    {
        Self::put_skin_image(stream, &a.image);
        put_var_u32(stream, a.animation_type);
        put_u32_le(stream, a.frames);
        put_var_u32(stream, a.expression_type);
        assert(final(stream)@ =~= old(stream)@ + animation_bytes(a@));
    }

    fn put_persona_piece(stream: &mut Vec<u8>, p: &PersonaSkinPiece)
        requires
            uuid_parse(p.pack_id@) is Some,
        ensures
            final(stream)@ == old(stream)@ + piece_bytes(p@),
    {
        PacketSerializer::put_string(stream, p.piece_id.as_str());
        put_i32_le(stream, p.piece_type);
        PacketSerializer::put_uuid(stream, p.pack_id.as_str());
        put_bool(stream, p.is_default_piece);
        PacketSerializer::put_string(stream, p.product_id.as_str());
        assert(final(stream)@ =~= old(stream)@ + piece_bytes(p@));
    }

    fn put_tint_color(stream: &mut Vec<u8>, t: &PersonaPieceTintColor)
        ensures
            final(stream)@ == old(stream)@ + tint_bytes(t@),
    {
        PacketSerializer::put_string(stream, t.piece_type.as_str());
        let ghost mid = stream@;
        let mut i: usize = 0;
        while i < t.colors.len()
            invariant
                i <= t.colors@.len(),
                stream@ == mid + colors_bytes(t.colors@.take(i as int)),
            decreases t.colors@.len() - i,
        {
            put_i32_le(stream, t.colors[i]);
            i = i + 1;
            assert(t.colors@.take(i as int).drop_last() =~= t.colors@.take(i - 1));
            assert(stream@ =~= mid + colors_bytes(t.colors@.take(i as int)));
        }
        assert(t.colors@.take(i as int) =~= t.colors@);
        assert(final(stream)@ =~= old(stream)@ + tint_bytes(t@));
    }

    #[verifier::spinoff_prover]
    fn put_skin_front(stream: &mut Vec<u8>, skin: &SkinData)
        ensures
            final(stream)@ == old(stream)@ + skin_front_bytes(skin@),
    {
        let ghost v = skin@;
        PacketSerializer::put_string(stream, skin.skin_id.as_str());
        PacketSerializer::put_string(stream, skin.play_fab_id.as_str());
        PacketSerializer::put_string(stream, skin.resource_patch.as_str());
        Self::put_skin_image(stream, &skin.skin_image);
        put_var_u32(stream, (skin.animations.len() as u64 % 0x1_0000_0000) as u32);
        let ghost m1 = stream@;
        let mut i: usize = 0;
        while i < skin.animations.len()
            invariant
                i <= skin.animations@.len(),
                v == skin@,
                stream@ == m1 + animations_bytes(v.animations.take(i as int)),
            decreases skin.animations@.len() - i,
        {
            Self::put_skin_animation(stream, &skin.animations[i]);
            i = i + 1;
            assert(v.animations.take(i as int).drop_last() =~= v.animations.take(i - 1));
            assert(stream@ =~= m1 + animations_bytes(v.animations.take(i as int)));
        }
        assert(v.animations.take(i as int) =~= v.animations);
        match &skin.cape_image {
            Some(c) => Self::put_skin_image(stream, c),
            None => {},
        }
        assert(final(stream)@ =~= old(stream)@ + skin_front_bytes(v));
    }

    #[verifier::spinoff_prover]
    fn put_skin_middle(stream: &mut Vec<u8>, skin: &SkinData)
        ensures
            final(stream)@ == old(stream)@ + skin_middle_bytes(skin@),
    {
        PacketSerializer::put_string(stream, skin.geometry_data.as_str());
        PacketSerializer::put_string(stream, skin.geometry_data_engine_version.as_str());
        PacketSerializer::put_string(stream, skin.animation_data.as_str());
        PacketSerializer::put_string(stream, skin.cape_id.as_str());
        match &skin.full_skin_id {
            Some(f) => PacketSerializer::put_string(stream, f.as_str()),
            None => {},
        }
        put_u8(stream, skin.arm_size);
        put_i32_le(stream, skin.skin_color);
        assert(final(stream)@ =~= old(stream)@ + skin_middle_bytes(skin@));
    }

    #[verifier::spinoff_prover]
    fn put_persona_pieces(stream: &mut Vec<u8>, pieces: &Vec<PersonaSkinPiece>)
        requires
            pieces_writable(pieces@.map_values(|p: PersonaSkinPiece| p@)),
        ensures
            final(stream)@ == old(stream)@ + count_bytes(pieces@.len()) + pieces_bytes(
                pieces@.map_values(|p: PersonaSkinPiece| p@),
            ),
    {
        let ghost ps = pieces@.map_values(|p: PersonaSkinPiece| p@);
        put_var_u32(stream, (pieces.len() as u64 % 0x1_0000_0000) as u32);
        let ghost m = stream@;
        let mut j: usize = 0;
        while j < pieces.len()
            invariant
                j <= pieces@.len(),
                ps == pieces@.map_values(|p: PersonaSkinPiece| p@),
                pieces_writable(ps),
                stream@ == m + pieces_bytes(ps.take(j as int)),
            decreases pieces@.len() - j,
        {
            assert(uuid_parse(ps[j as int].pack_id) is Some);
            Self::put_persona_piece(stream, &pieces[j]);
            j = j + 1;
            assert(ps.take(j as int).drop_last() =~= ps.take(j - 1));
            assert(stream@ =~= m + pieces_bytes(ps.take(j as int)));
        }
        assert(ps.take(j as int) =~= ps);
        assert(final(stream)@ =~= old(stream)@ + count_bytes(pieces@.len()) + pieces_bytes(ps));
    }

    #[verifier::spinoff_prover]
    fn put_tint_colors(stream: &mut Vec<u8>, tints: &Vec<PersonaPieceTintColor>)
        ensures
            final(stream)@ == old(stream)@ + count_bytes(tints@.len()) + tints_bytes(
                tints@.map_values(|t: PersonaPieceTintColor| t@),
            ),
    {
        let ghost ts = tints@.map_values(|t: PersonaPieceTintColor| t@);
        put_var_u32(stream, (tints.len() as u64 % 0x1_0000_0000) as u32);
        let ghost m = stream@;
        let mut k: usize = 0;
        while k < tints.len()
            invariant
                k <= tints@.len(),
                ts == tints@.map_values(|t: PersonaPieceTintColor| t@),
                stream@ == m + tints_bytes(ts.take(k as int)),
            decreases tints@.len() - k,
        {
            Self::put_tint_color(stream, &tints[k]);
            k = k + 1;
            assert(ts.take(k as int).drop_last() =~= ts.take(k - 1));
            assert(stream@ =~= m + tints_bytes(ts.take(k as int)));
        }
        assert(ts.take(k as int) =~= ts);
        assert(final(stream)@ =~= old(stream)@ + count_bytes(tints@.len()) + tints_bytes(ts));
    }

    #[verifier::spinoff_prover]
    fn put_skin_tail(stream: &mut Vec<u8>, skin: &SkinData)
        ensures
            final(stream)@ == old(stream)@ + skin_flags_bytes(skin@) + string_bytes(skin@.trusted_skin_flag)
                + string_bytes(skin@.profile_hash),
    {
        put_bool(stream, skin.premium);
        put_bool(stream, skin.persona);
        put_bool(stream, skin.persona_cape_on_classic);
        put_bool(stream, skin.is_primary_user);
        put_bool(stream, skin.is_override);
        assert(stream@ =~= old(stream)@ + skin_flags_bytes(skin@));
        PacketSerializer::put_string(stream, skin.trusted_skin_flag.as_str());
        PacketSerializer::put_string(stream, skin.profile_hash.as_str());
    }

    #[verifier::spinoff_prover]
    fn put_skin_back(stream: &mut Vec<u8>, skin: &SkinData)
        requires
            pieces_writable(skin@.persona_pieces),
        ensures
            final(stream)@ == old(stream)@ + skin_back_bytes(skin@),
    {
        let ghost v = skin@;
        Self::put_persona_pieces(stream, &skin.persona_pieces);
        Self::put_tint_colors(stream, &skin.piece_tint_colors);
        Self::put_skin_tail(stream, skin);
        assert(final(stream)@ =~= old(stream)@ + skin_back_bytes(v));
    }

    /// Appends the skin. Every persona piece must name its pack by text the
    /// UUID parser accepts.
    pub fn put_skin(stream: &mut Vec<u8>, skin: &SkinData)
        requires
            pieces_writable(skin@.persona_pieces),
        ensures
            final(stream)@ == old(stream)@ + skin_bytes(skin@),
    {
        Self::put_skin_front(stream, skin);
        Self::put_skin_middle(stream, skin);
        Self::put_skin_back(stream, skin);
        assert(final(stream)@ =~= old(stream)@ + skin_bytes(skin@));
    }
}

} // verus!
