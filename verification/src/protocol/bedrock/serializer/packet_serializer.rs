//! Encodings of the Bedrock protocol's common field types: strings, byte
//! strings, UUIDs, entity ids, block positions, item stacks and command origins.

use vstd::prelude::*;
use vstd::slice::slice_to_vec;
use vstd::utf8::{decode_utf8, encode_utf8, valid_utf8, encode_utf8_decode_utf8, encode_utf8_valid_utf8};
use vstd::string::StringSliceAdditionalSpecFns;
use crate::protocol::bedrock::types::command::command_origin_data::{
    CommandOriginData, CommandOriginDataView,
};
use crate::protocol::bedrock::types::inventory::item_stack::{ItemStack, ItemStackView};
use crate::protocol::bedrock::types::inventory::item_stack_wrapper::{
    ItemStackWrapper, ItemStackWrapperView,
};
use crate::wire::{
    bool_byte, lemma_bool_roundtrip, lemma_i16_le_roundtrip, lemma_i64_le_roundtrip,
    lemma_p128_values, lemma_p256_values, lemma_u16_le_roundtrip, lemma_var_i32_roundtrip,
    lemma_var_i64_roundtrip, lemma_var_u32_roundtrip, lemma_var_u64_roundtrip, lemma_varint_len,
    lemma_varint_parse_bound, lemma_varint_roundtrip, le_bytes, parse_bool, parse_i16_le, parse_i64_le, parse_u16_le,
    parse_var_i32, parse_var_i64, parse_var_u32, parse_var_u64, put_bool, put_bytes, put_i16_le,
    put_i64_le, put_u16_le, put_var_i32, put_var_i64, put_var_u32, put_var_u64, twos,
    utf8_to_string, var_i32_bytes, var_i64_bytes, var_u32_bytes, var_u64_bytes, varint_bytes,
    varint_parse, from_twos, ByteReader,
};

verus! {

/// A name for what `String::from_utf8_lossy` makes of some bytes: their
/// characters, with each ill-formed part replaced by U+FFFD.
pub uninterp spec fn utf8_lossy(bytes: Seq<u8>) -> Seq<char>;

/// `String::from_utf8_lossy(bytes).to_string()`; its characters are named
/// `utf8_lossy`, which this library does not spell out.
#[verifier::external_body]
fn utf8_lossy_to_string(bytes: &[u8]) -> (r: String)
    ensures
        r@ == utf8_lossy(bytes@),
{
    String::from_utf8_lossy(bytes).to_string()
}

/// A lowercase hexadecimal digit.
pub open spec fn hex_digit(n: u8) -> char {
    if n < 10 { (n + 0x30) as char } else { (n - 10 + 0x61) as char }
}

/// Two lowercase hexadecimal digits for each byte.
pub open spec fn hex_lower(b: Seq<u8>) -> Seq<char>
    decreases b.len(),
{
    if b.len() == 0 {
        Seq::empty()
    } else {
        seq![hex_digit(b[0] / 16), hex_digit(b[0] % 16)] + hex_lower(b.drop_first())
    }
}

/// The hyphenated text of a UUID: its sixteen bytes in lowercase hex, in
/// groups of 4, 2, 2, 2 and 6 bytes joined by `-`.
pub open spec fn uuid_text(b: Seq<u8>) -> Seq<char> {
    hex_lower(b.subrange(0, 4)) + seq!['-'] + hex_lower(b.subrange(4, 6)) + seq!['-'] + hex_lower(
        b.subrange(6, 8),
    ) + seq!['-'] + hex_lower(b.subrange(8, 10)) + seq!['-'] + hex_lower(b.subrange(10, 16))
}

/// `Uuid::from_bytes(b).to_string()`: the hyphenated lowercase text of the UUID.
#[verifier::external_body]
fn uuid_to_text(b: [u8; 16]) -> (r: String)
    ensures
        r@ == uuid_text(b@),
{
    uuid::Uuid::from_bytes(b).to_string()
}

/// A name for the bytes `Uuid::parse_str` reads from a text, `None` where it
/// refuses the text.
pub uninterp spec fn uuid_parse(s: Seq<char>) -> Option<Seq<u8>>;

/// `Uuid::parse_str(s)`, as bytes. Its result is named `uuid_parse`; of the
/// forms it accepts (simple, hyphenated, braced, URN, either case) only the
/// hyphenated lowercase text `uuid_text` is spelt out: it is accepted, and
/// read as bytes whose text it is.
#[verifier::external_body]
fn parse_uuid(s: &str) -> (r: Option<[u8; 16]>)
    ensures
        r is None <==> uuid_parse(s@) is None,
        r matches Some(a) ==> a@ == uuid_parse(s@).unwrap(),
        r is None ==> !(exists|b: Seq<u8>| b.len() == 16 && s@ == uuid_text(b)),
        r matches Some(a) ==> ((exists|b: Seq<u8>| b.len() == 16 && s@ == uuid_text(b)) ==> s@ == uuid_text(a@)),
{
    match uuid::Uuid::parse_str(s) {
        Ok(u) => Some(u.into_bytes()),
        Err(_) => None,
    }
}

/// A byte string: its length as a variable-length integer (kept to 32 bits), then its bytes.
pub open spec fn byte_string_bytes(d: Seq<u8>) -> Seq<u8> {
    varint_bytes(d.len() % 0x1_0000_0000) + d
}

/// A string: the byte string of its UTF-8 encoding.
pub open spec fn string_bytes(c: Seq<char>) -> Seq<u8> {
    byte_string_bytes(encode_utf8(c))
}

/// The byte string at the start of `s` and how many bytes it took.
pub open spec fn parse_byte_string(s: Seq<u8>) -> Option<(Seq<u8>, nat)> {
    match parse_var_u32(s) {
        Some((len, n)) => if s.len() >= n + len {
            Some((s.subrange(n as int, (n + len) as int), (n + len) as nat))
        } else {
            None
        },
        None => None,
    }
}

/// The string at the start of `s`: the characters of its bytes when they are
/// UTF-8, else what `from_utf8_lossy` makes of them.
pub open spec fn parse_string(s: Seq<u8>) -> Option<(Seq<char>, nat)> {
    match parse_byte_string(s) {
        Some((b, n)) => Some((if valid_utf8(b) { decode_utf8(b) } else { utf8_lossy(b) }, n)),
        None => None,
    }
}

/// The UUID bytes as they travel: each half of eight bytes reversed.
pub open spec fn swap_halves(b: Seq<u8>) -> Seq<u8> {
    b.subrange(0, 8).reverse() + b.subrange(8, 16).reverse()
}

/// The UUID at the start of `s`, as text.
pub open spec fn parse_uuid_field(s: Seq<u8>) -> Option<(Seq<char>, nat)> {
    if s.len() < 16 { None } else { Some((uuid_text(swap_halves(s.take(16))), 16)) }
}

pub struct PacketSerializer {}

impl PacketSerializer {
    pub fn get_byte_string(stream: &mut ByteReader) -> (r: Option<Vec<u8>>)
        ensures
            match parse_byte_string(old(stream).rest()) {
                Some((b, n)) => r matches Some(v) && v@ == b && final(stream).rest() == old(
                    stream,
                ).rest().skip(n as int),
                None => r is None && final(stream).rest() == old(stream).rest(),
            },
    {
        let mut cur = *stream;
        let ghost s = cur.rest();
        let len = match cur.get_var_u32() {
            Some(l) => l,
            None => return None,
        };
        let ghost n = varint_parse(s, 5).unwrap().1;
        proof {
            lemma_varint_parse_bound(s, 5);
        }
        let bytes = match cur.get(len as usize) {
            Some(b) => b,
            None => return None,
        };
        assert(s.skip(n as int).take(len as int) =~= s.subrange(n as int, (n + len) as int));
        assert(s.skip(n as int).skip(len as int) =~= s.skip((n + len) as int));
        *stream = cur;
        Some(bytes)
    }

    pub fn put_byte_string(stream: &mut Vec<u8>, data: &[u8])
        ensures
            final(stream)@ == old(stream)@ + byte_string_bytes(data@),
    {
        put_var_u32(stream, (data.len() as u64 % 0x1_0000_0000) as u32);
        put_bytes(stream, data);
        assert(final(stream)@ =~= old(stream)@ + byte_string_bytes(data@)) by {
            lemma_p256_values();
        }
    }

    pub fn get_string(stream: &mut ByteReader) -> (r: Option<String>)
        ensures
            match parse_string(old(stream).rest()) {
                Some((c, n)) => r matches Some(v) && v@ == c && final(stream).rest() == old(
                    stream,
                ).rest().skip(n as int),
                None => r is None && final(stream).rest() == old(stream).rest(),
            },
    {
        let bytes = match Self::get_byte_string(stream) {
            Some(b) => b,
            None => return None,
        };
        let copy = slice_to_vec(bytes.as_slice());
        match utf8_to_string(copy) {
            Some(s) => Some(s),
            None => Some(utf8_lossy_to_string(bytes.as_slice())),
        }
    }

    pub fn put_string(stream: &mut Vec<u8>, data: &str)
        ensures
            final(stream)@ == old(stream)@ + string_bytes(data@),
    {
        Self::put_byte_string(stream, data.as_bytes());
    }

    /// Reads a UUID, each half of eight bytes reversed, as hyphenated text.
    pub fn get_uuid(stream: &mut ByteReader) -> (r: Option<String>)
        ensures
            match parse_uuid_field(old(stream).rest()) {
                Some((c, n)) => r matches Some(v) && v@ == c && final(stream).rest() == old(
                    stream,
                ).rest().skip(n as int),
                None => r is None && final(stream).rest() == old(stream).rest(),
            },
    {
        let ghost s = stream.rest();
        let b = match stream.get(16) {
            Some(b) => b,
            None => return None,
        };
        let bytes: [u8; 16] = [
            b[7], b[6], b[5], b[4], b[3], b[2], b[1], b[0], b[15], b[14], b[13], b[12], b[11],
            b[10], b[9], b[8],
        ];
        assert(bytes@ =~= swap_halves(s.take(16)));
        Some(uuid_to_text(bytes))
    }

    /// Writes the UUID that `data` spells, each half of eight bytes reversed.
    /// Every hyphenated lowercase text is accepted: for one, the bytes
    /// written are those whose text it is.
    pub fn put_uuid(stream: &mut Vec<u8>, data: &str)
        requires
            uuid_parse(data@) is Some || (exists|b: Seq<u8>| b.len() == 16 && data@ == uuid_text(b)),
        ensures
            final(stream)@ == old(stream)@ + swap_halves(uuid_parse(data@).unwrap()),
            uuid_parse(data@).unwrap().len() == 16,
            (exists|b: Seq<u8>| b.len() == 16 && data@ == uuid_text(b)) ==> uuid_text(
                uuid_parse(data@).unwrap(),
            ) == data@,
            forall|b: Seq<u8>|
                b.len() == 16 && data@ == #[trigger] uuid_text(b) ==> final(stream)@ == old(stream)@
                    + swap_halves(b),
    {
        let b = match parse_uuid(data) {
            Some(b) => b,
            None => {
                assert(false);
                return;
            },
        };
        let p: [u8; 16] = [
            b[7], b[6], b[5], b[4], b[3], b[2], b[1], b[0], b[15], b[14], b[13], b[12], b[11],
            b[10], b[9], b[8],
        ];
        assert(p@ =~= swap_halves(b@));
        put_bytes(stream, p.as_slice());
        assert forall|u: Seq<u8>| u.len() == 16 && data@ == #[trigger] uuid_text(u) implies stream@
            == old(stream)@ + swap_halves(u) by {
            lemma_uuid_text_injective(u, b@);
        }
    }

    /// Whether `data` is text the UUID parser accepts; it accepts every
    /// hyphenated lowercase text.
    pub fn is_uuid(data: &str) -> (r: bool)
        ensures
            r == uuid_parse(data@) is Some,
            (exists|b: Seq<u8>| b.len() == 16 && data@ == uuid_text(b)) ==> r,
    {
        parse_uuid(data).is_some()
    }

    pub fn get_actor_unique_id(stream: &mut ByteReader) -> (r: Option<i64>)
        ensures
            match parse_var_i64(old(stream).rest()) {
                Some((v, n)) => r == Some(v) && final(stream).rest() == old(stream).rest().skip(n as int),
                None => r is None && final(stream).rest() == old(stream).rest(),
            },
    {
        stream.get_var_i64()
    }

    pub fn put_actor_unique_id(stream: &mut Vec<u8>, data: i64)
        ensures
            final(stream)@ == old(stream)@ + var_i64_bytes(data),
    {
        put_var_i64(stream, data);
    }

    pub fn get_actor_runtime_id(stream: &mut ByteReader) -> (r: Option<u64>)
        ensures
            match parse_var_u64(old(stream).rest()) {
                Some((v, n)) => r == Some(v) && final(stream).rest() == old(stream).rest().skip(n as int),
                None => r is None && final(stream).rest() == old(stream).rest(),
            },
    {
        stream.get_var_u64()
    }

    pub fn put_actor_runtime_id(stream: &mut Vec<u8>, data: u64)
        ensures
            final(stream)@ == old(stream)@ + var_u64_bytes(data),
    {
        put_var_u64(stream, data);
    }

    /// Reads three variable-length signed coordinates.
    pub fn get_block_pos(stream: &mut ByteReader) -> (r: Option<Vec<i32>>)
        ensures
            match parse_block_pos(old(stream).rest()) {
                Some((p, n)) => r matches Some(v) && v@ == p && final(stream).rest() == old(
                    stream,
                ).rest().skip(n as int),
                None => r is None && final(stream).rest() == old(stream).rest(),
            },
    {
        let mut cur = *stream;
        let ghost s = cur.rest();
        let x = match cur.get_var_i32() {
            Some(v) => v,
            None => return None,
        };
        let ghost n1 = parse_var_i32(s).unwrap().1;
        proof {
            lemma_varint_parse_bound(s, 5);
        }
        let y = match cur.get_var_i32() {
            Some(v) => v,
            None => return None,
        };
        let ghost n2 = parse_var_i32(s.skip(n1 as int)).unwrap().1;
        proof {
            lemma_varint_parse_bound(s.skip(n1 as int), 5);
        }
        assert(s.skip(n1 as int).skip(n2 as int) =~= s.skip((n1 + n2) as int));
        let z = match cur.get_var_i32() {
            Some(v) => v,
            None => return None,
        };
        let ghost n3 = parse_var_i32(s.skip((n1 + n2) as int)).unwrap().1;
        proof {
            lemma_varint_parse_bound(s.skip((n1 + n2) as int), 5);
        }
        assert(s.skip((n1 + n2) as int).skip(n3 as int) =~= s.skip((n1 + n2 + n3) as int));
        *stream = cur;
        let v = vec![x, y, z];
        assert(v@ =~= seq![x, y, z]);
        Some(v)
    }

    pub fn put_block_pos(stream: &mut Vec<u8>, data: &Vec<i32>)
        requires
            data@.len() >= 3,
        ensures
            final(stream)@ == old(stream)@ + var_i32_bytes(data@[0]) + var_i32_bytes(data@[1])
                + var_i32_bytes(data@[2]),
    {
        put_var_i32(stream, data[0]);
        put_var_i32(stream, data[1]);
        put_var_i32(stream, data[2]);
        assert(final(stream)@ =~= old(stream)@ + var_i32_bytes(data@[0]) + var_i32_bytes(data@[1])
            + var_i32_bytes(data@[2]));
    }

    pub fn read_recipe_net_id(stream: &mut ByteReader) -> (r: Option<i32>)
        ensures
            match parse_var_i32(old(stream).rest()) {
                Some((v, n)) => r == Some(v) && final(stream).rest() == old(stream).rest().skip(n as int),
                None => r is None && final(stream).rest() == old(stream).rest(),
            },
    {
        stream.get_var_i32()
    }

    pub fn write_recipe_net_id(stream: &mut Vec<u8>, id: i32)
        ensures
            final(stream)@ == old(stream)@ + var_i32_bytes(id),
    {
        put_var_i32(stream, id);
    }

    pub fn read_creative_item_net_id(stream: &mut ByteReader) -> (r: Option<u32>)
        ensures
            match parse_var_u32(old(stream).rest()) {
                Some((v, n)) => r == Some(v) && final(stream).rest() == old(stream).rest().skip(n as int),
                None => r is None && final(stream).rest() == old(stream).rest(),
            },
    {
        stream.get_var_u32()
    }

    pub fn write_creative_item_net_id(stream: &mut Vec<u8>, id: u32)
        ensures
            final(stream)@ == old(stream)@ + var_u32_bytes(id),
    {
        put_var_u32(stream, id);
    }

    /// Reads an id that is a server item stack id (positive), a legacy
    /// request id (negative, even), an item stack request id (negative, odd),
    /// or 0 for an empty stack.
    pub fn read_item_stack_net_id_variant(stream: &mut ByteReader) -> (r: Option<i32>)
        ensures
            match parse_var_i32(old(stream).rest()) {
                Some((v, n)) => r == Some(v) && final(stream).rest() == old(stream).rest().skip(n as int),
                None => r is None && final(stream).rest() == old(stream).rest(),
            },
    {
        stream.get_var_i32()
    }

    pub fn write_item_stack_net_id_variant(stream: &mut Vec<u8>, id: i32)
        ensures
            final(stream)@ == old(stream)@ + var_i32_bytes(id),
    {
        put_var_i32(stream, id);
    }

    pub fn read_item_stack_request_id(stream: &mut ByteReader) -> (r: Option<i32>)
        ensures
            match parse_var_i32(old(stream).rest()) {
                Some((v, n)) => r == Some(v) && final(stream).rest() == old(stream).rest().skip(n as int),
                None => r is None && final(stream).rest() == old(stream).rest(),
            },
    {
        stream.get_var_i32()
    }

    pub fn write_item_stack_request_id(stream: &mut Vec<u8>, id: i32)
        ensures
            final(stream)@ == old(stream)@ + var_i32_bytes(id),
    {
        put_var_i32(stream, id);
    }

    pub fn read_legacy_item_stack_request_id(stream: &mut ByteReader) -> (r: Option<i32>)
        ensures
            match parse_var_i32(old(stream).rest()) {
                Some((v, n)) => r == Some(v) && final(stream).rest() == old(stream).rest().skip(n as int),
                None => r is None && final(stream).rest() == old(stream).rest(),
            },
    {
        stream.get_var_i32()
    }

    pub fn write_legacy_item_stack_request_id(stream: &mut Vec<u8>, id: i32)
        ensures
            final(stream)@ == old(stream)@ + var_i32_bytes(id),
    {
        put_var_i32(stream, id);
    }

    pub fn read_server_item_stack_id(stream: &mut ByteReader) -> (r: Option<i32>)
        ensures
            match parse_var_i32(old(stream).rest()) {
                Some((v, n)) => r == Some(v) && final(stream).rest() == old(stream).rest().skip(n as int),
                None => r is None && final(stream).rest() == old(stream).rest(),
            },
    {
        stream.get_var_i32()
    }

    pub fn write_server_item_stack_id(stream: &mut Vec<u8>, id: i32)
        ensures
            final(stream)@ == old(stream)@ + var_i32_bytes(id),
    {
        put_var_i32(stream, id);
    }

    /// Reads the block runtime id and extra data that end an item stack.
    fn get_item_stack_footer(stream: &mut ByteReader, id: i32, meta: u32, count: u16) -> (r: Option<ItemStack>)
        ensures
            match parse_item_stack_footer(old(stream).rest()) {
                Some((brid, raw, rest)) => r matches Some(v) && v@ == (ItemStackView {
                    id,
                    meta,
                    count,
                    block_runtime_id: brid,
                    raw_extra_data: raw,
                }) && final(stream).rest() == rest,
                None => r is None && final(stream).rest() == old(stream).rest(),
            },
    {
        let mut cur = *stream;
        let block_runtime_id = match cur.get_var_i32() {
            Some(v) => v,
            None => return None,
        };
        let raw_extra_data = match Self::get_byte_string(&mut cur) {
            Some(v) => v,
            None => return None,
        };
        *stream = cur;
        Some(ItemStack::new(id, meta, count, block_runtime_id, raw_extra_data))
    }

    fn put_item_stack_footer(stream: &mut Vec<u8>, stack: &ItemStack)
        ensures
            final(stream)@ == old(stream)@ + var_i32_bytes(stack.block_runtime_id) + byte_string_bytes(
                stack.raw_extra_data@,
            ),
    {
        put_var_i32(stream, stack.block_runtime_id);
        Self::put_byte_string(stream, stack.raw_extra_data.as_slice());
        assert(final(stream)@ =~= old(stream)@ + var_i32_bytes(stack.block_runtime_id)
            + byte_string_bytes(stack.raw_extra_data@));
    }

    pub fn get_item_stack_without_stack_id(stream: &mut ByteReader) -> (r: Option<ItemStack>)
        ensures
            match parse_item_stack(old(stream).rest()) {
                Some((v, rest)) => r matches Some(x) && x@ == v && final(stream).rest() == rest,
                None => r is None && final(stream).rest() == old(stream).rest(),
            },
    {
        let mut cur = *stream;
        let id = match cur.get_var_i32() {
            Some(v) => v,
            None => return None,
        };
        let count = match cur.get_u16_le() {
            Some(v) => v,
            None => return None,
        };
        let meta = match cur.get_var_u32() {
            Some(v) => v,
            None => return None,
        };
        let stack = match Self::get_item_stack_footer(&mut cur, id, meta, count) {
            Some(v) => v,
            None => return None,
        };
        *stream = cur;
        Some(stack)
    }

    pub fn put_item_stack_without_stack_id(stream: &mut Vec<u8>, stack: &ItemStack)
        ensures
            final(stream)@ == old(stream)@ + item_stack_bytes(stack@),
    {
        put_var_i32(stream, stack.id);
        put_u16_le(stream, stack.count);
        put_var_u32(stream, stack.meta);
        Self::put_item_stack_footer(stream, stack);
        assert(final(stream)@ =~= old(stream)@ + item_stack_bytes(stack@));
    }

    /// Reads an item stack in the form recipes and creative items use: a
    /// 16-bit id, a stack id only when a flag says there is one (0 otherwise),
    /// and an unsigned block runtime id.
    pub fn get_network_item_stack_descriptor(stream: &mut ByteReader) -> (r: Option<ItemStackWrapper>)
        ensures
            match parse_network_item(old(stream).rest()) {
                Some((v, rest)) => r matches Some(x) && x@ == v && final(stream).rest() == rest,
                None => r is None && final(stream).rest() == old(stream).rest(),
            },
    {
        let mut cur = *stream;
        let id = match cur.get_i16_le() {
            Some(v) => v,
            None => return None,
        };
        let count = match cur.get_u16_le() {
            Some(v) => v,
            None => return None,
        };
        let meta = match cur.get_var_u32() {
            Some(v) => v,
            None => return None,
        };
        let has_net_id = match cur.get_bool() {
            Some(v) => v,
            None => return None,
        };
        let mut stack_id: i32 = 0;
        assert(cur.rest().skip(0) =~= cur.rest());
        if has_net_id {
            stack_id = match cur.get_var_i32() {
                Some(v) => v,
                None => return None,
            };
        }
        let block_runtime_id = match cur.get_var_u32() {
            Some(v) => v,
            None => return None,
        };
        let raw_extra_data = match Self::get_byte_string(&mut cur) {
            Some(v) => v,
            None => return None,
        };
        *stream = cur;
        let brid: i32 = if block_runtime_id >= 0x8000_0000 {
            (block_runtime_id as i64 - 0x1_0000_0000) as i32
        } else {
            block_runtime_id as i32
        };
        proof {
            lemma_p256_values();
        }
        Some(ItemStackWrapper {
            stack_id,
            item_stack: ItemStack {
                id: id as i32,
                meta,
                count,
                block_runtime_id: brid,
                raw_extra_data,
            },
        })
    }

    pub fn put_network_item_stack_descriptor(stream: &mut Vec<u8>, wrapper: &ItemStackWrapper)
        ensures
            final(stream)@ == old(stream)@ + network_item_bytes(wrapper@),
    {
        let id = wrapper.item_stack.id;
        let id16: u16 = if id >= 0 {
            (id % 0x10000) as u16
        } else {
            ((0x10000 - ((-(id as i64)) % 0x10000)) % 0x10000) as u16
        };
        assert(id16 as int == (id as int) % 0x10000) by {
            if id < 0 {
                let m = (-(id as int)) % 0x10000;
                assert((id as int) == -(-(id as int)));
                assert(((id as int) % 0x10000 + m) % 0x10000 == 0);
            }
        }
        put_u16_le(stream, id16);
        put_u16_le(stream, wrapper.item_stack.count);
        put_var_u32(stream, wrapper.item_stack.meta);
        let has_net_id = wrapper.stack_id != 0;
        put_bool(stream, has_net_id);
        if has_net_id {
            put_var_i32(stream, wrapper.stack_id);
        }
        let b = wrapper.item_stack.block_runtime_id;
        let b32: u32 = if b >= 0 { b as u32 } else { (b as i64 + 0x1_0000_0000) as u32 };
        proof {
            lemma_p256_values();
        }
        assert(b32 as nat == twos(b as int, 4));
        put_var_u32(stream, b32);
        Self::put_byte_string(stream, wrapper.item_stack.raw_extra_data.as_slice());
        assert(final(stream)@ =~= old(stream)@ + network_item_bytes(wrapper@));
    }

    pub fn get_command_origin_data(stream: &mut ByteReader) -> (r: Option<CommandOriginData>)
        ensures
            match parse_command_origin(old(stream).rest()) {
                Some((v, rest)) => r matches Some(x) && x@ == v && final(stream).rest() == rest,
                None => r is None && final(stream).rest() == old(stream).rest(),
            },
    {
        let mut cur = *stream;
        let origin_type = match Self::get_string(&mut cur) {
            Some(v) => v,
            None => return None,
        };
        let uuid = match Self::get_uuid(&mut cur) {
            Some(v) => v,
            None => return None,
        };
        let request_id = match Self::get_string(&mut cur) {
            Some(v) => v,
            None => return None,
        };
        let player_actor_unique_id = match cur.get_i64_le() {
            Some(v) => v,
            None => return None,
        };
        *stream = cur;
        Some(CommandOriginData { origin_type, uuid, request_id, player_actor_unique_id })
    }

    pub fn put_command_origin_data(stream: &mut Vec<u8>, data: &CommandOriginData)
        requires
            uuid_parse(data.uuid@) is Some,
        ensures
            final(stream)@ == old(stream)@ + command_origin_bytes(data@),
    {
        Self::put_string(stream, data.origin_type.as_str());
        Self::put_uuid(stream, data.uuid.as_str());
        Self::put_string(stream, data.request_id.as_str());
        put_i64_le(stream, data.player_actor_unique_id);
        assert(final(stream)@ =~= old(stream)@ + command_origin_bytes(data@));
    }

    /// Reads a flag byte and, when it is not zero, a value with `read_fn`.
    /// `Some(None)` is an absent value; `None` is a missing flag or a value
    /// that `read_fn` could not read, and then `stream` is left as it was.
    pub fn read_optional<'a, T, F>(stream: &mut ByteReader<'a>, read_fn: F) -> (r: Option<Option<T>>)
        where F: FnOnce(&mut ByteReader<'a>) -> Option<T>,
        requires
            forall|s: &mut ByteReader<'a>| call_requires(read_fn, (s,)),
        ensures
            old(stream).rest().len() == 0 ==> r is None && final(stream).rest() == old(stream).rest(),
            old(stream).rest().len() > 0 && old(stream).rest()[0] == 0 ==> r == Some(None::<T>)
                && final(stream).rest() == old(stream).rest().skip(1),
            old(stream).rest().len() > 0 && old(stream).rest()[0] != 0 ==> exists|
                s: &mut ByteReader<'a>,
                out: Option<T>,
            |
                (*s).rest() == old(stream).rest().skip(1) && call_ensures(read_fn, (s,), out)
                    && match out {
                    Some(x) => r == Some(Some(x)) && final(stream).rest() == (*final(s)).rest(),
                    None => r is None && final(stream).rest() == old(stream).rest(),
                },
    {
        let saved: ByteReader<'a> = *stream;
        match stream.get_bool() {
            None => None,
            Some(false) => Some(None),
            Some(true) => match read_fn(stream) {
                Some(x) => Some(Some(x)),
                None => {
                    *stream = saved;
                    None
                },
            },
        }
    }

    /// Appends a flag byte, 1 when there is a value and 0 when there is none,
    /// and then the value with `write_fn`.
    pub fn write_optional<T, F>(stream: &mut Vec<u8>, value: &Option<T>, write_fn: F)
        where F: FnOnce(&mut Vec<u8>, &T),
        requires
            value matches Some(v) ==> forall|s: &mut Vec<u8>| call_requires(write_fn, (s, v)),
        ensures
            value is None ==> final(stream)@ == old(stream)@.push(0),
            value matches Some(v) ==> exists|s: &mut Vec<u8>|
                (*s)@ == old(stream)@.push(1) && call_ensures(write_fn, (s, v), ())
                    && final(stream)@ == (*final(s))@,
    {
        match value {
            Some(v) => {
                put_bool(stream, true);
                write_fn(stream, v);
            },
            None => {
                put_bool(stream, false);
            },
        }
    }

    /// Reads an outer flag byte and, when it is not zero, an optional value as
    /// `read_optional` does. `Some(None)` is an absent value at either level;
    /// `None` is a missing flag or an unreadable value, and then `stream` is
    /// left as it was.
    pub fn read_double_optional<'a, T, F>(stream: &mut ByteReader<'a>, read_fn: F) -> (r: Option<Option<T>>)
        where F: FnOnce(&mut ByteReader<'a>) -> Option<T>,
        requires
            forall|s: &mut ByteReader<'a>| call_requires(read_fn, (s,)),
        ensures
            old(stream).rest().len() == 0 ==> r is None && final(stream).rest() == old(stream).rest(),
            old(stream).rest().len() > 0 && old(stream).rest()[0] == 0 ==> r == Some(None::<T>)
                && final(stream).rest() == old(stream).rest().skip(1),
            old(stream).rest().len() == 1 && old(stream).rest()[0] != 0 ==> r is None
                && final(stream).rest() == old(stream).rest(),
            old(stream).rest().len() > 1 && old(stream).rest()[0] != 0 && old(stream).rest()[1] == 0
                ==> r == Some(None::<T>) && final(stream).rest() == old(stream).rest().skip(2),
            old(stream).rest().len() > 1 && old(stream).rest()[0] != 0 && old(stream).rest()[1] != 0
                ==> exists|s: &mut ByteReader<'a>, out: Option<T>|
                (*s).rest() == old(stream).rest().skip(2) && call_ensures(read_fn, (s,), out)
                    && match out {
                    Some(x) => r == Some(Some(x)) && final(stream).rest() == (*final(s)).rest(),
                    None => r is None && final(stream).rest() == old(stream).rest(),
                },
            forall|dec: spec_fn(Seq<u8>) -> Option<(T, nat)>|
                (forall|s: &mut ByteReader<'a>, out: Option<T>|
                    call_ensures(read_fn, (s,), out) ==> reads_back(dec, (*s).rest(), out, (*final(s)).rest()))
                    ==> double_optional_read(#[trigger] parse_double_optional(old(stream).rest(), dec),
                        old(stream).rest(), r, final(stream).rest()),
    {
        let saved: ByteReader<'a> = *stream;
        match stream.get_bool() {
            None => None,
            Some(false) => Some(None),
            Some(true) => {
                let ghost mid = stream.rest();
                let r = Self::read_optional(stream, read_fn);
                let ghost after_opt = stream.rest();
                if r.is_none() {
                    *stream = saved;
                }
                proof {
                    assert forall|dec: spec_fn(Seq<u8>) -> Option<(T, nat)>|
                        (forall|s: &mut ByteReader<'a>, out: Option<T>|
                            call_ensures(read_fn, (s,), out) ==> reads_back(dec, (*s).rest(), out, (*final(s)).rest()))
                        implies double_optional_read(#[trigger] parse_double_optional(old(stream).rest(), dec),
                            old(stream).rest(), r, stream.rest()) by {
                        let o = old(stream).rest();
                        assert(mid =~= o.skip(1));
                        assert(r is None ==> stream.rest() == o);
                        assert(r is Some ==> stream.rest() == after_opt);
                        if o.len() > 1 {
                            assert(mid.skip(1) =~= o.skip(2));
                        }
                        if o.len() > 1 && o[1] != 0 {
                            let (s, out) = choose|s: &mut ByteReader<'a>, out: Option<T>|
                                (*s).rest() == mid.skip(1) && call_ensures(read_fn, (s,), out)
                                    && match out {
                                    Some(x) => r == Some(Some(x)) && after_opt == (*final(s)).rest(),
                                    None => r is None && after_opt == mid,
                                };
                            assert(reads_back(dec, (*s).rest(), out, (*final(s)).rest()));
                            match dec(o.skip(2)) {
                                Some((x, n)) => {
                                    assert(o.skip(2).skip(n as int) =~= o.skip((n + 2) as int));
                                },
                                None => {},
                            }
                        }
                    }
                }
                r
            },
        }
    }

    /// Appends a flag byte 1, then the value as `write_optional` does.
    pub fn write_double_optional<T, F>(stream: &mut Vec<u8>, value: &Option<T>, write_fn: F)
        where F: FnOnce(&mut Vec<u8>, &T),
        requires
            value matches Some(v) ==> forall|s: &mut Vec<u8>| call_requires(write_fn, (s, v)),
        ensures
            value is None ==> final(stream)@ == old(stream)@.push(1).push(0),
            value matches Some(v) ==> exists|s: &mut Vec<u8>|
                (*s)@ == old(stream)@.push(1).push(1) && call_ensures(write_fn, (s, v), ())
                    && final(stream)@ == (*final(s))@,
            forall|enc: spec_fn(T) -> Seq<u8>|
                (forall|s: &mut Vec<u8>, x: &T|
                    call_ensures(write_fn, (s, x), ()) ==> (*final(s))@ == (*s)@ + enc(*x))
                    ==> final(stream)@ == old(stream)@ + #[trigger] double_optional_bytes(*value, enc),
    {
        put_bool(stream, true);
        Self::write_optional(stream, value, write_fn);
        proof {
            assert forall|enc: spec_fn(T) -> Seq<u8>|
                (forall|s: &mut Vec<u8>, x: &T|
                    call_ensures(write_fn, (s, x), ()) ==> (*final(s))@ == (*s)@ + enc(*x))
                implies stream@ == old(stream)@ + #[trigger] double_optional_bytes(*value, enc) by {
                match value {
                    Some(v) => {
                        let s = choose|s: &mut Vec<u8>|
                            (*s)@ == old(stream)@.push(1).push(1) && call_ensures(write_fn, (s, v), ())
                                && stream@ == (*final(s))@;
                        assert(stream@ =~= old(stream)@ + double_optional_bytes(*value, enc));
                    },
                    None => {
                        assert(stream@ =~= old(stream)@ + double_optional_bytes(*value, enc));
                    },
                }
            }
        }
    }
}

/// A reader described by `dec` gave `out` on input `s` and left `after`: the
/// value `dec` finds with the bytes it took skipped, or `None` where `dec`
/// finds none.
pub open spec fn reads_back<T>(dec: spec_fn(Seq<u8>) -> Option<(T, nat)>, s: Seq<u8>, out: Option<T>, after: Seq<u8>) -> bool {
    match dec(s) {
        Some((x, n)) => out == Some(x) && n <= s.len() && after == s.skip(n as int),
        None => out is None,
    }
}

/// The double optional at the start of `s` read with `dec`, and how many
/// bytes it takes.
pub open spec fn parse_double_optional<T>(s: Seq<u8>, dec: spec_fn(Seq<u8>) -> Option<(T, nat)>) -> Option<(Option<T>, nat)> {
    if s.len() == 0 {
        None
    } else if s[0] == 0 {
        Some((None, 1))
    } else if s.len() == 1 {
        None
    } else if s[1] == 0 {
        Some((None, 2))
    } else {
        match dec(s.skip(2)) {
            Some((x, n)) => if n <= s.len() - 2 { Some((Some(x), n + 2)) } else { None },
            None => None,
        }
    }
}

/// A read of a double optional that found `p` in `s` returned `r` and left `after`.
pub open spec fn double_optional_read<T>(p: Option<(Option<T>, nat)>, s: Seq<u8>, r: Option<Option<T>>, after: Seq<u8>) -> bool {
    match p {
        Some((v, n)) => r == Some(v) && after == s.skip(n as int),
        None => r is None && after == s,
    }
}

/// An outer flag 1, then an inner flag and, when there is a value, its bytes by `enc`.
pub open spec fn double_optional_bytes<T>(v: Option<T>, enc: spec_fn(T) -> Seq<u8>) -> Seq<u8> {
    match v {
        Some(x) => seq![1u8, 1u8] + enc(x),
        None => seq![1u8, 0u8],
    }
}

/// Reading back a double optional: with any reader that reads back what the
/// writer's encoding wrote, whatever follows, the value written comes back
/// and exactly its bytes are taken; the outer flag is always 1.
pub proof fn lemma_double_optional_roundtrip<T>(
    v: Option<T>,
    t: Seq<u8>,
    enc: spec_fn(T) -> Seq<u8>,
    dec: spec_fn(Seq<u8>) -> Option<(T, nat)>,
)
    requires
        forall|x: T, u: Seq<u8>| #[trigger] dec(enc(x) + u) == Some((x, enc(x).len())),
    ensures
        double_optional_bytes(v, enc)[0] == 1,
        parse_double_optional(double_optional_bytes(v, enc) + t, dec) == Some(
            (v, double_optional_bytes(v, enc).len()),
        ),
{
    let s = double_optional_bytes(v, enc) + t;
    match v {
        Some(x) => {
            assert(s.skip(2) =~= enc(x) + t);
            assert(dec(enc(x) + t) == Some((x, enc(x).len())));
        },
        None => {},
    }
}

/// The block runtime id and extra data that end an item stack, and what follows them.
pub open spec fn parse_item_stack_footer(s: Seq<u8>) -> Option<(i32, Seq<u8>, Seq<u8>)> {
    match parse_var_i32(s) {
        None => None,
        Some((brid, n1)) => {
            let s1 = s.skip(n1 as int);
            match parse_byte_string(s1) {
                None => None,
                Some((raw, n2)) => Some((brid, raw, s1.skip(n2 as int))),
            }
        },
    }
}

/// An item stack without its stack id: id, count, meta, block runtime id, extra data.
pub open spec fn item_stack_bytes(v: ItemStackView) -> Seq<u8> {
    var_i32_bytes(v.id) + le_bytes(v.count as nat, 2) + var_u32_bytes(v.meta) + var_i32_bytes(
        v.block_runtime_id,
    ) + byte_string_bytes(v.raw_extra_data)
}

/// The item stack at the start of `s`, and what follows it.
pub open spec fn parse_item_stack(s: Seq<u8>) -> Option<(ItemStackView, Seq<u8>)> {
    match parse_var_i32(s) {
        None => None,
        Some((id, n1)) => {
            let s1 = s.skip(n1 as int);
            match parse_u16_le(s1) {
                None => None,
                Some((count, n2)) => {
                    let s2 = s1.skip(n2 as int);
                    match parse_var_u32(s2) {
                        None => None,
                        Some((meta, n3)) => match parse_item_stack_footer(s2.skip(n3 as int)) {
                            None => None,
                            Some((brid, raw, rest)) => Some(
                                (
                                    ItemStackView {
                                        id,
                                        meta,
                                        count,
                                        block_runtime_id: brid,
                                        raw_extra_data: raw,
                                    },
                                    rest,
                                ),
                            ),
                        },
                    }
                },
            }
        },
    }
}

/// An item stack in descriptor form: 16-bit id (the low bits of the id),
/// count, meta, a flag telling whether a nonzero stack id follows, the block
/// runtime id as unsigned, and the extra data.
pub open spec fn network_item_bytes(w: ItemStackWrapperView) -> Seq<u8> {
    le_bytes(((w.item_stack.id as int) % 0x10000) as nat, 2) + le_bytes(w.item_stack.count as nat, 2)
        + var_u32_bytes(w.item_stack.meta) + seq![bool_byte(w.stack_id != 0)] + (if w.stack_id != 0 {
        var_i32_bytes(w.stack_id)
    } else {
        Seq::empty()
    }) + varint_bytes(twos(w.item_stack.block_runtime_id as int, 4)) + byte_string_bytes(
        w.item_stack.raw_extra_data,
    )
}

/// The id, count and meta that open an item stack in descriptor form, and what follows them.
pub open spec fn parse_network_head(s: Seq<u8>) -> Option<(i16, u16, u32, Seq<u8>)> {
    match parse_i16_le(s) {
        None => None,
        Some((id, n1)) => {
            let s1 = s.skip(n1 as int);
            match parse_u16_le(s1) {
                None => None,
                Some((count, n2)) => {
                    let s2 = s1.skip(n2 as int);
                    match parse_var_u32(s2) {
                        None => None,
                        Some((meta, n3)) => Some((id, count, meta, s2.skip(n3 as int))),
                    }
                },
            }
        },
    }
}

/// The stack id (0 when the flag says there is none), block runtime id and
/// extra data that end an item stack in descriptor form, and what follows them.
pub open spec fn parse_network_tail(s: Seq<u8>) -> Option<(i32, u32, Seq<u8>, Seq<u8>)> {
    match parse_bool(s) {
        None => None,
        Some((has_net_id, n4)) => {
            let s4 = s.skip(n4 as int);
            let sid = if has_net_id { parse_var_i32(s4) } else { Some((0i32, 0nat)) };
            match sid {
                None => None,
                Some((stack_id, n5)) => {
                    let s5 = s4.skip(n5 as int);
                    match parse_var_u32(s5) {
                        None => None,
                        Some((brid, n6)) => {
                            let s6 = s5.skip(n6 as int);
                            match parse_byte_string(s6) {
                                None => None,
                                Some((raw, n7)) => Some((stack_id, brid, raw, s6.skip(n7 as int))),
                            }
                        },
                    }
                },
            }
        },
    }
}

/// The item stack in descriptor form at the start of `s`, and what follows it.
pub open spec fn parse_network_item(s: Seq<u8>) -> Option<(ItemStackWrapperView, Seq<u8>)> {
    match parse_network_head(s) {
        None => None,
        Some((id, count, meta, s3)) => match parse_network_tail(s3) {
            None => None,
            Some((stack_id, brid, raw, rest)) => Some(
                (
                    ItemStackWrapperView {
                        stack_id,
                        item_stack: ItemStackView {
                            id: id as i32,
                            meta,
                            count,
                            block_runtime_id: from_twos(brid as nat, 4) as i32,
                            raw_extra_data: raw,
                        },
                    },
                    rest,
                ),
            ),
        },
    }
}

/// A command origin: type, UUID, request id, then the player's unique id (64-bit little-endian).
pub open spec fn command_origin_bytes(v: CommandOriginDataView) -> Seq<u8> {
    string_bytes(v.origin_type) + swap_halves(uuid_parse(v.uuid).unwrap()) + string_bytes(v.request_id)
        + le_bytes(twos(v.player_actor_unique_id as int, 8), 8)
}

/// The command origin at the start of `s`, and what follows it.
pub open spec fn parse_command_origin(s: Seq<u8>) -> Option<(CommandOriginDataView, Seq<u8>)> {
    match parse_string(s) {
        None => None,
        Some((origin_type, n1)) => {
            let s1 = s.skip(n1 as int);
            match parse_uuid_field(s1) {
                None => None,
                Some((uuid, n2)) => {
                    let s2 = s1.skip(n2 as int);
                    match parse_string(s2) {
                        None => None,
                        Some((request_id, n3)) => {
                            let s3 = s2.skip(n3 as int);
                            match parse_i64_le(s3) {
                                None => None,
                                Some((id, n4)) => Some(
                                    (
                                        CommandOriginDataView {
                                            origin_type,
                                            uuid,
                                            request_id,
                                            player_actor_unique_id: id,
                                        },
                                        s3.skip(n4 as int),
                                    ),
                                ),
                            }
                        },
                    }
                },
            }
        },
    }
}

/// The three coordinates at the start of `s` and how many bytes they took.
pub open spec fn parse_block_pos(s: Seq<u8>) -> Option<(Seq<i32>, nat)> {
    match parse_var_i32(s) {
        Some((x, n1)) => match parse_var_i32(s.skip(n1 as int)) {
            Some((y, n2)) => match parse_var_i32(s.skip((n1 + n2) as int)) {
                Some((z, n3)) => Some((seq![x, y, z], n1 + n2 + n3)),
                None => None,
            },
            None => None,
        },
        None => None,
    }
}

/// Reading back a byte string, whatever follows it, gives its bytes when
/// there are fewer than 2^32 of them.
pub proof fn lemma_byte_string_roundtrip(d: Seq<u8>, t: Seq<u8>)
    requires
        d.len() < 0x1_0000_0000,
    ensures
        parse_byte_string(byte_string_bytes(d) + t) == Some((d, byte_string_bytes(d).len())),
{
    let len = d.len() as u32;
    lemma_var_u32_roundtrip(len, d + t);
    let s = byte_string_bytes(d) + t;
    assert(s =~= var_u32_bytes(len) + (d + t));
    let n = var_u32_bytes(len).len();
    assert(s.subrange(n as int, (n + d.len()) as int) =~= d);
}

/// Reading back a string, whatever follows it, gives its characters when
/// its UTF-8 encoding is shorter than 2^32 bytes.
pub proof fn lemma_string_roundtrip(c: Seq<char>, t: Seq<u8>)
    requires
        encode_utf8(c).len() < 0x1_0000_0000,
    ensures
        parse_string(string_bytes(c) + t) == Some((c, string_bytes(c).len())),
{
    lemma_byte_string_roundtrip(encode_utf8(c), t);
    encode_utf8_decode_utf8(c);
    encode_utf8_valid_utf8(c);
}

/// A UUID written from its hyphenated lowercase text reads back as that text.
pub proof fn lemma_uuid_roundtrip(b: Seq<u8>, t: Seq<u8>)
    requires
        b.len() == 16,
    ensures
        parse_uuid_field(swap_halves(b) + t) == Some((uuid_text(b), 16nat)),
{
    let s = swap_halves(b) + t;
    assert(swap_halves(s.take(16)) =~= b);
}

/// Two digits below sixteen with the same character are the same digit.
proof fn lemma_hex_digit_injective(n: u8, m: u8)
    requires
        n < 16,
        m < 16,
        hex_digit(n) == hex_digit(m),
    ensures
        n == m,
{
}

/// The lowercase hexadecimal text has two characters for each byte.
proof fn lemma_hex_lower_len(b: Seq<u8>)
    ensures
        hex_lower(b).len() == 2 * b.len(),
    decreases b.len(),
{
    if b.len() > 0 {
        lemma_hex_lower_len(b.drop_first());
    }
}

/// Byte strings of one length with the same hexadecimal text are equal.
proof fn lemma_hex_lower_injective(a: Seq<u8>, b: Seq<u8>)
    requires
        a.len() == b.len(),
        hex_lower(a) == hex_lower(b),
    ensures
        a == b,
    decreases a.len(),
{
    if a.len() > 0 {
        let ha = hex_lower(a);
        let hb = hex_lower(b);
        assert(ha[0] == hex_digit(a[0] / 16) && hb[0] == hex_digit(b[0] / 16));
        assert(ha[1] == hex_digit(a[0] % 16) && hb[1] == hex_digit(b[0] % 16));
        lemma_hex_digit_injective(a[0] / 16, b[0] / 16);
        lemma_hex_digit_injective(a[0] % 16, b[0] % 16);
        assert(a[0] == b[0]);
        assert(ha.skip(2) =~= hex_lower(a.drop_first()));
        assert(hb.skip(2) =~= hex_lower(b.drop_first()));
        lemma_hex_lower_injective(a.drop_first(), b.drop_first());
        assert(a =~= seq![a[0]] + a.drop_first());
        assert(b =~= seq![b[0]] + b.drop_first());
    }
}

/// Two UUIDs with the same hyphenated text are the same UUID.
pub proof fn lemma_uuid_text_injective(a: Seq<u8>, b: Seq<u8>)
    requires
        a.len() == 16,
        b.len() == 16,
        uuid_text(a) == uuid_text(b),
    ensures
        a == b,
{
    let ta = uuid_text(a);
    let tb = uuid_text(b);
    lemma_hex_lower_len(a.subrange(0, 4));
    lemma_hex_lower_len(a.subrange(4, 6));
    lemma_hex_lower_len(a.subrange(6, 8));
    lemma_hex_lower_len(a.subrange(8, 10));
    lemma_hex_lower_len(a.subrange(10, 16));
    lemma_hex_lower_len(b.subrange(0, 4));
    lemma_hex_lower_len(b.subrange(4, 6));
    lemma_hex_lower_len(b.subrange(6, 8));
    lemma_hex_lower_len(b.subrange(8, 10));
    lemma_hex_lower_len(b.subrange(10, 16));
    assert(ta.subrange(0, 8) =~= hex_lower(a.subrange(0, 4)));
    assert(tb.subrange(0, 8) =~= hex_lower(b.subrange(0, 4)));
    assert(ta.subrange(9, 13) =~= hex_lower(a.subrange(4, 6)));
    assert(tb.subrange(9, 13) =~= hex_lower(b.subrange(4, 6)));
    assert(ta.subrange(14, 18) =~= hex_lower(a.subrange(6, 8)));
    assert(tb.subrange(14, 18) =~= hex_lower(b.subrange(6, 8)));
    assert(ta.subrange(19, 23) =~= hex_lower(a.subrange(8, 10)));
    assert(tb.subrange(19, 23) =~= hex_lower(b.subrange(8, 10)));
    assert(ta.subrange(24, 36) =~= hex_lower(a.subrange(10, 16)));
    assert(tb.subrange(24, 36) =~= hex_lower(b.subrange(10, 16)));
    lemma_hex_lower_injective(a.subrange(0, 4), b.subrange(0, 4));
    lemma_hex_lower_injective(a.subrange(4, 6), b.subrange(4, 6));
    lemma_hex_lower_injective(a.subrange(6, 8), b.subrange(6, 8));
    lemma_hex_lower_injective(a.subrange(8, 10), b.subrange(8, 10));
    lemma_hex_lower_injective(a.subrange(10, 16), b.subrange(10, 16));
    assert forall|i: int| 0 <= i < 16 implies a[i] == b[i] by {
        if i < 4 {
            assert(a[i] == a.subrange(0, 4)[i]);
            assert(b[i] == b.subrange(0, 4)[i]);
        } else if i < 6 {
            assert(a[i] == a.subrange(4, 6)[i - 4]);
            assert(b[i] == b.subrange(4, 6)[i - 4]);
        } else if i < 8 {
            assert(a[i] == a.subrange(6, 8)[i - 6]);
            assert(b[i] == b.subrange(6, 8)[i - 6]);
        } else if i < 10 {
            assert(a[i] == a.subrange(8, 10)[i - 8]);
            assert(b[i] == b.subrange(8, 10)[i - 8]);
        } else {
            assert(a[i] == a.subrange(10, 16)[i - 10]);
            assert(b[i] == b.subrange(10, 16)[i - 10]);
        }
    }
    assert(a =~= b);
}

/// Reading back an item stack, whatever follows it, gives the stack when
/// its extra data is shorter than 2^32 bytes.
#[verifier::rlimit(60)]
pub proof fn lemma_item_stack_roundtrip(v: ItemStackView, t: Seq<u8>)
    requires
        v.raw_extra_data.len() < 0x1_0000_0000,
    ensures
        parse_item_stack(item_stack_bytes(v) + t) == Some((v, t)),
{
    let a = var_i32_bytes(v.id);
    let b = le_bytes(v.count as nat, 2);
    let c = var_u32_bytes(v.meta);
    let d = var_i32_bytes(v.block_runtime_id);
    let e = byte_string_bytes(v.raw_extra_data);
    let s = item_stack_bytes(v) + t;
    assert(s =~= a + (b + c + d + e + t));
    lemma_var_i32_roundtrip(v.id, b + c + d + e + t);
    assert(s.skip(a.len() as int) =~= b + (c + d + e + t));
    lemma_u16_le_roundtrip(v.count, c + d + e + t);
    assert((b + (c + d + e + t)).skip(2) =~= c + (d + e + t));
    lemma_var_u32_roundtrip(v.meta, d + e + t);
    assert((c + (d + e + t)).skip(c.len() as int) =~= d + (e + t));
    lemma_var_i32_roundtrip(v.block_runtime_id, e + t);
    assert((d + (e + t)).skip(d.len() as int) =~= e + t);
    lemma_byte_string_roundtrip(v.raw_extra_data, t);
    assert((e + t).skip(e.len() as int) =~= t);
}

/// Reading back an item stack in descriptor form, whatever follows it, gives
/// it back when its id fits in 16 signed bits and its extra data is shorter
/// than 2^32 bytes.
proof fn lemma_network_head_roundtrip(id: i16, count: u16, meta: u32, t: Seq<u8>)
    ensures
        parse_network_head(le_bytes(twos(id as int, 2), 2) + le_bytes(count as nat, 2) + var_u32_bytes(meta) + t)
            == Some((id, count, meta, t)),
{
    let a = le_bytes(twos(id as int, 2), 2);
    let b = le_bytes(count as nat, 2);
    let c = var_u32_bytes(meta);
    let s = a + b + c + t;
    lemma_i16_le_roundtrip(id, b + c + t);
    assert(s =~= a + (b + c + t));
    assert(s.skip(2) =~= b + (c + t));
    lemma_u16_le_roundtrip(count, c + t);
    assert((b + (c + t)).skip(2) =~= c + t);
    lemma_var_u32_roundtrip(meta, t);
    assert((c + t).skip(c.len() as int) =~= t);
}

#[verifier::rlimit(80)]
proof fn lemma_network_tail_roundtrip(stack_id: i32, brid: u32, raw: Seq<u8>, t: Seq<u8>)
    requires
        raw.len() < 0x1_0000_0000,
    ensures
        parse_network_tail(
            seq![bool_byte(stack_id != 0)] + (if stack_id != 0 {
                var_i32_bytes(stack_id)
            } else {
                Seq::empty()
            }) + var_u32_bytes(brid) + byte_string_bytes(raw) + t,
        ) == Some((stack_id, brid, raw, t)),
{
    let f = seq![bool_byte(stack_id != 0)];
    let g: Seq<u8> = if stack_id != 0 { var_i32_bytes(stack_id) } else { Seq::empty() };
    let h = var_u32_bytes(brid);
    let e = byte_string_bytes(raw);
    let s = f + g + h + e + t;
    assert(s =~= f + (g + h + e + t));
    lemma_bool_roundtrip(stack_id != 0, g + h + e + t);
    assert(s.skip(1) =~= g + (h + e + t));
    if stack_id != 0 {
        lemma_var_i32_roundtrip(stack_id, h + e + t);
        assert((g + (h + e + t)).skip(g.len() as int) =~= h + (e + t));
    } else {
        assert((g + (h + e + t)).skip(0) =~= h + (e + t));
    }
    lemma_var_u32_roundtrip(brid, e + t);
    assert((h + (e + t)).skip(h.len() as int) =~= e + t);
    lemma_byte_string_roundtrip(raw, t);
    assert((e + t).skip(e.len() as int) =~= t);
}

/// Reading back an item stack in descriptor form, whatever follows it, gives
/// it back when its id fits in 16 signed bits and its extra data is shorter
/// than 2^32 bytes.
pub proof fn lemma_network_item_roundtrip(w: ItemStackWrapperView, t: Seq<u8>)
    requires
        -0x8000 <= w.item_stack.id < 0x8000,
        w.item_stack.raw_extra_data.len() < 0x1_0000_0000,
    ensures
        parse_network_item(network_item_bytes(w) + t) == Some((w, t)),
{
    let v = w.item_stack;
    lemma_p256_values();
    let brid = twos(v.block_runtime_id as int, 4) as u32;
    assert(((v.id as int) % 0x10000) as nat == twos(v.id as int, 2));
    let g: Seq<u8> = if w.stack_id != 0 { var_i32_bytes(w.stack_id) } else { Seq::empty() };
    let tail = seq![bool_byte(w.stack_id != 0)] + g + var_u32_bytes(brid) + byte_string_bytes(
        v.raw_extra_data,
    ) + t;
    lemma_network_head_roundtrip(v.id as i16, v.count, v.meta, tail);
    lemma_network_tail_roundtrip(w.stack_id, brid, v.raw_extra_data, t);
    assert(network_item_bytes(w) + t =~= le_bytes(twos(v.id as int, 2), 2) + le_bytes(v.count as nat, 2)
        + var_u32_bytes(v.meta) + tail);
}

/// Reading back a command origin, whatever follows it, gives it back when its
/// UUID is hyphenated lowercase text and its strings encode to fewer than
/// 2^32 bytes.
#[verifier::rlimit(30)]
pub proof fn lemma_command_origin_roundtrip(v: CommandOriginDataView, t: Seq<u8>)
    requires
        encode_utf8(v.origin_type).len() < 0x1_0000_0000,
        encode_utf8(v.request_id).len() < 0x1_0000_0000,
        uuid_parse(v.uuid) is Some,
        uuid_parse(v.uuid).unwrap().len() == 16,
        uuid_text(uuid_parse(v.uuid).unwrap()) == v.uuid,
    ensures
        parse_command_origin(command_origin_bytes(v) + t) == Some((v, t)),
{
    let a = string_bytes(v.origin_type);
    let u = uuid_parse(v.uuid).unwrap();
    let b = swap_halves(u);
    let c = string_bytes(v.request_id);
    let d = le_bytes(twos(v.player_actor_unique_id as int, 8), 8);
    let s = command_origin_bytes(v) + t;
    let s1 = b + (c + (d + t));
    let s2 = c + (d + t);
    assert(parse_string(s) == Some((v.origin_type, a.len())) && s.skip(a.len() as int) == s1) by {
        assert(s =~= a + s1);
        lemma_string_roundtrip(v.origin_type, s1);
    }
    assert(parse_uuid_field(s1) == Some((v.uuid, 16nat)) && s1.skip(16) == s2) by {
        lemma_uuid_roundtrip(u, s2);
        assert(s1.skip(16) =~= s2);
    }
    assert(parse_string(s2) == Some((v.request_id, c.len())) && s2.skip(c.len() as int) == d + t)
        by {
        lemma_string_roundtrip(v.request_id, d + t);
        assert(s2.skip(c.len() as int) =~= d + t);
    }
    assert(parse_i64_le(d + t) == Some((v.player_actor_unique_id, 8nat)) && (d + t).skip(8) == t)
        by {
        lemma_i64_le_roundtrip(v.player_actor_unique_id, t);
        assert((d + t).skip(8) =~= t);
    }
}

/// Reading back a block position, whatever follows it, gives its coordinates.
pub proof fn lemma_block_pos_roundtrip(x: i32, y: i32, z: i32, t: Seq<u8>)
    ensures
        parse_block_pos(var_i32_bytes(x) + var_i32_bytes(y) + var_i32_bytes(z) + t) == Some(
            (seq![x, y, z], var_i32_bytes(x).len() + var_i32_bytes(y).len() + var_i32_bytes(z).len()),
        ),
{
    let s = var_i32_bytes(x) + var_i32_bytes(y) + var_i32_bytes(z) + t;
    let n1 = var_i32_bytes(x).len();
    let n2 = var_i32_bytes(y).len();
    lemma_var_i32_roundtrip(x, var_i32_bytes(y) + var_i32_bytes(z) + t);
    assert(s =~= var_i32_bytes(x) + (var_i32_bytes(y) + var_i32_bytes(z) + t));
    lemma_var_i32_roundtrip(y, var_i32_bytes(z) + t);
    assert(s.skip(n1 as int) =~= var_i32_bytes(y) + (var_i32_bytes(z) + t));
    lemma_var_i32_roundtrip(z, t);
    assert(s.skip((n1 + n2) as int) =~= var_i32_bytes(z) + t);
}

} // verus!
