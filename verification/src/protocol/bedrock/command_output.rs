//! The packet that reports the output of a command.

use vstd::prelude::*;
use vstd::arithmetic::div_mod::lemma_small_mod;
use vstd::utf8::encode_utf8;
use crate::protocol::bedrock::serializer::packet_serializer::{
    command_origin_bytes, lemma_command_origin_roundtrip, lemma_string_roundtrip,
    parse_command_origin, parse_string, string_bytes, uuid_parse, uuid_text, PacketSerializer,
};
use crate::protocol::bedrock::types::command::command_origin_data::{
    CommandOriginData, CommandOriginDataView,
};
use crate::protocol::bedrock::types::command::command_output_message::{
    CommandOutputMessage, CommandOutputMessageView,
};
use crate::protocol::game::bedrock_packet_ids::BedrockPacketType;
use crate::wire::{
    bool_byte, le_bytes, lemma_bool_roundtrip, lemma_u32_le_roundtrip, lemma_var_u32_roundtrip,
    parse_bool, parse_u32_le, parse_var_u32, put_bool, put_u32_le, put_var_u32, var_u32_bytes,
    ByteReader,
};

verus! {

pub struct CommandOutput {
    pub origin_data: CommandOriginData,
    pub output_type: String,
    pub success_count: u32,
    pub messages: Vec<CommandOutputMessage>,
    pub data: Option<String>,
}

pub struct CommandOutputView {
    pub origin_data: CommandOriginDataView,
    pub output_type: Seq<char>,
    pub success_count: u32,
    pub messages: Seq<CommandOutputMessageView>,
    pub data: Option<Seq<char>>,
}

impl View for CommandOutput {
    type V = CommandOutputView;

    open spec fn view(&self) -> CommandOutputView {
        CommandOutputView {
            origin_data: self.origin_data@,
            output_type: self.output_type@,
            success_count: self.success_count,
            messages: self.messages@.map_values(|m: CommandOutputMessage| m@),
            data: match self.data {
                Some(d) => Some(d@),
                None => None,
            },
        }
    }
}

/// A count of items as it travels: a variable-length integer, kept to 32 bits.
pub open spec fn count_bytes(n: nat) -> Seq<u8> {
    var_u32_bytes((n % 0x1_0000_0000) as u32)
}

/// The strings one after the other.
pub open spec fn strings_bytes(ps: Seq<Seq<char>>) -> Seq<u8>
    decreases ps.len(),
{
    if ps.len() == 0 {
        Seq::empty()
    } else {
        strings_bytes(ps.drop_last()) + string_bytes(ps.last())
    }
}

/// `n` strings read one after the other, and what follows them.
pub open spec fn parse_strings(s: Seq<u8>, n: nat) -> Option<(Seq<Seq<char>>, Seq<u8>)>
    decreases n,
{
    if n == 0 {
        Some((Seq::empty(), s))
    } else {
        match parse_strings(s, (n - 1) as nat) {
            None => None,
            Some((ps, r)) => match parse_string(r) {
                None => None,
                Some((p, m)) => Some((ps.push(p), r.skip(m as int))),
            },
        }
    }
}

/// A message: its id, the internal flag, then the count and the parameters.
pub open spec fn message_bytes(m: CommandOutputMessageView) -> Seq<u8> {
    string_bytes(m.message_id) + seq![bool_byte(m.is_internal)] + count_bytes(m.parameters.len())
        + strings_bytes(m.parameters)
}

/// The message at the start of `s`, and what follows it.
pub open spec fn parse_message(s: Seq<u8>) -> Option<(CommandOutputMessageView, Seq<u8>)> {
    match parse_string(s) {
        None => None,
        Some((message_id, n1)) => {
            let s1 = s.skip(n1 as int);
            match parse_bool(s1) {
                None => None,
                Some((is_internal, n2)) => {
                    let s2 = s1.skip(n2 as int);
                    match parse_var_u32(s2) {
                        None => None,
                        Some((count, n3)) => match parse_strings(s2.skip(n3 as int), count as nat) {
                            None => None,
                            Some((parameters, rest)) => Some(
                                (CommandOutputMessageView { message_id, is_internal, parameters }, rest),
                            ),
                        },
                    }
                },
            }
        },
    }
}

/// The messages one after the other.
pub open spec fn messages_bytes(ms: Seq<CommandOutputMessageView>) -> Seq<u8>
    decreases ms.len(),
{
    if ms.len() == 0 {
        Seq::empty()
    } else {
        messages_bytes(ms.drop_last()) + message_bytes(ms.last())
    }
}

/// `n` messages read one after the other, and what follows them.
pub open spec fn parse_messages(s: Seq<u8>, n: nat) -> Option<(Seq<CommandOutputMessageView>, Seq<u8>)>
    decreases n,
{
    if n == 0 {
        Some((Seq::empty(), s))
    } else {
        match parse_messages(s, (n - 1) as nat) {
            None => None,
            Some((ms, r)) => match parse_message(r) {
                None => None,
                Some((m, rest)) => Some((ms.push(m), rest)),
            },
        }
    }
}

/// An optional string: a flag, then the string when there is one.
pub open spec fn optional_string_bytes(d: Option<Seq<char>>) -> Seq<u8> {
    match d {
        Some(c) => seq![1u8] + string_bytes(c),
        None => seq![0u8],
    }
}

/// The optional string at the start of `s`, and what follows it.
pub open spec fn parse_optional_string(s: Seq<u8>) -> Option<(Option<Seq<char>>, Seq<u8>)> {
    match parse_bool(s) {
        None => None,
        Some((present, n1)) => {
            let s1 = s.skip(n1 as int);
            if present {
                match parse_string(s1) {
                    None => None,
                    Some((c, n2)) => Some((Some(c), s1.skip(n2 as int))),
                }
            } else {
                Some((None, s1))
            }
        },
    }
}

/// The packet body: origin, output type, success count (32-bit
/// little-endian), the messages with their count, then the optional data.
pub open spec fn command_output_bytes(v: CommandOutputView) -> Seq<u8> {
    command_origin_bytes(v.origin_data) + string_bytes(v.output_type) + le_bytes(
        v.success_count as nat,
        4,
    ) + count_bytes(v.messages.len()) + messages_bytes(v.messages) + optional_string_bytes(v.data)
}

/// The packet body at the start of `s`, and what follows it.
pub open spec fn parse_command_output(s: Seq<u8>) -> Option<(CommandOutputView, Seq<u8>)> {
    match parse_command_origin(s) {
        None => None,
        Some((origin_data, s1)) => match parse_string(s1) {
            None => None,
            Some((output_type, n2)) => {
                let s2 = s1.skip(n2 as int);
                match parse_u32_le(s2) {
                    None => None,
                    Some((success_count, n3)) => {
                        let s3 = s2.skip(n3 as int);
                        match parse_var_u32(s3) {
                            None => None,
                            Some((count, n4)) => match parse_messages(s3.skip(n4 as int), count as nat) {
                                None => None,
                                Some((messages, s5)) => match parse_optional_string(s5) {
                                    None => None,
                                    Some((data, rest)) => Some(
                                        (
                                            CommandOutputView {
                                                origin_data,
                                                output_type,
                                                success_count,
                                                messages,
                                                data,
                                            },
                                            rest,
                                        ),
                                    ),
                                },
                            },
                        }
                    },
                }
            },
        },
    }
}

proof fn lemma_parse_strings_fails(s: Seq<u8>, i: nat, n: nat)
    requires
        i <= n,
        parse_strings(s, i) is None,
    ensures
        parse_strings(s, n) is None,
    decreases n,
{
    if i < n {
        lemma_parse_strings_fails(s, i, (n - 1) as nat);
    }
}

proof fn lemma_parse_messages_fails(s: Seq<u8>, i: nat, n: nat)
    requires
        i <= n,
        parse_messages(s, i) is None,
    ensures
        parse_messages(s, n) is None,
    decreases n,
{
    if i < n {
        lemma_parse_messages_fails(s, i, (n - 1) as nat);
    }
}

/// A string whose UTF-8 form fits a 32-bit length.
pub open spec fn string_fits(c: Seq<char>) -> bool {
    encode_utf8(c).len() < 0x1_0000_0000
}

/// Every string of the sequence fits.
pub open spec fn strings_fit(ps: Seq<Seq<char>>) -> bool
    decreases ps.len(),
{
    ps.len() == 0 || (strings_fit(ps.drop_last()) && string_fits(ps.last()))
}

/// A message whose strings fit and whose parameter count fits 32 bits.
pub open spec fn message_fits(m: CommandOutputMessageView) -> bool {
    &&& string_fits(m.message_id)
    &&& m.parameters.len() < 0x1_0000_0000
    &&& strings_fit(m.parameters)
}

/// Every message of the sequence fits.
pub open spec fn messages_fit(ms: Seq<CommandOutputMessageView>) -> bool
    decreases ms.len(),
{
    ms.len() == 0 || (messages_fit(ms.drop_last()) && message_fits(ms.last()))
}

/// A packet body whose every length fits the fields that carry it, and whose
/// origin UUID is the canonical text of the bytes it parses to.
pub open spec fn command_output_fits(v: CommandOutputView) -> bool {
    &&& string_fits(v.origin_data.origin_type)
    &&& string_fits(v.origin_data.request_id)
    &&& uuid_parse(v.origin_data.uuid) is Some
    &&& uuid_parse(v.origin_data.uuid).unwrap().len() == 16
    &&& uuid_text(uuid_parse(v.origin_data.uuid).unwrap()) == v.origin_data.uuid
    &&& string_fits(v.output_type)
    &&& v.messages.len() < 0x1_0000_0000
    &&& messages_fit(v.messages)
    &&& (v.data matches Some(d) ==> string_fits(d))
}

/// A count below 2^32 travels as its own variable-length form.
pub proof fn lemma_count_bytes(n: nat)
    requires
        n < 0x1_0000_0000,
    ensures
        count_bytes(n) == var_u32_bytes(n as u32),
{
    lemma_small_mod(n, 0x1_0000_0000);
}

/// Strings written one after the other read back, whatever follows them.
pub proof fn lemma_strings_roundtrip(ps: Seq<Seq<char>>, t: Seq<u8>)
    requires
        strings_fit(ps),
    ensures
        parse_strings(strings_bytes(ps) + t, ps.len()) == Some((ps, t)),
    decreases ps.len(),
{
    if ps.len() > 0 {
        let init = ps.drop_last();
        let last = ps.last();
        let tail = string_bytes(last) + t;
        lemma_strings_roundtrip(init, tail);
        assert(strings_bytes(ps) + t =~= strings_bytes(init) + tail);
        lemma_string_roundtrip(last, t);
        assert(tail.skip(string_bytes(last).len() as int) =~= t);
        assert(init.push(last) =~= ps);
    }
}

/// A message written out reads back, whatever follows it.
pub proof fn lemma_message_roundtrip(m: CommandOutputMessageView, t: Seq<u8>)
    requires
        message_fits(m),
    ensures
        parse_message(message_bytes(m) + t) == Some((m, t)),
{
    let a = string_bytes(m.message_id);
    let b = seq![bool_byte(m.is_internal)];
    let n = m.parameters.len() as u32;
    let c = var_u32_bytes(n);
    let d = strings_bytes(m.parameters);
    let s = message_bytes(m) + t;
    lemma_count_bytes(m.parameters.len());
    assert(s =~= a + (b + c + d + t));
    lemma_string_roundtrip(m.message_id, b + c + d + t);
    let s1 = s.skip(a.len() as int);
    assert(s1 =~= b + (c + d + t));
    lemma_bool_roundtrip(m.is_internal, c + d + t);
    let s2 = s1.skip(1);
    assert(s2 =~= c + (d + t));
    lemma_var_u32_roundtrip(n, d + t);
    assert(s2.skip(c.len() as int) =~= d + t);
    lemma_strings_roundtrip(m.parameters, t);
}

/// Messages written one after the other read back, whatever follows them.
pub proof fn lemma_messages_roundtrip(ms: Seq<CommandOutputMessageView>, t: Seq<u8>)
    requires
        messages_fit(ms),
    ensures
        parse_messages(messages_bytes(ms) + t, ms.len()) == Some((ms, t)),
    decreases ms.len(),
{
    if ms.len() > 0 {
        let init = ms.drop_last();
        let last = ms.last();
        let tail = message_bytes(last) + t;
        lemma_messages_roundtrip(init, tail);
        assert(messages_bytes(ms) + t =~= messages_bytes(init) + tail);
        lemma_message_roundtrip(last, t);
        assert(init.push(last) =~= ms);
    }
}

/// A packet body written out reads back as the same packet, whatever
/// follows it, when every length fits the field that carries it.
/// The body's fields after the origin read back in order, whatever follows them.
#[verifier::rlimit(80)]
proof fn lemma_command_output_fields(v: CommandOutputView, t: Seq<u8>)
    requires
        string_fits(v.output_type),
        v.messages.len() < 0x1_0000_0000,
        messages_fit(v.messages),
        v.data matches Some(d) ==> string_fits(d),
    ensures
        ({
            let b = string_bytes(v.output_type);
            let s1 = b + le_bytes(v.success_count as nat, 4) + count_bytes(v.messages.len())
                + messages_bytes(v.messages) + optional_string_bytes(v.data) + t;
            let s2 = s1.skip(b.len() as int);
            let s3 = s2.skip(4);
            let d = var_u32_bytes(v.messages.len() as u32);
            &&& parse_string(s1) == Some((v.output_type, b.len()))
            &&& parse_u32_le(s2) == Some((v.success_count, 4nat))
            &&& parse_var_u32(s3) == Some((v.messages.len() as u32, d.len()))
            &&& parse_messages(s3.skip(d.len() as int), v.messages.len())
                == Some((v.messages, optional_string_bytes(v.data) + t))
            &&& parse_optional_string(optional_string_bytes(v.data) + t) == Some((v.data, t))
        }),
{
    let b = string_bytes(v.output_type);
    let c = le_bytes(v.success_count as nat, 4);
    let n = v.messages.len() as u32;
    let d = var_u32_bytes(n);
    let e = messages_bytes(v.messages);
    let f = optional_string_bytes(v.data);
    lemma_count_bytes(v.messages.len());
    let s1 = b + c + d + e + f + t;
    let s2 = c + d + e + f + t;
    let s3 = d + e + f + t;
    let s4 = e + f + t;
    assert(parse_string(s1) == Some((v.output_type, b.len())) && s1.skip(b.len() as int) == s2)
        by {
        assert(s1 =~= b + s2);
        lemma_string_roundtrip(v.output_type, s2);
    }
    assert(parse_u32_le(s2) == Some((v.success_count, 4nat)) && s2.skip(4) == s3) by {
        assert(s2 =~= c + s3);
        lemma_u32_le_roundtrip(v.success_count, s3);
    }
    assert(parse_var_u32(s3) == Some((n, d.len())) && s3.skip(d.len() as int) == s4) by {
        assert(s3 =~= d + s4);
        lemma_var_u32_roundtrip(n, s4);
    }
    assert(parse_messages(s4, n as nat) == Some((v.messages, f + t))) by {
        assert(s4 =~= e + (f + t));
        lemma_messages_roundtrip(v.messages, f + t);
    }
    assert(parse_optional_string(f + t) == Some((v.data, t))) by {
        match v.data {
            Some(dd) => {
                lemma_bool_roundtrip(true, string_bytes(dd) + t);
                assert(f + t =~= seq![bool_byte(true)] + (string_bytes(dd) + t));
                lemma_string_roundtrip(dd, t);
                assert((f + t).skip(1) =~= string_bytes(dd) + t);
                assert((string_bytes(dd) + t).skip(string_bytes(dd).len() as int) =~= t);
            },
            None => {
                lemma_bool_roundtrip(false, t);
                assert(f + t =~= seq![bool_byte(false)] + t);
                assert((f + t).skip(1) =~= t);
            },
        }
    }
}

/// A packet body written out reads back as the same packet, whatever
/// follows it, when every length fits the field that carries it.
#[verifier::rlimit(60)]
pub proof fn lemma_command_output_roundtrip(v: CommandOutputView, t: Seq<u8>)
    requires
        command_output_fits(v),
    ensures
        parse_command_output(command_output_bytes(v) + t) == Some((v, t)),
{
    let a = command_origin_bytes(v.origin_data);
    let s1 = string_bytes(v.output_type) + le_bytes(v.success_count as nat, 4) + count_bytes(
        v.messages.len(),
    ) + messages_bytes(v.messages) + optional_string_bytes(v.data) + t;
    let s = command_output_bytes(v) + t;
    assert(parse_command_origin(s) == Some((v.origin_data, s1))) by {
        assert(s =~= a + s1);
        lemma_command_origin_roundtrip(v.origin_data, s1);
    }
    lemma_command_output_fields(v, t);
}

impl CommandOutput {
    pub const TYPE_LAST: &'static str = "lastoutput";
    pub const TYPE_SILENT: &'static str = "silent";
    pub const TYPE_ALL: &'static str = "alloutput";
    pub const TYPE_DATA_SET: &'static str = "dataset";

    /// The packet's identifier.
    pub fn id(&self) -> (r: u16)
        ensures
            r == BedrockPacketType::CommandOutput.spec_id(),
    {
        BedrockPacketType::CommandOutput.get_byte()
    }

    fn get_strings(stream: &mut ByteReader, count: u32) -> (r: Option<Vec<String>>)
        ensures
            match parse_strings(old(stream).rest(), count as nat) {
                Some((ps, rest)) => r matches Some(v) && v@.map_values(|p: String| p@) == ps
                    && final(stream).rest() == rest,
                None => r is None && final(stream).rest() == old(stream).rest(),
            },
    {
        let mut cur = *stream;
        let ghost s = cur.rest();
        let mut out: Vec<String> = Vec::new();
        let mut i: u32 = 0;
        assert(out@.map_values(|p: String| p@) =~= Seq::<Seq<char>>::empty());
        while i < count
            invariant
                i <= count,
                s == old(stream).rest(),
                *stream == *old(stream),
                parse_strings(s, i as nat) == Some((out@.map_values(|p: String| p@), cur.rest())),
            decreases count - i,
        {
            match PacketSerializer::get_string(&mut cur) {
                Some(p) => {
                    out.push(p);
                    i = i + 1;
                    assert(out@.map_values(|p: String| p@) =~= parse_strings(s, i as nat).unwrap().0);
                },
                None => {
                    proof {
                        lemma_parse_strings_fails(s, (i + 1) as nat, count as nat);
                    }
                    return None;
                },
            }
        }
        *stream = cur;
        Some(out)
    }

    fn get_command_message(stream: &mut ByteReader) -> (r: Option<CommandOutputMessage>)
        ensures
            match parse_message(old(stream).rest()) {
                Some((m, rest)) => r matches Some(v) && v@ == m && final(stream).rest() == rest,
                None => r is None && final(stream).rest() == old(stream).rest(),
            },
    {
        let mut cur = *stream;
        let message_id = match PacketSerializer::get_string(&mut cur) {
            Some(v) => v,
            None => return None,
        };
        let is_internal = match cur.get_bool() {
            Some(v) => v,
            None => return None,
        };
        let size = match cur.get_var_u32() {
            Some(v) => v,
            None => return None,
        };
        let parameters = match Self::get_strings(&mut cur, size) {
            Some(v) => v,
            None => return None,
        };
        *stream = cur;
        Some(CommandOutputMessage { message_id, is_internal, parameters })
    }

    fn put_command_message(message: &CommandOutputMessage, stream: &mut Vec<u8>)
        ensures
            final(stream)@ == old(stream)@ + message_bytes(message@),
    {
        PacketSerializer::put_string(stream, message.message_id.as_str());
        put_bool(stream, message.is_internal);
        put_var_u32(stream, (message.parameters.len() as u64 % 0x1_0000_0000) as u32);
        let ghost mid = stream@;
        let ghost ps = message.parameters@.map_values(|p: String| p@);
        let mut i: usize = 0;
        while i < message.parameters.len()
            invariant
                i <= message.parameters@.len(),
                ps == message.parameters@.map_values(|p: String| p@),
                stream@ == mid + strings_bytes(ps.take(i as int)),
            decreases message.parameters@.len() - i,
        {
            PacketSerializer::put_string(stream, message.parameters[i].as_str());
            i = i + 1;
            assert(ps.take(i as int).drop_last() =~= ps.take(i - 1));
            assert(stream@ =~= mid + strings_bytes(ps.take(i as int)));
        }
        assert(ps.take(i as int) =~= ps);
        assert(final(stream)@ =~= old(stream)@ + message_bytes(message@));
    }

    fn get_messages(stream: &mut ByteReader, count: u32) -> (r: Option<Vec<CommandOutputMessage>>)
        ensures
            match parse_messages(old(stream).rest(), count as nat) {
                Some((ms, rest)) => r matches Some(v) && v@.map_values(|m: CommandOutputMessage| m@)
                    == ms && final(stream).rest() == rest,
                None => r is None && final(stream).rest() == old(stream).rest(),
            },
    {
        let mut cur = *stream;
        let ghost s = cur.rest();
        let mut out: Vec<CommandOutputMessage> = Vec::new();
        let mut i: u32 = 0;
        assert(out@.map_values(|m: CommandOutputMessage| m@) =~= Seq::<CommandOutputMessageView>::empty());
        while i < count
            invariant
                i <= count,
                s == old(stream).rest(),
                *stream == *old(stream),
                parse_messages(s, i as nat) == Some((out@.map_values(|m: CommandOutputMessage| m@), cur.rest())),
            decreases count - i,
        {
            match Self::get_command_message(&mut cur) {
                Some(m) => {
                    out.push(m);
                    i = i + 1;
                    assert(out@.map_values(|m: CommandOutputMessage| m@) =~= parse_messages(s, i as nat).unwrap().0);
                },
                None => {
                    proof {
                        lemma_parse_messages_fails(s, (i + 1) as nat, count as nat);
                    }
                    return None;
                },
            }
        }
        *stream = cur;
        Some(out)
    }

    #[verifier::rlimit(40)]
    /// Appends the packet body. The origin's UUID must be text the UUID parser accepts.
    pub fn encode(&self, stream: &mut Vec<u8>)
        requires
            uuid_parse(self.origin_data.uuid@) is Some,
        ensures
            final(stream)@ == old(stream)@ + command_output_bytes(self@),
    {
        PacketSerializer::put_command_origin_data(stream, &self.origin_data);
        PacketSerializer::put_string(stream, self.output_type.as_str());
        put_u32_le(stream, self.success_count);
        put_var_u32(stream, (self.messages.len() as u64 % 0x1_0000_0000) as u32);
        let ghost mid = stream@;
        let ghost ms = self.messages@.map_values(|m: CommandOutputMessage| m@);
        let mut i: usize = 0;
        while i < self.messages.len()
            invariant
                i <= self.messages@.len(),
                ms == self.messages@.map_values(|m: CommandOutputMessage| m@),
                stream@ == mid + messages_bytes(ms.take(i as int)),
            decreases self.messages@.len() - i,
        {
            Self::put_command_message(&self.messages[i], stream);
            i = i + 1;
            assert(ms.take(i as int).drop_last() =~= ms.take(i - 1));
            assert(stream@ =~= mid + messages_bytes(ms.take(i as int)));
        }
        assert(ms.take(i as int) =~= ms);
        PacketSerializer::write_optional(stream, &self.data, |s: &mut Vec<u8>, d: &String|
            ensures final(s)@ == old(s)@ + string_bytes(d@),
        { PacketSerializer::put_string(s, d.as_str()) });
        assert(final(stream)@ =~= old(stream)@ + command_output_bytes(self@));
    }

    /// Appends the packet body when the origin's UUID is text the UUID parser
    /// accepts and returns true; otherwise leaves `stream` alone and returns false.
    pub fn try_encode(&self, stream: &mut Vec<u8>) -> (r: bool)
        ensures
            r == uuid_parse(self.origin_data.uuid@) is Some,
            r ==> final(stream)@ == old(stream)@ + command_output_bytes(self@),
            !r ==> final(stream)@ == old(stream)@,
    {
        if PacketSerializer::is_uuid(self.origin_data.uuid.as_str()) {
            self.encode(stream);
            true
        } else {
            false
        }
    }

    /// Reads the packet body; on too short or malformed an input returns
    /// `None` and leaves `stream` as it was.
    pub fn decode(stream: &mut ByteReader) -> (r: Option<CommandOutput>)
        ensures
            match parse_command_output(old(stream).rest()) {
                Some((v, rest)) => r matches Some(x) && x@ == v && final(stream).rest() == rest,
                None => r is None && final(stream).rest() == old(stream).rest(),
            },
    {
        let mut cur = *stream;
        let origin_data = match PacketSerializer::get_command_origin_data(&mut cur) {
            Some(v) => v,
            None => return None,
        };
        let output_type = match PacketSerializer::get_string(&mut cur) {
            Some(v) => v,
            None => return None,
        };
        let success_count = match cur.get_u32_le() {
            Some(v) => v,
            None => return None,
        };
        let size = match cur.get_var_u32() {
            Some(v) => v,
            None => return None,
        };
        let messages = match Self::get_messages(&mut cur, size) {
            Some(v) => v,
            None => return None,
        };
        let data = match PacketSerializer::read_optional(&mut cur, |s: &mut ByteReader| -> (r: Option<String>)
            ensures
                match parse_string(old(s).rest()) {
                    Some((c, n)) => r matches Some(v) && v@ == c && final(s).rest() == old(s).rest().skip(n as int),
                    None => r is None,
                },
        { PacketSerializer::get_string(s) }) {
            Some(d) => d,
            None => return None,
        };
        *stream = cur;
        Some(CommandOutput { origin_data, output_type, success_count, messages, data })
    }
}

} // verus!
