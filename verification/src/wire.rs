//! Byte-level encodings shared by every packet: fixed-width integers in both
//! byte orders, booleans, unsigned LEB128 variable-length integers and their
//! zigzag-signed form, and a cursor that reads them back.

use vstd::prelude::*;
use vstd::arithmetic::div_mod::lemma_mod_breakdown;
use vstd::utf8::{decode_utf8, valid_utf8};

verus! {

/// `256` raised to `n`.
pub open spec fn p256(n: nat) -> nat
    decreases n,
{
    if n == 0 { 1 } else { 256 * p256((n - 1) as nat) }
}

/// The low `n` bytes of `v`, most significant first.
pub open spec fn be_bytes(v: nat, n: nat) -> Seq<u8>
    decreases n,
{
    if n == 0 {
        Seq::empty()
    } else {
        be_bytes(v / 256, (n - 1) as nat).push((v % 256) as u8)
    }
}

/// The unsigned number whose big-endian bytes are `s`.
pub open spec fn be_value(s: Seq<u8>) -> nat
    decreases s.len(),
{
    if s.len() == 0 {
        0
    } else {
        be_value(s.drop_last()) * 256 + s.last() as nat
    }
}

/// The low `n` bytes of `v`, least significant first.
pub open spec fn le_bytes(v: nat, n: nat) -> Seq<u8>
    decreases n,
{
    if n == 0 {
        Seq::empty()
    } else {
        seq![(v % 256) as u8] + le_bytes(v / 256, (n - 1) as nat)
    }
}

/// The unsigned number whose little-endian bytes are `s`.
pub open spec fn le_value(s: Seq<u8>) -> nat
    decreases s.len(),
{
    if s.len() == 0 {
        0
    } else {
        s[0] as nat + 256 * le_value(s.drop_first())
    }
}

/// Two's complement of `v` on `n` bytes, as an unsigned number.
pub open spec fn twos(v: int, n: nat) -> nat {
    if v >= 0 { v as nat } else { (v + p256(n)) as nat }
}

/// The signed number whose two's complement on `n` bytes is `u`.
pub open spec fn from_twos(u: nat, n: nat) -> int {
    if 2 * u >= p256(n) { u - p256(n) } else { u as int }
}

/// The encoding of a boolean: one byte, 1 for true and 0 for false.
pub open spec fn bool_byte(b: bool) -> u8 {
    if b { 1 } else { 0 }
}

pub proof fn lemma_p256_pos(n: nat)
    ensures
        p256(n) > 0,
    decreases n,
{
    if n > 0 {
        lemma_p256_pos((n - 1) as nat);
    }
}

pub proof fn lemma_be_bytes_len(v: nat, n: nat)
    ensures
        be_bytes(v, n).len() == n,
    decreases n,
{
    if n > 0 {
        lemma_be_bytes_len(v / 256, (n - 1) as nat);
    }
}

pub proof fn lemma_le_bytes_len(v: nat, n: nat)
    ensures
        le_bytes(v, n).len() == n,
    decreases n,
{
    if n > 0 {
        lemma_le_bytes_len(v / 256, (n - 1) as nat);
    }
}

/// Reading back the big-endian bytes of `v` gives `v` reduced to `n` bytes.
pub proof fn lemma_be_roundtrip(v: nat, n: nat)
    ensures
        be_value(be_bytes(v, n)) == v % p256(n),
    decreases n,
{
    if n == 0 {
    } else {
        let m = (n - 1) as nat;
        lemma_be_roundtrip(v / 256, m);
        lemma_p256_pos(m);
        let s = be_bytes(v, n);
        assert(s.drop_last() =~= be_bytes(v / 256, m));
        lemma_mod_breakdown(v as int, 256, p256(m) as int);
        assert(p256(n) == 256 * p256(m));
    }
}

/// A big-endian number of `n` bytes is below `256^n`.
pub proof fn lemma_be_value_bound(s: Seq<u8>)
    ensures
        be_value(s) < p256(s.len()),
    decreases s.len(),
{
    if s.len() > 0 {
        lemma_be_value_bound(s.drop_last());
        assert(p256(s.len()) == 256 * p256((s.len() - 1) as nat));
    }
}

/// A little-endian number of `n` bytes is below `256^n`.
pub proof fn lemma_le_value_bound(s: Seq<u8>)
    ensures
        le_value(s) < p256(s.len()),
    decreases s.len(),
{
    if s.len() > 0 {
        lemma_le_value_bound(s.drop_first());
        assert(p256(s.len()) == 256 * p256((s.len() - 1) as nat));
    }
}

/// Reading back the little-endian bytes of `v` gives `v` reduced to `n` bytes.
pub proof fn lemma_le_roundtrip(v: nat, n: nat)
    ensures
        le_value(le_bytes(v, n)) == v % p256(n),
    decreases n,
{
    if n == 0 {
    } else {
        let m = (n - 1) as nat;
        lemma_le_roundtrip(v / 256, m);
        lemma_p256_pos(m);
        let s = le_bytes(v, n);
        assert(s.drop_first() =~= le_bytes(v / 256, m));
        lemma_mod_breakdown(v as int, 256, p256(m) as int);
        assert(p256(n) == 256 * p256(m));
    }
}

/// Two's complement on `n` bytes is undone by `from_twos` for every `v` that fits.
pub proof fn lemma_twos_roundtrip(v: int, n: nat)
    requires
        n > 0,
        -p256(n) <= 2 * v < p256(n),
    ensures
        twos(v, n) < p256(n),
        from_twos(twos(v, n), n) == v,
{
}

pub proof fn lemma_p256_values()
    ensures
        p256(1) == 0x100,
        p256(2) == 0x10000,
        p256(3) == 0x100_0000,
        p256(4) == 0x1_0000_0000,
        p256(8) == 0x1_0000_0000_0000_0000,
{
    reveal_with_fuel(p256, 9);
}

/// Appends `v` as one byte.
pub fn put_u8(out: &mut Vec<u8>, v: u8)
    ensures
        final(out)@ == old(out)@.push(v),
{
    out.push(v);
}

/// Appends a boolean as one byte.
pub fn put_bool(out: &mut Vec<u8>, b: bool)
    ensures
        final(out)@ == old(out)@.push(bool_byte(b)),
{
    if b {
        out.push(1);
    } else {
        out.push(0);
    }
}

/// Appends the bytes of `data` unchanged.
pub fn put_bytes(out: &mut Vec<u8>, data: &[u8])
    ensures
        final(out)@ == old(out)@ + data@,
{
    let ghost start = out@;
    let mut i: usize = 0;
    while i < data.len()
        invariant
            i <= data.len(),
            out@ == start + data@.take(i as int),
        decreases data.len() - i,
    {
        out.push(data[i]);
        i = i + 1;
        assert(data@.take(i as int) =~= data@.take(i - 1).push(data@[i - 1]));
    }
    assert(data@.take(i as int) =~= data@);
}

/// Appends the low `n` bytes of `v`, most significant first.
fn put_be(out: &mut Vec<u8>, v: u64, n: usize)
    ensures
        final(out)@ == old(out)@ + be_bytes(v as nat, n as nat),
    decreases n,
{
    if n > 0 {
        put_be(out, v / 256, n - 1);
        out.push((v % 256) as u8);
        assert(be_bytes(v as nat, n as nat) =~= be_bytes((v / 256) as nat, (n - 1) as nat).push(
            (v % 256) as u8,
        ));
    }
}

/// Appends the low `n` bytes of `v`, least significant first.
fn put_le(out: &mut Vec<u8>, v: u64, n: usize)
    ensures
        final(out)@ == old(out)@ + le_bytes(v as nat, n as nat),
    decreases n,
{
    if n > 0 {
        out.push((v % 256) as u8);
        put_le(out, v / 256, n - 1);
        assert(le_bytes(v as nat, n as nat) =~= seq![(v % 256) as u8] + le_bytes(
            (v / 256) as nat,
            (n - 1) as nat,
        ));
    }
}

pub fn put_u16_be(out: &mut Vec<u8>, v: u16)
    ensures
        final(out)@ == old(out)@ + be_bytes(v as nat, 2),
{
    put_be(out, v as u64, 2);
}

pub fn put_u32_be(out: &mut Vec<u8>, v: u32)
    ensures
        final(out)@ == old(out)@ + be_bytes(v as nat, 4),
{
    put_be(out, v as u64, 4);
}

pub fn put_u64_be(out: &mut Vec<u8>, v: u64)
    ensures
        final(out)@ == old(out)@ + be_bytes(v as nat, 8),
{
    put_be(out, v, 8);
}

pub fn put_u16_le(out: &mut Vec<u8>, v: u16)
    ensures
        final(out)@ == old(out)@ + le_bytes(v as nat, 2),
{
    put_le(out, v as u64, 2);
}

/// Appends the low three bytes of `v`, little-endian.
pub fn put_u24_le(out: &mut Vec<u8>, v: u32)
    ensures
        final(out)@ == old(out)@ + le_bytes(v as nat, 3),
{
    put_le(out, v as u64, 3);
}

pub fn put_u32_le(out: &mut Vec<u8>, v: u32)
    ensures
        final(out)@ == old(out)@ + le_bytes(v as nat, 4),
{
    put_le(out, v as u64, 4);
}

pub fn put_i16_le(out: &mut Vec<u8>, v: i16)
    ensures
        final(out)@ == old(out)@ + le_bytes(twos(v as int, 2), 2),
{
    proof { lemma_p256_values(); }
    let u: u64 = if v >= 0 { v as u64 } else { (v as i64 + 0x10000) as u64 };
    put_le(out, u, 2);
}

pub fn put_i32_le(out: &mut Vec<u8>, v: i32)
    ensures
        final(out)@ == old(out)@ + le_bytes(twos(v as int, 4), 4),
{
    proof { lemma_p256_values(); }
    let u: u64 = if v >= 0 { v as u64 } else { (v as i64 + 0x1_0000_0000) as u64 };
    put_le(out, u, 4);
}

pub fn put_i64_le(out: &mut Vec<u8>, v: i64)
    ensures
        final(out)@ == old(out)@ + le_bytes(twos(v as int, 8), 8),
{
    proof { lemma_p256_values(); }
    let u: u64 = if v >= 0 { v as u64 } else { (v as i128 + 0x1_0000_0000_0000_0000) as u64 };
    put_le(out, u, 8);
}


/// `128` raised to `n`.
pub open spec fn p128(n: nat) -> nat
    decreases n,
{
    if n == 0 { 1 } else { 128 * p128((n - 1) as nat) }
}

/// Unsigned LEB128: seven bits per byte, least significant group first, the
/// high bit set on every byte but the last.
pub open spec fn varint_bytes(v: nat) -> Seq<u8>
    decreases v,
{
    if v < 128 {
        seq![v as u8]
    } else {
        seq![(v % 128 + 128) as u8] + varint_bytes(v / 128)
    }
}

/// The number and the count of bytes of the LEB128 integer at the start of
/// `s`, reading at most `max` bytes; `None` when `s` ends first or the
/// integer runs past `max` bytes.
pub open spec fn varint_parse(s: Seq<u8>, max: nat) -> Option<(nat, nat)>
    decreases max,
{
    if max == 0 || s.len() == 0 {
        None
    } else if s[0] < 128 {
        Some((s[0] as nat, 1))
    } else {
        match varint_parse(s.drop_first(), (max - 1) as nat) {
            Some((v, n)) => Some((((s[0] - 128) + 128 * v) as nat, n + 1)),
            None => None,
        }
    }
}

/// Zigzag mapping of signed numbers onto unsigned ones: 0, -1, 1, -2, ... become 0, 1, 2, 3, ...
pub open spec fn zigzag(v: int) -> nat {
    if v >= 0 { (2 * v) as nat } else { (-2 * v - 1) as nat }
}

/// The signed number that `zigzag` maps onto `u`.
pub open spec fn unzigzag(u: nat) -> int {
    if u % 2 == 0 { (u / 2) as int } else { -((u + 1) / 2) }
}

/// Encoding of a 32-bit variable-length integer.
pub open spec fn var_u32_bytes(v: u32) -> Seq<u8> {
    varint_bytes(v as nat)
}

/// Encoding of a 64-bit variable-length integer.
pub open spec fn var_u64_bytes(v: u64) -> Seq<u8> {
    varint_bytes(v as nat)
}

/// Encoding of a signed 32-bit variable-length integer.
pub open spec fn var_i32_bytes(v: i32) -> Seq<u8> {
    varint_bytes(zigzag(v as int))
}

/// Encoding of a signed 64-bit variable-length integer.
pub open spec fn var_i64_bytes(v: i64) -> Seq<u8> {
    varint_bytes(zigzag(v as int))
}

pub proof fn lemma_p128_values()
    ensures
        p128(5) == 0x8_0000_0000,
        p128(9) == 0x8000_0000_0000_0000,
        p128(10) == 0x40_0000_0000_0000_0000,
{
    reveal_with_fuel(p128, 11);
}

pub proof fn lemma_p128_mono(a: nat, b: nat)
    requires
        a <= b,
    ensures
        0 < p128(a) <= p128(b),
    decreases b,
{
    if b > a {
        lemma_p128_mono(a, (b - 1) as nat);
    } else if a > 0 {
        lemma_p128_mono((a - 1) as nat, (a - 1) as nat);
    }
}

/// A LEB128 integer read from at most `max` bytes is below `128^n`, `n` its length.
pub proof fn lemma_varint_parse_bound(s: Seq<u8>, max: nat)
    ensures
        varint_parse(s, max) matches Some((v, n)) ==> 1 <= n <= max && n <= s.len() && v < p128(n),
    decreases max,
{
    if max > 0 && s.len() > 0 {
        if s[0] < 128 {
            assert(p128(1) == 128 * p128(0));
        } else {
            lemma_varint_parse_bound(s.drop_first(), (max - 1) as nat);
            if let Some((v, n)) = varint_parse(s.drop_first(), (max - 1) as nat) {
                assert(p128(n + 1) == 128 * p128(n));
                assert(128 * v <= 128 * (p128(n) - 1));
            }
        }
    }
}

/// The encoding of `v` takes at most `k` bytes when `v < 128^k`.
pub proof fn lemma_varint_len(v: nat, k: nat)
    requires
        1 <= k,
        v < p128(k),
    ensures
        1 <= varint_bytes(v).len() <= k,
    decreases v,
{
    if v >= 128 {
        if k == 1 {
            assert(p128(1) == 128 * p128(0));
        }
        assert(v / 128 < p128((k - 1) as nat));
        lemma_varint_len(v / 128, (k - 1) as nat);
    }
}

/// Reading the encoding of `v` back, whatever follows it, gives `v` and the
/// encoding's length.
pub proof fn lemma_varint_roundtrip(v: nat, t: Seq<u8>, max: nat)
    requires
        varint_bytes(v).len() <= max,
    ensures
        varint_parse(varint_bytes(v) + t, max) == Some((v, varint_bytes(v).len())),
    decreases v,
{
    let s = varint_bytes(v) + t;
    if v < 128 {
    } else {
        lemma_varint_roundtrip(v / 128, t, (max - 1) as nat);
        assert(s.drop_first() =~= varint_bytes(v / 128) + t);
    }
}

pub proof fn lemma_zigzag_roundtrip(v: int)
    ensures
        unzigzag(zigzag(v)) == v,
{
}

/// The zigzag image of a number of `2k` bits fits in `2k` unsigned bits, and back.
pub proof fn lemma_zigzag_range(v: int, half: int)
    requires
        -half <= v < half,
    ensures
        zigzag(v) < 2 * half,
{
}

pub proof fn lemma_unzigzag_range(u: nat, m: nat)
    requires
        u < m,
        m % 2 == 0,
    ensures
        -(m / 2) as int <= unzigzag(u) < (m / 2) as int,
{
}

fn put_varint(out: &mut Vec<u8>, v: u64)
    ensures
        final(out)@ == old(out)@ + varint_bytes(v as nat),
    decreases v,
{
    if v < 128 {
        out.push(v as u8);
        assert(varint_bytes(v as nat) =~= seq![v as u8]);
    } else {
        out.push((v % 128 + 128) as u8);
        put_varint(out, v / 128);
        assert(varint_bytes(v as nat) =~= seq![(v % 128 + 128) as u8] + varint_bytes((v / 128) as nat));
    }
}

pub fn put_var_u32(out: &mut Vec<u8>, v: u32)
    ensures
        final(out)@ == old(out)@ + var_u32_bytes(v),
{
    put_varint(out, v as u64);
}

pub fn put_var_u64(out: &mut Vec<u8>, v: u64)
    ensures
        final(out)@ == old(out)@ + var_u64_bytes(v),
{
    put_varint(out, v);
}

pub fn put_var_i32(out: &mut Vec<u8>, v: i32)
    ensures
        final(out)@ == old(out)@ + var_i32_bytes(v),
{
    let z: u64 = if v >= 0 { (v as u64) * 2 } else { ((-(v as i64)) as u64) * 2 - 1 };
    put_varint(out, z);
}

pub fn put_var_i64(out: &mut Vec<u8>, v: i64)
    ensures
        final(out)@ == old(out)@ + var_i64_bytes(v),
{
    let z: u64 = if v >= 0 { (v as u64) * 2 } else { ((-(v as i128)) * 2 - 1) as u64 };
    put_varint(out, z);
}

/// A read cursor over a byte slice. Every read either takes its bytes and
/// moves past them, or finds too few and leaves the cursor where it was.
#[derive(Clone, Copy)]
pub struct ByteReader<'a> {
    buf: &'a [u8],
    pos: usize,
}

/// Value and length of the LEB128 integer at `pos`, as `varint_parse` says.
fn parse_varint_at(buf: &[u8], pos: usize, max: usize) -> (r: Option<(u128, usize)>)
    requires
        pos <= buf@.len(),
        max <= 10,
    ensures
        match varint_parse(buf@.skip(pos as int), max as nat) {
            Some((v, n)) => r == Some((v as u128, n as usize)),
            None => r is None,
        },
    decreases max,
{
    proof {
        lemma_varint_parse_bound(buf@.skip(pos as int), max as nat);
    }
    if max == 0 || pos >= buf.len() {
        return None;
    }
    let b = buf[pos];
    if b < 128 {
        Some((b as u128, 1))
    } else {
        let ghost s = buf@.skip(pos as int);
        assert(s.drop_first() =~= buf@.skip(pos + 1));
        proof {
            lemma_varint_parse_bound(s.drop_first(), (max - 1) as nat);
        }
        match parse_varint_at(buf, pos + 1, max - 1) {
            Some((v, n)) => {
                proof {
                    lemma_p128_mono(n as nat, 9);
                    lemma_p128_values();
                }
                Some(((b - 128) as u128 + 128 * v, n + 1))
            },
            None => None,
        }
    }
}

impl<'a> ByteReader<'a> {
    #[verifier::type_invariant]
    spec fn inv(self) -> bool {
        self.pos <= self.buf@.len()
    }

    /// The bytes not read yet.
    pub closed spec fn rest(self) -> Seq<u8> {
        self.buf@.skip(self.pos as int)
    }

    /// How many bytes have been read.
    pub closed spec fn spec_offset(self) -> nat {
        self.pos as nat
    }

    pub fn new(buf: &'a [u8]) -> (r: Self)
        ensures
            r.rest() == buf@,
            r.spec_offset() == 0,
    {
        let r = ByteReader { buf, pos: 0 };
        assert(buf@.skip(0) =~= buf@);
        r
    }

    pub fn offset(&self) -> (n: usize)
        ensures
            n == self.spec_offset(),
    {
        self.pos
    }

    pub fn remaining_byte_count(&self) -> (n: usize)
        ensures
            n == self.rest().len(),
    {
        proof {
            use_type_invariant(&*self);
        }
        self.buf.len() - self.pos
    }

    /// True once every byte has been read.
    pub fn feof(&self) -> (b: bool)
        ensures
            b == (self.rest().len() == 0),
    {
        proof {
            use_type_invariant(&*self);
        }
        self.pos >= self.buf.len()
    }

    /// Takes the next `n` bytes.
    pub fn get(&mut self, n: usize) -> (r: Option<Vec<u8>>)
        ensures
            old(self).rest().len() >= n ==> r is Some && r.unwrap()@ == old(self).rest().take(n as int)
                && final(self).rest() == old(self).rest().skip(n as int)
                && final(self).spec_offset() == old(self).spec_offset() + n,
            old(self).rest().len() < n ==> r is None && final(self).rest() == old(self).rest()
                && final(self).spec_offset() == old(self).spec_offset(),
    {
        proof {
            use_type_invariant(&*self);
        }
        if n > self.buf.len() - self.pos {
            return None;
        }
        let mut v: Vec<u8> = Vec::with_capacity(n);
        let start = self.pos;
        let len = self.buf.len();
        let mut i: usize = 0;
        while i < n
            invariant
                i <= n,
                start == self.pos,
                len == self.buf@.len(),
                start + n <= len,
                v@ == self.buf@.subrange(start as int, start + i),
            decreases n - i,
        {
            v.push(self.buf[start + i]);
            i = i + 1;
            assert(v@ =~= self.buf@.subrange(start as int, start + i));
        }
        let ghost old_rest = self.buf@.skip(self.pos as int);
        self.pos = self.pos + n;
        assert(v@ =~= old_rest.take(n as int));
        assert(self.buf@.skip(self.pos as int) =~= old_rest.skip(n as int));
        Some(v)
    }

    pub fn get_u8(&mut self) -> (r: Option<u8>)
        ensures
            old(self).rest().len() >= 1 ==> r == Some(old(self).rest()[0])
                && final(self).rest() == old(self).rest().skip(1),
            old(self).rest().len() < 1 ==> r is None && final(self).rest() == old(self).rest(),
    {
        proof {
            use_type_invariant(&*self);
        }
        if self.pos >= self.buf.len() {
            return None;
        }
        let b = self.buf[self.pos];
        let ghost old_rest = self.buf@.skip(self.pos as int);
        self.pos = self.pos + 1;
        assert(self.buf@.skip(self.pos as int) =~= old_rest.skip(1));
        Some(b)
    }

    /// Reads one byte as a boolean: any byte but 0 is true.
    pub fn get_bool(&mut self) -> (r: Option<bool>)
        ensures
            old(self).rest().len() >= 1 ==> r == Some(old(self).rest()[0] != 0)
                && final(self).rest() == old(self).rest().skip(1),
            old(self).rest().len() < 1 ==> r is None && final(self).rest() == old(self).rest(),
    {
        match self.get_u8() {
            Some(b) => Some(b != 0),
            None => None,
        }
    }

    /// Reads `n` bytes as a big-endian unsigned number.
    fn get_be(&mut self, n: usize) -> (r: Option<u64>)
        requires
            n <= 8,
        ensures
            old(self).rest().len() >= n ==> r == Some(be_value(old(self).rest().take(n as int)) as u64)
                && be_value(old(self).rest().take(n as int)) < p256(n as nat)
                && final(self).rest() == old(self).rest().skip(n as int),
            old(self).rest().len() < n ==> r is None && final(self).rest() == old(self).rest(),
    {
        proof {
            use_type_invariant(&*self);
        }
        if n > self.buf.len() - self.pos {
            return None;
        }
        let ghost s = self.buf@.skip(self.pos as int);
        let mut v: u64 = 0;
        let mut i: usize = 0;
        let start = self.pos;
        let len = self.buf.len();
        while i < n
            invariant
                i <= n <= 8,
                start == self.pos,
                len == self.buf@.len(),
                start + n <= len,
                s == self.buf@.skip(self.pos as int),
                v as nat == be_value(s.take(i as int)),
                be_value(s.take(i as int)) < p256(i as nat),
            decreases n - i,
        {
            let b = self.buf[start + i];
            proof {
                assert(s.take(i + 1).drop_last() =~= s.take(i as int));
                assert(s.take(i + 1).last() == b);
                lemma_p256_mono(i as nat + 1, 8);
                lemma_p256_values();
            }
            v = v * 256 + b as u64;
            i = i + 1;
        }
        self.pos = self.pos + n;
        assert(self.buf@.skip(self.pos as int) =~= s.skip(n as int));
        Some(v)
    }

    /// Reads `n` bytes as a little-endian unsigned number.
    fn get_le(&mut self, n: usize) -> (r: Option<u64>)
        requires
            n <= 8,
        ensures
            old(self).rest().len() >= n ==> r == Some(le_value(old(self).rest().take(n as int)) as u64)
                && le_value(old(self).rest().take(n as int)) < p256(n as nat)
                && final(self).rest() == old(self).rest().skip(n as int),
            old(self).rest().len() < n ==> r is None && final(self).rest() == old(self).rest(),
    {
        proof {
            use_type_invariant(&*self);
        }
        if n > self.buf.len() - self.pos {
            return None;
        }
        let ghost s = self.buf@.skip(self.pos as int).take(n as int);
        let mut v: u64 = 0;
        let mut i: usize = n;
        let start = self.pos;
        let len = self.buf.len();
        while i > 0
            invariant
                i <= n <= 8,
                start == self.pos,
                len == self.buf@.len(),
                start + n <= len,
                s == self.buf@.skip(self.pos as int).take(n as int),
                v as nat == le_value(s.subrange(i as int, n as int)),
                le_value(s.subrange(i as int, n as int)) < p256((n - i) as nat),
            decreases i,
        {
            let b = self.buf[start + i - 1];
            proof {
                assert(s.subrange(i - 1, n as int).drop_first() =~= s.subrange(i as int, n as int));
                assert(s.subrange(i - 1, n as int)[0] == b);
                lemma_p256_mono((n - i + 1) as nat, 8);
                lemma_p256_values();
            }
            v = b as u64 + 256 * v;
            i = i - 1;
        }
        let ghost old_rest = self.buf@.skip(self.pos as int);
        self.pos = self.pos + n;
        assert(s.subrange(0, n as int) =~= s);
        assert(self.buf@.skip(self.pos as int) =~= old_rest.skip(n as int));
        Some(v)
    }

    pub fn get_u16_be(&mut self) -> (r: Option<u16>)
        ensures
            old(self).rest().len() >= 2 ==> r == Some(be_value(old(self).rest().take(2)) as u16)
                && final(self).rest() == old(self).rest().skip(2),
            old(self).rest().len() < 2 ==> r is None && final(self).rest() == old(self).rest(),
    {
        proof { lemma_p256_values(); }
        match self.get_be(2) {
            Some(v) => Some(v as u16),
            None => None,
        }
    }

    pub fn get_u32_be(&mut self) -> (r: Option<u32>)
        ensures
            old(self).rest().len() >= 4 ==> r == Some(be_value(old(self).rest().take(4)) as u32)
                && final(self).rest() == old(self).rest().skip(4),
            old(self).rest().len() < 4 ==> r is None && final(self).rest() == old(self).rest(),
    {
        proof { lemma_p256_values(); }
        match self.get_be(4) {
            Some(v) => Some(v as u32),
            None => None,
        }
    }

    pub fn get_u64_be(&mut self) -> (r: Option<u64>)
        ensures
            old(self).rest().len() >= 8 ==> r == Some(be_value(old(self).rest().take(8)) as u64)
                && final(self).rest() == old(self).rest().skip(8),
            old(self).rest().len() < 8 ==> r is None && final(self).rest() == old(self).rest(),
    {
        self.get_be(8)
    }

    pub fn get_u16_le(&mut self) -> (r: Option<u16>)
        ensures
            old(self).rest().len() >= 2 ==> r == Some(le_value(old(self).rest().take(2)) as u16)
                && final(self).rest() == old(self).rest().skip(2),
            old(self).rest().len() < 2 ==> r is None && final(self).rest() == old(self).rest(),
    {
        proof { lemma_p256_values(); }
        match self.get_le(2) {
            Some(v) => Some(v as u16),
            None => None,
        }
    }

    /// Reads three bytes as a little-endian unsigned number.
    pub fn get_u24_le(&mut self) -> (r: Option<u32>)
        ensures
            old(self).rest().len() >= 3 ==> r == Some(le_value(old(self).rest().take(3)) as u32)
                && final(self).rest() == old(self).rest().skip(3),
            old(self).rest().len() < 3 ==> r is None && final(self).rest() == old(self).rest(),
    {
        proof { lemma_p256_values(); }
        match self.get_le(3) {
            Some(v) => Some(v as u32),
            None => None,
        }
    }

    pub fn get_u32_le(&mut self) -> (r: Option<u32>)
        ensures
            old(self).rest().len() >= 4 ==> r == Some(le_value(old(self).rest().take(4)) as u32)
                && final(self).rest() == old(self).rest().skip(4),
            old(self).rest().len() < 4 ==> r is None && final(self).rest() == old(self).rest(),
    {
        proof { lemma_p256_values(); }
        match self.get_le(4) {
            Some(v) => Some(v as u32),
            None => None,
        }
    }

    pub fn get_i16_le(&mut self) -> (r: Option<i16>)
        ensures
            old(self).rest().len() >= 2 ==> r == Some(from_twos(le_value(old(self).rest().take(2)), 2) as i16)
                && final(self).rest() == old(self).rest().skip(2),
            old(self).rest().len() < 2 ==> r is None && final(self).rest() == old(self).rest(),
    {
        proof { lemma_p256_values(); }
        match self.get_le(2) {
            Some(v) => if v >= 0x8000 { Some((v as i64 - 0x10000) as i16) } else { Some(v as i16) },
            None => None,
        }
    }

    pub fn get_i32_le(&mut self) -> (r: Option<i32>)
        ensures
            old(self).rest().len() >= 4 ==> r == Some(from_twos(le_value(old(self).rest().take(4)), 4) as i32)
                && final(self).rest() == old(self).rest().skip(4),
            old(self).rest().len() < 4 ==> r is None && final(self).rest() == old(self).rest(),
    {
        proof { lemma_p256_values(); }
        match self.get_le(4) {
            Some(v) => if v >= 0x8000_0000 { Some((v as i64 - 0x1_0000_0000) as i32) } else { Some(v as i32) },
            None => None,
        }
    }

    pub fn get_i64_le(&mut self) -> (r: Option<i64>)
        ensures
            old(self).rest().len() >= 8 ==> r == Some(from_twos(le_value(old(self).rest().take(8)), 8) as i64)
                && final(self).rest() == old(self).rest().skip(8),
            old(self).rest().len() < 8 ==> r is None && final(self).rest() == old(self).rest(),
    {
        proof { lemma_p256_values(); }
        match self.get_le(8) {
            Some(v) => if v >= 0x8000_0000_0000_0000 {
                Some((v as i128 - 0x1_0000_0000_0000_0000) as i64)
            } else {
                Some(v as i64)
            },
            None => None,
        }
    }

    /// Reads a LEB128 integer of at most `max` bytes.
    fn get_varint(&mut self, max: usize) -> (r: Option<u128>)
        requires
            max <= 10,
        ensures
            match varint_parse(old(self).rest(), max as nat) {
                Some((v, n)) => r == Some(v as u128) && v < 0x40_0000_0000_0000_0000
                    && final(self).rest() == old(self).rest().skip(n as int),
                None => r is None && final(self).rest() == old(self).rest(),
            },
    {
        proof {
            use_type_invariant(&*self);
        }
        let len = self.buf.len();
        match parse_varint_at(self.buf, self.pos, max) {
            Some((v, n)) => {
                proof {
                    lemma_varint_parse_bound(self.buf@.skip(self.pos as int), max as nat);
                    let (gv, gn) = varint_parse(self.buf@.skip(self.pos as int), max as nat).unwrap();
                    lemma_p128_mono(gn, 10);
                    lemma_p128_values();
                    assert(gn <= len - self.pos);
                }
                let ghost old_rest = self.buf@.skip(self.pos as int);
                self.pos = self.pos + n;
                assert(self.buf@.skip(self.pos as int) =~= old_rest.skip(n as int));
                Some(v)
            },
            None => None,
        }
    }

    /// Reads a variable-length integer of at most five bytes, keeping the low 32 bits.
    pub fn get_var_u32(&mut self) -> (r: Option<u32>)
        ensures
            match varint_parse(old(self).rest(), 5) {
                Some((v, n)) => r == Some((v % 0x1_0000_0000) as u32) && final(self).rest() == old(
                    self,
                ).rest().skip(n as int),
                None => r is None && final(self).rest() == old(self).rest(),
            },
    {
        match self.get_varint(5) {
            Some(v) => Some((v % 0x1_0000_0000) as u32),
            None => None,
        }
    }

    /// Reads a variable-length integer of at most ten bytes, keeping the low 64 bits.
    pub fn get_var_u64(&mut self) -> (r: Option<u64>)
        ensures
            match varint_parse(old(self).rest(), 10) {
                Some((v, n)) => r == Some((v % 0x1_0000_0000_0000_0000) as u64) && final(self).rest()
                    == old(self).rest().skip(n as int),
                None => r is None && final(self).rest() == old(self).rest(),
            },
    {
        match self.get_varint(10) {
            Some(v) => Some((v % 0x1_0000_0000_0000_0000) as u64),
            None => None,
        }
    }

    /// Reads a zigzag-signed variable-length integer of at most five bytes.
    pub fn get_var_i32(&mut self) -> (r: Option<i32>)
        ensures
            match varint_parse(old(self).rest(), 5) {
                Some((v, n)) => r == Some(unzigzag(v % 0x1_0000_0000) as i32) && final(self).rest()
                    == old(self).rest().skip(n as int),
                None => r is None && final(self).rest() == old(self).rest(),
            },
    {
        match self.get_varint(5) {
            Some(v) => {
                let u = v % 0x1_0000_0000;
                proof {
                    lemma_unzigzag_range(u as nat, 0x1_0000_0000);
                }
                if u % 2 == 0 {
                    Some((u / 2) as i32)
                } else {
                    Some((-(((u + 1) / 2) as i64)) as i32)
                }
            },
            None => None,
        }
    }

    /// Reads a zigzag-signed variable-length integer of at most ten bytes.
    pub fn get_var_i64(&mut self) -> (r: Option<i64>)
        ensures
            match varint_parse(old(self).rest(), 10) {
                Some((v, n)) => r == Some(unzigzag(v % 0x1_0000_0000_0000_0000) as i64)
                    && final(self).rest() == old(self).rest().skip(n as int),
                None => r is None && final(self).rest() == old(self).rest(),
            },
    {
        match self.get_varint(10) {
            Some(v) => {
                let u = v % 0x1_0000_0000_0000_0000;
                proof {
                    lemma_unzigzag_range(u as nat, 0x1_0000_0000_0000_0000);
                }
                if u % 2 == 0 {
                    Some((u / 2) as i64)
                } else {
                    Some((-(((u + 1) / 2) as i128)) as i64)
                }
            },
            None => None,
        }
    }
}

pub proof fn lemma_p256_mono(a: nat, b: nat)
    requires
        a <= b,
    ensures
        0 < p256(a) <= p256(b),
    decreases b,
{
    if b > a {
        lemma_p256_mono(a, (b - 1) as nat);
    } else if a > 0 {
        lemma_p256_mono((a - 1) as nat, (a - 1) as nat);
    }
}

/// A boolean read back: any byte but 0 is true.
pub open spec fn parse_bool(s: Seq<u8>) -> Option<(bool, nat)> {
    if s.len() < 1 { None } else { Some((s[0] != 0, 1)) }
}

pub open spec fn parse_u8(s: Seq<u8>) -> Option<(u8, nat)> {
    if s.len() < 1 { None } else { Some((s[0], 1)) }
}

pub open spec fn parse_u16_le(s: Seq<u8>) -> Option<(u16, nat)> {
    if s.len() < 2 { None } else { Some((le_value(s.take(2)) as u16, 2)) }
}

pub open spec fn parse_u32_le(s: Seq<u8>) -> Option<(u32, nat)> {
    if s.len() < 4 { None } else { Some((le_value(s.take(4)) as u32, 4)) }
}

pub open spec fn parse_i16_le(s: Seq<u8>) -> Option<(i16, nat)> {
    if s.len() < 2 { None } else { Some((from_twos(le_value(s.take(2)), 2) as i16, 2)) }
}

pub open spec fn parse_i32_le(s: Seq<u8>) -> Option<(i32, nat)> {
    if s.len() < 4 { None } else { Some((from_twos(le_value(s.take(4)), 4) as i32, 4)) }
}

pub open spec fn parse_i64_le(s: Seq<u8>) -> Option<(i64, nat)> {
    if s.len() < 8 { None } else { Some((from_twos(le_value(s.take(8)), 8) as i64, 8)) }
}

pub open spec fn parse_var_u32(s: Seq<u8>) -> Option<(u32, nat)> {
    match varint_parse(s, 5) {
        Some((v, n)) => Some(((v % 0x1_0000_0000) as u32, n)),
        None => None,
    }
}

pub open spec fn parse_var_u64(s: Seq<u8>) -> Option<(u64, nat)> {
    match varint_parse(s, 10) {
        Some((v, n)) => Some(((v % 0x1_0000_0000_0000_0000) as u64, n)),
        None => None,
    }
}

pub open spec fn parse_var_i32(s: Seq<u8>) -> Option<(i32, nat)> {
    match varint_parse(s, 5) {
        Some((v, n)) => Some((unzigzag(v % 0x1_0000_0000) as i32, n)),
        None => None,
    }
}

pub open spec fn parse_var_i64(s: Seq<u8>) -> Option<(i64, nat)> {
    match varint_parse(s, 10) {
        Some((v, n)) => Some((unzigzag(v % 0x1_0000_0000_0000_0000) as i64, n)),
        None => None,
    }
}

pub proof fn lemma_bool_roundtrip(b: bool, t: Seq<u8>)
    ensures
        parse_bool(seq![bool_byte(b)] + t) == Some((b, 1nat)),
{
}

pub proof fn lemma_u8_roundtrip(v: u8, t: Seq<u8>)
    ensures
        parse_u8(seq![v] + t) == Some((v, 1nat)),
{
}

pub proof fn lemma_u16_le_roundtrip(v: u16, t: Seq<u8>)
    ensures
        parse_u16_le(le_bytes(v as nat, 2) + t) == Some((v, 2nat)),
        le_bytes(v as nat, 2).len() == 2,
{
    lemma_le_bytes_len(v as nat, 2);
    lemma_le_roundtrip(v as nat, 2);
    lemma_p256_values();
    assert((le_bytes(v as nat, 2) + t).take(2) =~= le_bytes(v as nat, 2));
}

pub proof fn lemma_u32_le_roundtrip(v: u32, t: Seq<u8>)
    ensures
        parse_u32_le(le_bytes(v as nat, 4) + t) == Some((v, 4nat)),
        le_bytes(v as nat, 4).len() == 4,
{
    lemma_le_bytes_len(v as nat, 4);
    lemma_le_roundtrip(v as nat, 4);
    lemma_p256_values();
    assert((le_bytes(v as nat, 4) + t).take(4) =~= le_bytes(v as nat, 4));
}

pub proof fn lemma_i16_le_roundtrip(v: i16, t: Seq<u8>)
    ensures
        parse_i16_le(le_bytes(twos(v as int, 2), 2) + t) == Some((v, 2nat)),
        le_bytes(twos(v as int, 2), 2).len() == 2,
{
    lemma_p256_values();
    lemma_twos_roundtrip(v as int, 2);
    lemma_le_bytes_len(twos(v as int, 2), 2);
    lemma_le_roundtrip(twos(v as int, 2), 2);
    assert((le_bytes(twos(v as int, 2), 2) + t).take(2) =~= le_bytes(twos(v as int, 2), 2));
}

pub proof fn lemma_i32_le_roundtrip(v: i32, t: Seq<u8>)
    ensures
        parse_i32_le(le_bytes(twos(v as int, 4), 4) + t) == Some((v, 4nat)),
        le_bytes(twos(v as int, 4), 4).len() == 4,
{
    lemma_p256_values();
    lemma_twos_roundtrip(v as int, 4);
    lemma_le_bytes_len(twos(v as int, 4), 4);
    lemma_le_roundtrip(twos(v as int, 4), 4);
    assert((le_bytes(twos(v as int, 4), 4) + t).take(4) =~= le_bytes(twos(v as int, 4), 4));
}

pub proof fn lemma_i64_le_roundtrip(v: i64, t: Seq<u8>)
    ensures
        parse_i64_le(le_bytes(twos(v as int, 8), 8) + t) == Some((v, 8nat)),
        le_bytes(twos(v as int, 8), 8).len() == 8,
{
    lemma_p256_values();
    lemma_twos_roundtrip(v as int, 8);
    lemma_le_bytes_len(twos(v as int, 8), 8);
    lemma_le_roundtrip(twos(v as int, 8), 8);
    assert((le_bytes(twos(v as int, 8), 8) + t).take(8) =~= le_bytes(twos(v as int, 8), 8));
}

pub proof fn lemma_var_u32_roundtrip(v: u32, t: Seq<u8>)
    ensures
        parse_var_u32(var_u32_bytes(v) + t) == Some((v, var_u32_bytes(v).len())),
        1 <= var_u32_bytes(v).len() <= 5,
{
    lemma_p128_values();
    lemma_varint_len(v as nat, 5);
    lemma_varint_roundtrip(v as nat, t, 5);
}

pub proof fn lemma_var_u64_roundtrip(v: u64, t: Seq<u8>)
    ensures
        parse_var_u64(var_u64_bytes(v) + t) == Some((v, var_u64_bytes(v).len())),
        1 <= var_u64_bytes(v).len() <= 10,
{
    lemma_p128_values();
    lemma_varint_len(v as nat, 10);
    lemma_varint_roundtrip(v as nat, t, 10);
}

pub proof fn lemma_var_i32_roundtrip(v: i32, t: Seq<u8>)
    ensures
        parse_var_i32(var_i32_bytes(v) + t) == Some((v, var_i32_bytes(v).len())),
        1 <= var_i32_bytes(v).len() <= 5,
{
    lemma_p128_values();
    lemma_zigzag_range(v as int, 0x8000_0000);
    lemma_varint_len(zigzag(v as int), 5);
    lemma_varint_roundtrip(zigzag(v as int), t, 5);
}

pub proof fn lemma_var_i64_roundtrip(v: i64, t: Seq<u8>)
    ensures
        parse_var_i64(var_i64_bytes(v) + t) == Some((v, var_i64_bytes(v).len())),
        1 <= var_i64_bytes(v).len() <= 10,
{
    lemma_p128_values();
    lemma_zigzag_range(v as int, 0x8000_0000_0000_0000);
    lemma_varint_len(zigzag(v as int), 10);
    lemma_varint_roundtrip(zigzag(v as int), t, 10);
}

/// `String::from_utf8`, as the standard library documents it: a string
/// exactly when the bytes are well-formed UTF-8, holding the characters they
/// encode.
#[verifier::external_body]
pub(crate) fn utf8_to_string(bytes: Vec<u8>) -> (r: Option<String>)
    ensures
        r is Some <==> valid_utf8(bytes@),
        r matches Some(s) ==> s@ == decode_utf8(bytes@),
{
    String::from_utf8(bytes).ok()
}

/// Copies sixteen bytes into an array.
pub fn bytes_to_array16(v: &Vec<u8>) -> (r: [u8; 16])
    requires
        v@.len() == 16,
    ensures
        r@ == v@,
{
    let r = [
        v[0], v[1], v[2], v[3], v[4], v[5], v[6], v[7], v[8], v[9], v[10], v[11], v[12], v[13],
        v[14], v[15],
    ];
    assert(r@ =~= v@);
    r
}

/// Appends `n` zero bytes.
pub fn put_zeros(out: &mut Vec<u8>, n: usize)
    ensures
        final(out)@ == old(out)@ + Seq::new(n as nat, |i: int| 0u8),
{
    let ghost start = out@;
    let mut i: usize = 0;
    while i < n
        invariant
            i <= n,
            out@ == start + Seq::new(i as nat, |j: int| 0u8),
        decreases n - i,
    {
        out.push(0);
        i = i + 1;
        assert(out@ =~= start + Seq::new(i as nat, |j: int| 0u8));
    }
}

} // verus!
