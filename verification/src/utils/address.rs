//! Internet addresses as RakNet carries them, and the text they are shown
//! as: dotted decimal for IPv4, eight colon-separated groups of lowercase
//! hexadecimal for IPv6.

use vstd::prelude::*;
use vstd::string::StrSliceExecFns;
use crate::utils::text::push_char;
use crate::wire::{
    be_bytes, be_value, lemma_be_bytes_len, lemma_be_roundtrip, lemma_p256_values, put_u16_be,
    put_u8, put_zeros, ByteReader,
};

verus! {

/// The character of one digit, lowercase past nine.
pub open spec fn digit_char(d: nat) -> char {
    if d < 10 { (d + 48) as char } else { (d + 87) as char }
}

/// The digits of `n` in `base`, most significant first, without leading zeros.
pub open spec fn digits(n: nat, base: nat) -> Seq<char>
    decreases n,
{
    if base < 2 || n < base {
        seq![digit_char(n)]
    } else {
        proof {
            lemma_div_smaller(n, base);
        }
        digits(n / base, base).push(digit_char(n % base))
    }
}

/// The values written in `base` and joined by `sep`.
pub open spec fn joined(v: Seq<u32>, base: nat, sep: char) -> Seq<char>
    decreases v.len(),
{
    if v.len() == 0 {
        Seq::empty()
    } else if v.len() == 1 {
        digits(v[0] as nat, base)
    } else {
        joined(v.drop_last(), base, sep) + seq![sep] + digits(v.last() as nat, base)
    }
}

/// Dividing by a base of at least 2 makes a number of at least the base smaller.
pub proof fn lemma_div_smaller(n: nat, base: nat)
    requires
        base >= 2,
        n >= base,
    ensures
        n / base < n,
        n / base >= 1,
        n == (n / base) * base + n % base,
        n % base < base,
{
    assert(n / base < n && n / base >= 1) by (nonlinear_arith)
        requires
            base >= 2,
            n >= base,
    ;
    assert(n == (n / base) * base + n % base && n % base < base) by (nonlinear_arith)
        requires
            base >= 2,
    ;
}

/// The value of a digit character in `base` (10 or 16), if it is one.
pub open spec fn char_digit(c: char, base: nat) -> Option<nat> {
    if '0' <= c && c <= '9' && (c as nat) - 48 < base {
        Some(((c as nat) - 48) as nat)
    } else if base == 16 && 'a' <= c && c <= 'f' {
        Some(((c as nat) - 87) as nat)
    } else {
        None
    }
}

/// What a scan of the text has read: the finished groups, the group being
/// read, and whether it is still well formed.
pub struct ScanState {
    pub groups: Seq<u32>,
    pub current: Option<nat>,
    pub ok: bool,
}

/// One character more: a separator ends a non-empty group, a digit extends
/// the group as long as it stays within `max`, anything else fails.
pub open spec fn scan_step(st: ScanState, c: char, base: nat, sep: char, max: nat) -> ScanState {
    if !st.ok {
        st
    } else if c == sep {
        match st.current {
            None => ScanState { ok: false, ..st },
            Some(n) => ScanState { groups: st.groups.push(n as u32), current: None, ok: true },
        }
    } else {
        match char_digit(c, base) {
            None => ScanState { ok: false, ..st },
            Some(d) => {
                let n = match st.current {
                    None => d,
                    Some(m) => m * base + d,
                };
                if n > max {
                    ScanState { ok: false, ..st }
                } else {
                    ScanState { current: Some(n), ..st }
                }
            },
        }
    }
}

/// The state after reading `s` from `st`.
pub open spec fn scan_from(st: ScanState, s: Seq<char>, base: nat, sep: char, max: nat) -> ScanState
    decreases s.len(),
{
    if s.len() == 0 {
        st
    } else {
        scan_step(scan_from(st, s.drop_last(), base, sep, max), s.last(), base, sep, max)
    }
}

/// Nothing read yet.
pub open spec fn scan_start() -> ScanState {
    ScanState { groups: Seq::empty(), current: None, ok: true }
}

/// The groups of a text of separated numbers, each within `max`; `None`
/// where the text is not of that form.
pub open spec fn scan_groups(s: Seq<char>, base: nat, sep: char, max: nat) -> Option<Seq<u32>> {
    let st = scan_from(scan_start(), s, base, sep, max);
    if st.ok && st.current is Some {
        Some(st.groups.push(st.current.unwrap() as u32))
    } else {
        None
    }
}

proof fn lemma_scan_concat(st: ScanState, a: Seq<char>, b: Seq<char>, base: nat, sep: char, max: nat)
    ensures
        scan_from(st, a + b, base, sep, max) == scan_from(scan_from(st, a, base, sep, max), b, base, sep, max),
    decreases b.len(),
{
    if b.len() > 0 {
        assert((a + b).drop_last() =~= a + b.drop_last());
        lemma_scan_concat(st, a, b.drop_last(), base, sep, max);
    }
}

proof fn lemma_digit_char(d: nat, base: nat)
    requires
        base == 10 || base == 16,
        d < base,
    ensures
        char_digit(digit_char(d), base) == Some(d),
{
}

/// Reading the digits of `n` at the start of a group gives `n`.
proof fn lemma_scan_digits(g: Seq<u32>, n: nat, base: nat, sep: char, max: nat)
    requires
        base == 10 || base == 16,
        n <= max,
        char_digit(sep, base) is None,
    ensures
        scan_from(ScanState { groups: g, current: None, ok: true }, digits(n, base), base, sep, max)
            == (ScanState { groups: g, current: Some(n), ok: true }),
    decreases n,
{
    let st = ScanState { groups: g, current: None, ok: true };
    let s = digits(n, base);
    if n < base {
        lemma_digit_char(n, base);
        let c = digit_char(n);
        assert(s == seq![c]);
        assert(s.drop_last() =~= Seq::<char>::empty());
        assert(scan_from(st, s.drop_last(), base, sep, max) == st);
        assert(c != sep);
        assert(s.last() == c);
        assert(scan_step(st, c, base, sep, max) == ScanState { groups: g, current: Some(n), ok: true });
    } else {
        lemma_div_smaller(n, base);
        lemma_digit_char(n % base, base);
        lemma_scan_digits(g, n / base, base, sep, max);
        let c = digit_char(n % base);
        assert(s == digits(n / base, base).push(c));
        assert(s.drop_last() =~= digits(n / base, base));
        assert(s.last() == c);
        assert(c != sep);
        let mid = ScanState { groups: g, current: Some(n / base), ok: true };
        assert(scan_from(st, s.drop_last(), base, sep, max) == mid);
        assert((n / base) * base + n % base == n);
        assert(scan_step(mid, c, base, sep, max) == ScanState { groups: g, current: Some(n), ok: true });
    }
}

/// Reading text joined from values within `max` gives them back.
proof fn lemma_scan_joined(v: Seq<u32>, base: nat, sep: char, max: nat)
    requires
        base == 10 || base == 16,
        v.len() >= 1,
        forall|i: int| 0 <= i < v.len() ==> v[i] <= max,
        char_digit(sep, base) is None,
    ensures
        scan_from(scan_start(), joined(v, base, sep), base, sep, max) == (ScanState {
            groups: v.drop_last(),
            current: Some(v.last() as nat),
            ok: true,
        }),
    decreases v.len(),
{
    if v.len() == 1 {
        assert(v.drop_last() =~= Seq::<u32>::empty());
        assert(scan_start() == ScanState { groups: Seq::<u32>::empty(), current: None, ok: true });
        lemma_scan_digits(Seq::empty(), v[0] as nat, base, sep, max);
        assert(joined(v, base, sep) == digits(v[0] as nat, base));
        assert(v.last() == v[0]);
    } else {
        let p = v.drop_last();
        assert forall|i: int| 0 <= i < p.len() implies p[i] <= max by {
            assert(p[i] == v[i]);
        }
        lemma_scan_joined(p, base, sep, max);
        let a = joined(p, base, sep);
        let d = digits(v.last() as nat, base);
        let b = seq![sep] + d;
        assert(joined(v, base, sep) =~= a + b);
        lemma_scan_concat(scan_start(), a, b, base, sep, max);
        let mid = scan_from(scan_start(), a, base, sep, max);
        assert(mid == ScanState { groups: p.drop_last(), current: Some(p.last() as nat), ok: true });
        lemma_scan_concat(mid, seq![sep], d, base, sep, max);
        assert(seq![sep].drop_last() =~= Seq::<char>::empty());
        assert(seq![sep].last() == sep);
        assert(p.drop_last().push(p.last()) =~= p);
        let after_sep = ScanState { groups: p, current: None, ok: true };
        assert(scan_from(mid, Seq::<char>::empty(), base, sep, max) == mid);
        assert(scan_step(mid, sep, base, sep, max) == after_sep);
        assert(scan_from(mid, seq![sep], base, sep, max) == after_sep);
        assert(v.last() <= max) by {
            assert(v[v.len() - 1] <= max);
        }
        lemma_scan_digits(p, v.last() as nat, base, sep, max);
        assert(scan_from(after_sep, d, base, sep, max) == ScanState {
            groups: p,
            current: Some(v.last() as nat),
            ok: true,
        });
    }
}

/// Text joined from values within `max` reads back as those values.
pub proof fn lemma_groups_roundtrip(v: Seq<u32>, base: nat, sep: char, max: nat)
    requires
        base == 10 || base == 16,
        v.len() >= 1,
        forall|i: int| 0 <= i < v.len() ==> v[i] <= max,
        char_digit(sep, base) is None,
    ensures
        scan_groups(joined(v, base, sep), base, sep, max) == Some(v),
{
    lemma_scan_joined(v, base, sep, max);
    assert(v.drop_last().push(v.last()) =~= v);
}

/// Appends the digits of `n` in `base`.
fn push_digits(out: &mut String, n: u32, base: u32)
    requires
        base == 10 || base == 16,
    ensures
        final(out)@ == old(out)@ + digits(n as nat, base as nat),
    decreases n,
{
    if n >= base {
        proof {
            lemma_div_smaller(n as nat, base as nat);
        }
        push_digits(out, n / base, base);
    }
    let d = n % base;
    let c = if d < 10 { (d as u8 + 48) as char } else { (d as u8 + 87) as char };
    push_char(out, c);
    proof {
        if n >= base {
            assert(digits(n as nat, base as nat) == digits((n / base) as nat, base as nat).push(
                digit_char((n % base) as nat),
            ));
        } else {
            assert(n % base == n);
        }
    }
    assert(final(out)@ =~= old(out)@ + digits(n as nat, base as nat));
}

/// The values written in `base` and joined by `sep`.
pub fn format_groups(v: &Vec<u32>, base: u32, sep: char) -> (r: String)
    requires
        base == 10 || base == 16,
    ensures
        r@ == joined(v@, base as nat, sep),
{
    let mut out = String::new();
    let mut i: usize = 0;
    while i < v.len()
        invariant
            base == 10 || base == 16,
            i <= v@.len(),
            out@ == joined(v@.take(i as int), base as nat, sep),
        decreases v@.len() - i,
    {
        if i > 0 {
            push_char(&mut out, sep);
        }
        push_digits(&mut out, v[i], base);
        i = i + 1;
        proof {
            let t = v@.take(i as int);
            assert(t.drop_last() =~= v@.take(i - 1));
            if i == 1 {
                assert(v@.take(0) =~= Seq::<u32>::empty());
            }
        }
        assert(out@ =~= joined(v@.take(i as int), base as nat, sep));
    }
    assert(v@.take(i as int) =~= v@);
    out
}

/// The value of a digit character, as `char_digit` says.
fn digit_of(c: char, base: u32) -> (r: Option<u32>)
    requires
        base == 10 || base == 16,
    ensures
        match char_digit(c, base as nat) {
            Some(d) => r == Some(d as u32),
            None => r is None,
        },
{
    if '0' <= c && c <= '9' && (c as u32) - 48 < base {
        Some((c as u32) - 48)
    } else if base == 16 && 'a' <= c && c <= 'f' {
        Some((c as u32) - 87)
    } else {
        None
    }
}

/// Reads the text as groups of digits in `base`, each at most `max`,
/// separated by `sep`; `None` where it is not of that form.
fn scan_text(text: &str, base: u32, sep: char, max: u32) -> (r: Option<Vec<u32>>)
    requires
        base == 10 || base == 16,
        max <= 0xffff,
    ensures
        match scan_groups(text@, base as nat, sep, max as nat) {
            Some(g) => r matches Some(v) && v@ == g,
            None => r is None,
        },
{
    let n = text.unicode_len();
    let mut groups: Vec<u32> = Vec::new();
    let mut current: Option<u32> = None;
    let mut ok = true;
    let mut i: usize = 0;
    while i < n
        invariant
            base == 10 || base == 16,
            max <= 0xffff,
            n == text@.len(),
            i <= n,
            ({
                let st = scan_from(scan_start(), text@.take(i as int), base as nat, sep, max as nat);
                &&& st.groups == groups@
                &&& st.ok == ok
                &&& match current {
                    Some(c) => st.current == Some(c as nat),
                    None => st.current is None,
                }
            }),
            current matches Some(c) ==> c <= max,
        decreases n - i,
    {
        let c = text.get_char(i);
        assert(text@.take(i + 1).drop_last() =~= text@.take(i as int));
        if ok {
            if c == sep {
                match current {
                    None => {
                        ok = false;
                    },
                    Some(m) => {
                        groups.push(m);
                        current = None;
                    },
                }
            } else {
                match digit_of(c, base) {
                    None => {
                        ok = false;
                    },
                    Some(d) => {
                        let v: u64 = match current {
                            None => d as u64,
                            Some(m) => m as u64 * base as u64 + d as u64,
                        };
                        if v > max as u64 {
                            ok = false;
                        } else {
                            current = Some(v as u32);
                        }
                    },
                }
            }
        }
        i = i + 1;
    }
    assert(text@.take(n as int) =~= text@);
    if ok {
        match current {
            Some(m) => {
                groups.push(m);
                Some(groups)
            },
            None => None,
        }
    } else {
        None
    }
}

/// Some `count` values within `max` are written as exactly this text.
pub open spec fn is_address_text(text: Seq<char>, base: nat, sep: char, count: nat, max: nat) -> bool {
    exists|v: Seq<u32>|
        v.len() == count && (forall|i: int| 0 <= i < v.len() ==> v[i] <= max) && #[trigger] joined(
            v,
            base,
            sep,
        ) == text
}

/// The `count` values within `max` that are written in `base`, joined by
/// `sep`, as exactly `text`; `None` where there are none.
pub fn parse_groups(text: &str, base: u32, sep: char, count: usize, max: u32) -> (r: Option<Vec<u32>>)
    requires
        base == 10 || base == 16,
        max <= 0xffff,
        count >= 1,
        sep == '.' || sep == ':',
    ensures
        r matches Some(v) ==> v@.len() == count && (forall|i: int| 0 <= i < v@.len() ==> v@[i] <= max)
            && joined(v@, base as nat, sep) == text@,
        r is None <==> !is_address_text(text@, base as nat, sep, count as nat, max as nat),
{
    let scanned = scan_text(text, base, sep, max);
    proof {
        if is_address_text(text@, base as nat, sep, count as nat, max as nat) {
            let v = choose|v: Seq<u32>|
                v.len() == count && (forall|i: int| 0 <= i < v.len() ==> v[i] <= max) && #[trigger] joined(
                    v,
                    base as nat,
                    sep,
                ) == text@;
            lemma_groups_roundtrip(v, base as nat, sep, max as nat);
        }
    }
    match scanned {
        Some(v) => {
            if v.len() != count {
                return None;
            }
            let formatted = format_groups(&v, base, sep);
            let given = text.to_owned();
            if formatted == given {
                proof {
                    lemma_scan_bounded(text@, base as nat, sep, max as nat);
                }
                Some(v)
            } else {
                None
            }
        },
        None => None,
    }
}

/// Every group a scan reads is within `max`.
proof fn lemma_scan_bounded(s: Seq<char>, base: nat, sep: char, max: nat)
    requires
        max <= 0xffff,
    ensures
        scan_groups(s, base, sep, max) matches Some(g) ==> forall|i: int| 0 <= i < g.len() ==> g[i] <= max,
{
    lemma_scan_from_bounded(scan_start(), s, base, sep, max);
}

proof fn lemma_scan_from_bounded(st: ScanState, s: Seq<char>, base: nat, sep: char, max: nat)
    requires
        max <= 0xffff,
        forall|i: int| 0 <= i < st.groups.len() ==> st.groups[i] <= max,
        st.current matches Some(c) ==> c <= max,
    ensures
        ({
            let e = scan_from(st, s, base, sep, max);
            &&& forall|i: int| 0 <= i < e.groups.len() ==> e.groups[i] <= max
            &&& e.current matches Some(c) ==> c <= max
        }),
    decreases s.len(),
{
    if s.len() > 0 {
        lemma_scan_from_bounded(st, s.drop_last(), base, sep, max);
        let p = scan_from(st, s.drop_last(), base, sep, max);
        let e = scan_step(p, s.last(), base, sep, max);
        assert forall|i: int| 0 <= i < e.groups.len() implies e.groups[i] <= max by {
            if i < p.groups.len() {
                assert(e.groups[i] == p.groups[i]);
            }
        }
    }
}

/// The address family RakNet writes for IPv6, in the form Windows numbers it.
pub const AF_INET6: u8 = 23;

/// An address: its IP version (4 or 6), its text and its port.
pub struct InternetAddress {
    pub version: u8,
    pub address: String,
    pub port: u16,
}

pub struct InternetAddressView {
    pub version: u8,
    pub address: Seq<char>,
    pub port: u16,
}

impl View for InternetAddress {
    type V = InternetAddressView;

    open spec fn view(&self) -> InternetAddressView {
        InternetAddressView { version: self.version, address: self.address@, port: self.port }
    }
}

/// Dotted decimal: four numbers up to 255.
pub open spec fn is_ipv4_text(t: Seq<char>) -> bool {
    is_address_text(t, 10, '.', 4, 255)
}

/// Eight groups of lowercase hexadecimal up to ffff, joined by colons.
pub open spec fn is_ipv6_text(t: Seq<char>) -> bool {
    is_address_text(t, 16, ':', 8, 0xffff)
}

/// An address of version 4 or 6 whose text is of the form for its version.
pub open spec fn address_valid(v: InternetAddressView) -> bool {
    ||| v.version == 4 && is_ipv4_text(v.address)
    ||| v.version == 6 && is_ipv6_text(v.address)
}

/// The four numbers of an IPv4 text.
pub open spec fn ipv4_octets(t: Seq<char>) -> Seq<u32> {
    scan_groups(t, 10, '.', 255).unwrap()
}

/// The eight groups of an IPv6 text.
pub open spec fn ipv6_groups(t: Seq<char>) -> Seq<u32> {
    scan_groups(t, 16, ':', 0xffff).unwrap()
}

/// Each octet complemented, as RakNet carries IPv4 addresses.
pub open spec fn octet_bytes(o: Seq<u32>) -> Seq<u8> {
    Seq::new(o.len(), |k: int| (255 - o[k]) as u8)
}

/// Each group as two bytes, high byte first.
pub open spec fn group_bytes(g: Seq<u32>) -> Seq<u8> {
    Seq::new(2 * g.len(), |k: int| if k % 2 == 0 { (g[k / 2] / 256) as u8 } else { (g[k / 2] % 256) as u8 })
}

/// The address as RakNet carries it. Version 4: the version, the complemented
/// octets, the port. Version 6: the version, the family (16 bits,
/// little-endian), the port, a zero flow label (32 bits), the groups, a zero
/// scope (32 bits). Integers are big-endian unless said otherwise.
pub open spec fn address_bytes(v: InternetAddressView) -> Seq<u8> {
    if v.version == 4 {
        seq![4u8] + octet_bytes(ipv4_octets(v.address)) + be_bytes(v.port as nat, 2)
    } else {
        seq![6u8, AF_INET6, 0u8] + be_bytes(v.port as nat, 2) + seq![0u8, 0u8, 0u8, 0u8] + group_bytes(
            ipv6_groups(v.address),
        ) + seq![0u8, 0u8, 0u8, 0u8]
    }
}

/// The octets read from complemented bytes.
pub open spec fn read_octets(b: Seq<u8>) -> Seq<u32> {
    Seq::new(b.len(), |k: int| (255 - b[k]) as u32)
}

/// The groups read from pairs of bytes, high byte first.
pub open spec fn read_groups(b: Seq<u8>) -> Seq<u32> {
    Seq::new(b.len() / 2, |k: int| (b[2 * k] * 256 + b[2 * k + 1]) as u32)
}

/// The address at the start of `s`, and what follows it; `None` for a
/// version other than 4 or 6 or too short an input.
pub open spec fn parse_address(s: Seq<u8>) -> Option<(InternetAddressView, Seq<u8>)> {
    if s.len() >= 7 && s[0] == 4 {
        Some(
            (
                InternetAddressView {
                    version: 4,
                    address: joined(read_octets(s.subrange(1, 5)), 10, '.'),
                    port: be_value(s.subrange(5, 7)) as u16,
                },
                s.skip(7),
            ),
        )
    } else if s.len() >= 29 && s[0] == 6 {
        Some(
            (
                InternetAddressView {
                    version: 6,
                    address: joined(read_groups(s.subrange(9, 25)), 16, ':'),
                    port: be_value(s.subrange(3, 5)) as u16,
                },
                s.skip(29),
            ),
        )
    } else {
        None
    }
}

proof fn lemma_ipv4_values(t: Seq<char>)
    requires
        is_ipv4_text(t),
    ensures
        ipv4_octets(t).len() == 4,
        forall|i: int| 0 <= i < 4 ==> ipv4_octets(t)[i] <= 255,
        joined(ipv4_octets(t), 10, '.') == t,
{
    let v = choose|v: Seq<u32>|
        v.len() == 4 && (forall|i: int| 0 <= i < v.len() ==> v[i] <= 255) && #[trigger] joined(v, 10, '.')
            == t;
    lemma_groups_roundtrip(v, 10, '.', 255);
}

proof fn lemma_ipv6_values(t: Seq<char>)
    requires
        is_ipv6_text(t),
    ensures
        ipv6_groups(t).len() == 8,
        forall|i: int| 0 <= i < 8 ==> ipv6_groups(t)[i] <= 0xffff,
        joined(ipv6_groups(t), 16, ':') == t,
{
    let v = choose|v: Seq<u32>|
        v.len() == 8 && (forall|i: int| 0 <= i < v.len() ==> v[i] <= 0xffff) && #[trigger] joined(v, 16, ':')
            == t;
    lemma_groups_roundtrip(v, 16, ':', 0xffff);
}

proof fn lemma_ipv4_roundtrip(v: InternetAddressView, t: Seq<u8>)
    requires
        v.version == 4,
        is_ipv4_text(v.address),
    ensures
        parse_address(address_bytes(v) + t) == Some((v, t)),
{
    lemma_p256_values();
    lemma_be_bytes_len(v.port as nat, 2);
    lemma_be_roundtrip(v.port as nat, 2);
    lemma_ipv4_values(v.address);
    let o = ipv4_octets(v.address);
    let s = address_bytes(v) + t;
    assert(s.len() >= 7 && s[0] == 4);
    assert(be_value(s.subrange(5, 7)) == v.port) by {
        assert(s.subrange(5, 7) =~= be_bytes(v.port as nat, 2));
    }
    assert(read_octets(s.subrange(1, 5)) =~= o);
    assert(s.skip(7) =~= t);
}

proof fn lemma_ipv6_roundtrip(v: InternetAddressView, t: Seq<u8>)
    requires
        v.version == 6,
        is_ipv6_text(v.address),
    ensures
        parse_address(address_bytes(v) + t) == Some((v, t)),
{
    lemma_p256_values();
    lemma_be_bytes_len(v.port as nat, 2);
    lemma_be_roundtrip(v.port as nat, 2);
    lemma_ipv6_values(v.address);
    let g = ipv6_groups(v.address);
    let s = address_bytes(v) + t;
    assert(s.len() >= 29 && s[0] == 6);
    assert(be_value(s.subrange(3, 5)) == v.port) by {
        assert(s.subrange(3, 5) =~= be_bytes(v.port as nat, 2));
    }
    let b = s.subrange(9, 25);
    assert(b =~= group_bytes(g));
    assert forall|k: int| 0 <= k < 8 implies #[trigger] read_groups(b)[k] == g[k] by {
        assert(b[2 * k] == (g[k] / 256) as u8);
        assert(b[2 * k + 1] == (g[k] % 256) as u8);
    }
    assert(read_groups(b) =~= g);
    assert(s.skip(29) =~= t);
}

/// An address written out reads back as itself, whatever follows it.
pub proof fn lemma_address_roundtrip(v: InternetAddressView, t: Seq<u8>)
    requires
        address_valid(v),
    ensures
        parse_address(address_bytes(v) + t) == Some((v, t)),
{
    if v.version == 4 {
        lemma_ipv4_roundtrip(v, t);
    } else {
        lemma_ipv6_roundtrip(v, t);
    }
}

impl InternetAddress {
    pub fn new(version: u8, address: String, port: u16) -> (r: InternetAddress)
        ensures
            r == (InternetAddress { version, address, port }),
    {
        InternetAddress { version, address, port }
    }

    /// Whether the address has version 4 or 6 and text of the form for it.
    pub fn is_valid(&self) -> (r: bool)
        ensures
            r == address_valid(self@),
    {
        if self.version == 4 {
            parse_groups(self.address.as_str(), 10, '.', 4, 255).is_some()
        } else if self.version == 6 {
            parse_groups(self.address.as_str(), 16, ':', 8, 0xffff).is_some()
        } else {
            false
        }
    }

    /// Reads an address; on too short an input or a version other than 4
    /// or 6 returns `None` and leaves `stream` as it was.
    pub fn get_address(stream: &mut ByteReader) -> (r: Option<InternetAddress>)
        ensures
            match parse_address(old(stream).rest()) {
                Some((v, rest)) => r matches Some(a) && a@ == v && final(stream).rest() == rest,
                None => r is None && final(stream).rest() == old(stream).rest(),
            },
    {
        proof {
            lemma_p256_values();
        }
        let ghost s = stream.rest();
        let n = stream.remaining_byte_count();
        if n < 1 {
            return None;
        }
        let mut cur = *stream;
        let version = cur.get_u8().unwrap();
        if version == 4 && n >= 7 {
            let raw = cur.get(4).unwrap();
            let port = cur.get_u16_be().unwrap();
            let mut octets: Vec<u32> = Vec::new();
            let mut i: usize = 0;
            while i < 4
                invariant
                    i <= 4,
                    raw@.len() == 4,
                    octets@ == read_octets(raw@).take(i as int),
                decreases 4 - i,
            {
                octets.push(255 - raw[i] as u32);
                i = i + 1;
                assert(octets@ =~= read_octets(raw@).take(i as int));
            }
            assert(octets@ =~= read_octets(raw@));
            assert(raw@ =~= s.subrange(1, 5));
            assert(s.skip(1).skip(4).take(2) =~= s.subrange(5, 7));
            assert(s.skip(1).skip(4).skip(2) =~= s.skip(7));
            let address = format_groups(&octets, 10, '.');
            *stream = cur;
            Some(InternetAddress { version: 4, address, port })
        } else if version == 6 && n >= 29 {
            let head = cur.get(2).unwrap();
            let port = cur.get_u16_be().unwrap();
            let flow = cur.get(4).unwrap();
            let raw = cur.get(16).unwrap();
            let scope = cur.get(4).unwrap();
            let mut groups: Vec<u32> = Vec::new();
            let mut i: usize = 0;
            while i < 8
                invariant
                    i <= 8,
                    raw@.len() == 16,
                    groups@ == read_groups(raw@).take(i as int),
                decreases 8 - i,
            {
                groups.push(raw[2 * i] as u32 * 256 + raw[2 * i + 1] as u32);
                i = i + 1;
                assert(groups@ =~= read_groups(raw@).take(i as int));
            }
            assert(groups@ =~= read_groups(raw@));
            let ghost s1 = s.skip(1).skip(2);
            assert(s1.take(2) =~= s.subrange(3, 5));
            assert(raw@ =~= s.subrange(9, 25));
            assert(s1.skip(2).skip(4).skip(16).skip(4) =~= s.skip(29));
            let address = format_groups(&groups, 16, ':');
            *stream = cur;
            Some(InternetAddress { version: 6, address, port })
        } else {
            None
        }
    }

    /// Appends the address.
    pub fn put_address(&self, stream: &mut Vec<u8>)
        requires
            address_valid(self@),
        ensures
            final(stream)@ == old(stream)@ + address_bytes(self@),
    {
        if self.version == 4 {
            proof {
                lemma_ipv4_values(self.address@);
            }
            let octets = parse_groups(self.address.as_str(), 10, '.', 4, 255).unwrap();
            proof {
                lemma_groups_roundtrip(octets@, 10, '.', 255);
            }
            let ghost start = stream@;
            put_u8(stream, 4);
            let mut i: usize = 0;
            while i < 4
                invariant
                    i <= 4,
                    octets@.len() == 4,
                    forall|j: int| 0 <= j < 4 ==> octets@[j] <= 255,
                    stream@ == start + seq![4u8] + octet_bytes(octets@).take(i as int),
                decreases 4 - i,
            {
                put_u8(stream, (255 - octets[i]) as u8);
                i = i + 1;
                assert(stream@ =~= start + seq![4u8] + octet_bytes(octets@).take(i as int));
            }
            assert(octet_bytes(octets@).take(4) =~= octet_bytes(octets@));
            put_u16_be(stream, self.port);
            assert(final(stream)@ =~= old(stream)@ + address_bytes(self@));
        } else {
            proof {
                lemma_ipv6_values(self.address@);
            }
            let groups = parse_groups(self.address.as_str(), 16, ':', 8, 0xffff).unwrap();
            proof {
                lemma_groups_roundtrip(groups@, 16, ':', 0xffff);
            }
            let ghost start = stream@;
            put_u8(stream, 6);
            put_u8(stream, AF_INET6);
            put_u8(stream, 0);
            put_u16_be(stream, self.port);
            put_zeros(stream, 4);
            let ghost mid = stream@;
            let mut i: usize = 0;
            while i < 8
                invariant
                    i <= 8,
                    groups@.len() == 8,
                    forall|j: int| 0 <= j < 8 ==> groups@[j] <= 0xffff,
                    stream@ == mid + group_bytes(groups@).take(2 * i),
                decreases 8 - i,
            {
                let g = groups[i];
                put_u8(stream, (g / 256) as u8);
                put_u8(stream, (g % 256) as u8);
                i = i + 1;
                assert(stream@ =~= mid + group_bytes(groups@).take(2 * i));
            }
            assert(group_bytes(groups@).take(16) =~= group_bytes(groups@));
            put_zeros(stream, 4);
            assert(final(stream)@ =~= old(stream)@ + address_bytes(self@));
        }
    }
}

/// The addresses of a sequence.
pub open spec fn address_views(a: Seq<InternetAddress>) -> Seq<InternetAddressView> {
    a.map_values(|x: InternetAddress| x@)
}

/// Every address is valid.
pub open spec fn all_valid(a: Seq<InternetAddressView>) -> bool {
    forall|i: int| 0 <= i < a.len() ==> address_valid(#[trigger] a[i])
}

/// The addresses one after the other.
pub open spec fn addresses_bytes(a: Seq<InternetAddressView>) -> Seq<u8>
    decreases a.len(),
{
    if a.len() == 0 {
        Seq::empty()
    } else {
        addresses_bytes(a.drop_last()) + address_bytes(a.last())
    }
}

/// `n` addresses read one after the other, and what follows them.
pub open spec fn parse_addresses(s: Seq<u8>, n: nat) -> Option<(Seq<InternetAddressView>, Seq<u8>)>
    decreases n,
{
    if n == 0 {
        Some((Seq::empty(), s))
    } else {
        match parse_addresses(s, (n - 1) as nat) {
            None => None,
            Some((a, r)) => match parse_address(r) {
                None => None,
                Some((x, rest)) => Some((a.push(x), rest)),
            },
        }
    }
}

/// Valid addresses written one after the other read back, whatever follows.
pub proof fn lemma_addresses_roundtrip(a: Seq<InternetAddressView>, t: Seq<u8>)
    requires
        all_valid(a),
    ensures
        parse_addresses(addresses_bytes(a) + t, a.len()) == Some((a, t)),
    decreases a.len(),
{
    if a.len() > 0 {
        let p = a.drop_last();
        let x = a.last();
        assert(all_valid(p)) by {
            assert forall|i: int| 0 <= i < p.len() implies address_valid(#[trigger] p[i]) by {
                assert(p[i] == a[i]);
            }
        }
        assert(address_valid(a[a.len() - 1]));
        lemma_addresses_roundtrip(p, address_bytes(x) + t);
        assert(addresses_bytes(a) + t =~= addresses_bytes(p) + (address_bytes(x) + t));
        lemma_address_roundtrip(x, t);
        assert(p.push(x) =~= a);
    }
}

proof fn lemma_parse_addresses_fails(s: Seq<u8>, i: nat, n: nat)
    requires
        i <= n,
        parse_addresses(s, i) is None,
    ensures
        parse_addresses(s, n) is None,
    decreases n,
{
    if i < n {
        lemma_parse_addresses_fails(s, i, (n - 1) as nat);
    }
}

/// Reads `n` addresses; on too short or malformed an input returns `None`
/// and leaves `stream` as it was.
pub fn get_addresses(stream: &mut ByteReader, n: usize) -> (r: Option<Vec<InternetAddress>>)
    ensures
        match parse_addresses(old(stream).rest(), n as nat) {
            Some((a, rest)) => r matches Some(v) && address_views(v@) == a && final(stream).rest() == rest,
            None => r is None && final(stream).rest() == old(stream).rest(),
        },
{
    let mut cur = *stream;
    let ghost s = cur.rest();
    let mut out: Vec<InternetAddress> = Vec::new();
    let mut i: usize = 0;
    assert(address_views(out@) =~= Seq::<InternetAddressView>::empty());
    while i < n
        invariant
            i <= n,
            s == old(stream).rest(),
            *stream == *old(stream),
            parse_addresses(s, i as nat) == Some((address_views(out@), cur.rest())),
        decreases n - i,
    {
        match InternetAddress::get_address(&mut cur) {
            Some(a) => {
                out.push(a);
                i = i + 1;
                assert(address_views(out@) =~= parse_addresses(s, i as nat).unwrap().0);
            },
            None => {
                proof {
                    lemma_parse_addresses_fails(s, (i + 1) as nat, n as nat);
                }
                return None;
            },
        }
    }
    *stream = cur;
    Some(out)
}

/// Appends the addresses one after the other.
pub fn put_addresses(stream: &mut Vec<u8>, a: &Vec<InternetAddress>)
    requires
        all_valid(address_views(a@)),
    ensures
        final(stream)@ == old(stream)@ + addresses_bytes(address_views(a@)),
{
    let ghost start = stream@;
    let ghost v = address_views(a@);
    let mut i: usize = 0;
    while i < a.len()
        invariant
            i <= a@.len(),
            v == address_views(a@),
            all_valid(v),
            stream@ == start + addresses_bytes(v.take(i as int)),
        decreases a@.len() - i,
    {
        assert(address_valid(v[i as int]));
        a[i].put_address(stream);
        i = i + 1;
        assert(v.take(i as int).drop_last() =~= v.take(i - 1));
        assert(stream@ =~= start + addresses_bytes(v.take(i as int)));
    }
    assert(v.take(i as int) =~= v);
}

} // verus!
