//! Character-level helpers for the file and pack names the downloader builds.

use vstd::prelude::*;
use vstd::string::{StrSliceExecFns, StringExecFns};

verus! {

/// The characters with the Unicode `White_Space` property, which is what
/// `char::is_whitespace` tests.
pub open spec fn is_whitespace(c: char) -> bool {
    ('\u{9}' <= c && c <= '\u{d}') || c == ' ' || c == '\u{85}' || c == '\u{a0}' || c == '\u{1680}'
        || ('\u{2000}' <= c && c <= '\u{200a}') || c == '\u{2028}' || c == '\u{2029}' || c
        == '\u{202f}' || c == '\u{205f}' || c == '\u{3000}'
}

/// Whether `c` has the Unicode `White_Space` property, as `char::is_whitespace` tells.
fn char_is_whitespace(c: char) -> (r: bool)
    ensures
        r == is_whitespace(c),
{
    ('\u{9}' <= c && c <= '\u{d}') || c == ' ' || c == '\u{85}' || c == '\u{a0}' || c == '\u{1680}'
        || ('\u{2000}' <= c && c <= '\u{200a}') || c == '\u{2028}' || c == '\u{2029}' || c == '\u{202f}'
        || c == '\u{205f}' || c == '\u{3000}'
}

/// `String::push`: appends one character.
#[verifier::external_body]
pub(crate) fn push_char(s: &mut String, c: char)
    ensures
        final(s)@ == old(s)@.push(c),
{
    s.push(c);
}

/// A string is blank when trimming its whitespace leaves nothing.
pub open spec fn is_blank(s: Seq<char>) -> bool {
    forall|i: int| 0 <= i < s.len() ==> is_whitespace(#[trigger] s[i])
}

/// Whether `s` holds nothing but whitespace, as `s.trim().is_empty()` tells.
pub fn blank(s: &str) -> (r: bool)
    ensures
        r == is_blank(s@),
{
    let n = s.unicode_len();
    let mut i: usize = 0;
    while i < n
        invariant
            i <= n,
            n == s@.len(),
            forall|j: int| 0 <= j < i ==> is_whitespace(#[trigger] s@[j]),
        decreases n - i,
    {
        if !char_is_whitespace(s.get_char(i)) {
            return false;
        }
        i = i + 1;
    }
    true
}

/// The characters of `s` before its first underscore, all of them when it has none.
pub open spec fn before_underscore(s: Seq<char>) -> Seq<char>
    decreases s.len(),
{
    if s.len() == 0 || s[0] == '_' {
        Seq::empty()
    } else {
        seq![s[0]] + before_underscore(s.drop_first())
    }
}

proof fn lemma_before_underscore(s: Seq<char>, i: int)
    requires
        0 <= i <= s.len(),
        forall|j: int| 0 <= j < i ==> s[j] != '_',
        i == s.len() || s[i] == '_',
    ensures
        before_underscore(s) == s.take(i),
    decreases s.len(),
{
    if s.len() == 0 || s[0] == '_' {
        assert(s.take(i) =~= Seq::<char>::empty());
    } else {
        lemma_before_underscore(s.drop_first(), i - 1);
        assert(s.take(i) =~= seq![s[0]] + s.drop_first().take(i - 1));
    }
}

/// The first `_`-separated part of `s`, as `s.split('_').next()` gives it.
pub fn first_segment(s: &str) -> (r: String)
    ensures
        r@ == before_underscore(s@),
{
    let n = s.unicode_len();
    let mut i: usize = 0;
    while i < n && s.get_char(i) != '_'
        invariant
            i <= n,
            n == s@.len(),
            forall|j: int| 0 <= j < i ==> s@[j] != '_',
        decreases n - i,
    {
        i = i + 1;
    }
    proof {
        lemma_before_underscore(s@, i as int);
    }
    String::from_str(s.substring_char(0, i))
}

/// Letters and digits of ASCII.
pub open spec fn is_ascii_alphanumeric(c: char) -> bool {
    ('0' <= c && c <= '9') || ('a' <= c && c <= 'z') || ('A' <= c && c <= 'Z')
}

/// `s` with every character that is neither an ASCII letter or digit nor `-`
/// replaced by `_`.
pub open spec fn sanitize(s: Seq<char>) -> Seq<char> {
    s.map_values(|c: char| if is_ascii_alphanumeric(c) || c == '-' { c } else { '_' })
}

/// `s` with every `.` replaced by `-`.
pub open spec fn dots_to_dashes(s: Seq<char>) -> Seq<char> {
    s.map_values(|c: char| if c == '.' { '-' } else { c })
}

/// `s` without the `/` characters that end it.
pub open spec fn trim_trailing_slashes(s: Seq<char>) -> Seq<char>
    decreases s.len(),
{
    if s.len() > 0 && s.last() == '/' {
        trim_trailing_slashes(s.drop_last())
    } else {
        s
    }
}

/// Appends the characters of `s`, each mapped by `sanitize` (when `safe`) or
/// by `dots_to_dashes` (otherwise).
fn push_mapped(out: &mut String, s: &str, safe: bool)
    ensures
        final(out)@ == old(out)@ + if safe { sanitize(s@) } else { dots_to_dashes(s@) },
{
    let ghost start = out@;
    let ghost mapped = if safe { sanitize(s@) } else { dots_to_dashes(s@) };
    let n = s.unicode_len();
    let mut i: usize = 0;
    while i < n
        invariant
            i <= n,
            n == s@.len(),
            mapped == if safe { sanitize(s@) } else { dots_to_dashes(s@) },
            mapped.len() == n,
            out@ == start + mapped.take(i as int),
        decreases n - i,
    {
        let c = s.get_char(i);
        let d = if safe {
            if ('0' <= c && c <= '9') || ('a' <= c && c <= 'z') || ('A' <= c && c <= 'Z') || c == '-' {
                c
            } else {
                '_'
            }
        } else {
            if c == '.' {
                '-'
            } else {
                c
            }
        };
        push_char(out, d);
        i = i + 1;
        assert(mapped.take(i as int) =~= mapped.take(i - 1).push(d));
    }
    assert(mapped.take(n as int) =~= mapped);
}

proof fn lemma_trim_trailing_slashes(s: Seq<char>, i: int)
    requires
        0 <= i <= s.len(),
        forall|j: int| i <= j < s.len() ==> s[j] == '/',
        i == 0 || s[i - 1] != '/',
    ensures
        trim_trailing_slashes(s) == s.take(i),
    decreases s.len(),
{
    if s.len() > 0 && s.last() == '/' {
        lemma_trim_trailing_slashes(s.drop_last(), i);
        assert(s.drop_last().take(i) =~= s.take(i));
    } else {
        assert(s.take(i) =~= s);
    }
}

/// `s.trim_end_matches('/')`.
pub fn trim_end_slashes(s: &str) -> (r: &str)
    ensures
        r@ == trim_trailing_slashes(s@),
{
    let n = s.unicode_len();
    let mut i: usize = n;
    while i > 0 && s.get_char(i - 1) == '/'
        invariant
            i <= n,
            n == s@.len(),
            forall|j: int| i <= j < n ==> s@[j] == '/',
        decreases i,
    {
        i = i - 1;
    }
    proof {
        lemma_trim_trailing_slashes(s@, i as int);
    }
    s.substring_char(0, i)
}

/// Where a pack is stored under `dir`: `<dir>/<uuid>.zip`, or
/// `<dir>/<uuid>_<version>.zip` when there is a version, with the uuid made
/// safe for file names, the version's dots turned to dashes, and trailing
/// slashes of `dir` dropped.
pub open spec fn spec_pack_file(dir: Seq<char>, uuid: Seq<char>, version: Seq<char>) -> Seq<char> {
    trim_trailing_slashes(dir) + seq!['/'] + sanitize(uuid) + (if version.len() == 0 {
        Seq::<char>::empty()
    } else {
        seq!['_'] + dots_to_dashes(version)
    }) + seq!['.', 'z', 'i', 'p']
}

/// Builds the path `spec_pack_file` describes.
pub fn pack_file(dir: &str, uuid: &str, version: &str) -> (r: String)
    ensures
        r@ == spec_pack_file(dir@, uuid@, version@),
{
    let mut out = String::from_str(trim_end_slashes(dir));
    push_char(&mut out, '/');
    push_mapped(&mut out, uuid, true);
    if version.unicode_len() > 0 {
        push_char(&mut out, '_');
        push_mapped(&mut out, version, false);
    }
    push_char(&mut out, '.');
    push_char(&mut out, 'z');
    push_char(&mut out, 'i');
    push_char(&mut out, 'p');
    assert(out@ =~= spec_pack_file(dir@, uuid@, version@));
    out
}

} // verus!
