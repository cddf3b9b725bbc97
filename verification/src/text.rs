//! Conversions between strings and their characters.
use vstd::prelude::*;
use crate::split::sub_chars;
use vstd::utf8::{decode_utf8, valid_utf8};

verus! {

/// The characters of `s`, in order.
pub fn chars_of(s: &str) -> (r: Vec<char>)
    ensures
        r@ == s@,
{
    let mut v: Vec<char> = Vec::new();
    for c in iter: s.chars()
        invariant
            v@ == iter.seq().take(iter.index() as int),
    {
        v.push(c);
    }
    v
}

/// The string made of the characters of `v`.
///
/// Trusted: collects the characters with std's `FromIterator<&char>` for `String`, whose
/// documentation says that the string holds the characters in order.
#[verifier::external_body]
pub fn string_from_chars(v: &Vec<char>) -> (r: String)
    ensures
        r@ == v@,
{
    v.iter().collect()
}


/// Appends the characters of `s` to `out`.
pub fn push_str(out: &mut Vec<char>, s: &str)
    ensures
        final(out)@ == old(out)@ + s@,
{
    let mut c = chars_of(s);
    out.append(&mut c);
}

/// Whether two character vectors are equal.
pub fn same_chars(a: &Vec<char>, b: &Vec<char>) -> (r: bool)
    ensures
        r == (a@ == b@),
{
    if a.len() != b.len() {
        return false;
    }
    let mut i: usize = 0;
    while i < a.len()
        invariant
            i <= a@.len(),
            a@.len() == b@.len(),
            forall|j: int| 0 <= j < i ==> a@[j] == b@[j],
        decreases a@.len() - i,
    {
        if a[i] != b[i] {
            return false;
        }
        i = i + 1;
    }
    assert(a@ =~= b@);
    true
}

/// Whether two strings are equal.
pub fn same_str(a: &str, b: &str) -> (r: bool)
    ensures
        r == (a@ == b@),
{
    same_chars(&chars_of(a), &chars_of(b))
}

/// Whether `c` has the Unicode White_Space property, which is what `char::is_whitespace`
/// tests.
pub open spec fn white_space(c: char) -> bool {
    let n = c as u32;
    ||| 0x9 <= n <= 0xd
    ||| n == 0x20
    ||| n == 0x85
    ||| n == 0xa0
    ||| n == 0x1680
    ||| 0x2000 <= n <= 0x200a
    ||| n == 0x2028
    ||| n == 0x2029
    ||| n == 0x202f
    ||| n == 0x205f
    ||| n == 0x3000
}

/// `s` without its leading white space.
pub open spec fn trim_start(s: Seq<char>) -> Seq<char>
    decreases s.len(),
{
    if s.len() > 0 && white_space(s[0]) {
        trim_start(s.drop_first())
    } else {
        s
    }
}

/// `s` without its trailing white space.
pub open spec fn trim_end(s: Seq<char>) -> Seq<char>
    decreases s.len(),
{
    if s.len() > 0 && white_space(s.last()) {
        trim_end(s.drop_last())
    } else {
        s
    }
}

/// `s` without its leading and trailing white space, as `str::trim` gives it.
pub open spec fn trim(s: Seq<char>) -> Seq<char> {
    trim_end(trim_start(s))
}

/// Whether `c` has the Unicode White_Space property.
pub fn is_white_space(c: char) -> (r: bool)
    ensures
        r == white_space(c),
{
    let n = c as u32;
    (0x9 <= n && n <= 0xd) || n == 0x20 || n == 0x85 || n == 0xa0 || n == 0x1680 || (0x2000 <= n
        && n <= 0x200a) || n == 0x2028 || n == 0x2029 || n == 0x202f || n == 0x205f || n == 0x3000
}

/// The characters of `s` without leading and trailing white space.
pub fn trim_chars(s: &Vec<char>) -> (r: Vec<char>)
    ensures
        r@ == trim(s@),
{
    let len = s.len();
    let mut i: usize = 0;
    assert(s@.skip(0) =~= s@);
    while i < len && is_white_space(s[i])
        invariant
            i <= len,
            len == s@.len(),
            trim_start(s@) == trim_start(s@.skip(i as int)),
        decreases len - i,
    {
        assert(s@.skip(i as int).drop_first() =~= s@.skip(i + 1));
        i = i + 1;
    }
    assert(trim_start(s@.skip(i as int)) == s@.skip(i as int));
    let mut j: usize = len;
    while j > i && is_white_space(s[j - 1])
        invariant
            i <= j <= len,
            len == s@.len(),
            trim_end(s@.skip(i as int)) == trim_end(s@.subrange(i as int, j as int)),
        decreases j,
    {
        assert(s@.subrange(i as int, j as int).drop_last() =~= s@.subrange(i as int, j - 1));
        j = j - 1;
    }
    assert(s@.skip(i as int) =~= s@.subrange(i as int, len as int));
    let r = sub_chars(s, i, j);
    r
}

/// The text of `s` without leading and trailing white space.
pub fn trim_text(s: &str) -> (r: String)
    ensures
        r@ == trim(s@),
{
    string_from_chars(&trim_chars(&chars_of(s)))
}

/// The text of `bytes` as UTF-8, with each invalid sequence replaced by U+FFFD.
pub uninterp spec fn utf8_lossy(bytes: Seq<u8>) -> Seq<char>;

/// The text of `bytes` read as UTF-8: decoded where they are valid UTF-8, else with each
/// invalid sequence replaced.
pub open spec fn lossy_text(bytes: Seq<u8>) -> Seq<char> {
    if valid_utf8(bytes) {
        decode_utf8(bytes)
    } else {
        utf8_lossy(bytes)
    }
}

/// The text of `bytes`, with each invalid UTF-8 sequence replaced.
///
/// Trusted: calls `String::from_utf8_lossy`. Its contract claims that the result depends on
/// the bytes alone, that valid UTF-8 is decoded as it is, and that only empty input gives an
/// empty string (each invalid sequence gives a replacement character).
#[verifier::external_body]
pub(crate) fn text_from_bytes_lossy(bytes: &[u8]) -> (r: String)
    ensures
        r@ == utf8_lossy(bytes@),
        valid_utf8(bytes@) ==> r@ == decode_utf8(bytes@),
        r@.len() == 0 <==> bytes@.len() == 0,
{
    String::from_utf8_lossy(bytes).to_string()
}


/// `s` without its leading zero characters.
pub open spec fn trim_nul_start(s: Seq<char>) -> Seq<char>
    decreases s.len(),
{
    if s.len() > 0 && s[0] == '\0' {
        trim_nul_start(s.drop_first())
    } else {
        s
    }
}

/// `s` without its trailing zero characters.
pub open spec fn trim_nul_end(s: Seq<char>) -> Seq<char>
    decreases s.len(),
{
    if s.len() > 0 && s.last() == '\0' {
        trim_nul_end(s.drop_last())
    } else {
        s
    }
}

/// The characters of `v` without leading and trailing zero characters.
pub(crate) fn trim_nul_chars(v: &Vec<char>) -> (r: Vec<char>)
    ensures
        r@ == trim_nul_end(trim_nul_start(v@)),
{
    let len = v.len();
    let mut i: usize = 0;
    assert(v@.skip(0) =~= v@);
    while i < len && v[i] == '\0'
        invariant
            i <= len,
            len == v@.len(),
            trim_nul_start(v@) == trim_nul_start(v@.skip(i as int)),
        decreases len - i,
    {
        assert(v@.skip(i as int).drop_first() =~= v@.skip(i + 1));
        i = i + 1;
    }
    assert(trim_nul_start(v@.skip(i as int)) == v@.skip(i as int));
    let mut j: usize = len;
    while j > i && v[j - 1] == '\0'
        invariant
            i <= j <= len,
            len == v@.len(),
            trim_nul_end(v@.skip(i as int)) == trim_nul_end(v@.subrange(i as int, j as int)),
        decreases j,
    {
        assert(v@.subrange(i as int, j as int).drop_last() =~= v@.subrange(i as int, j - 1));
        j = j - 1;
    }
    assert(v@.skip(i as int) =~= v@.subrange(i as int, len as int));
    crate::split::sub_chars(v, i, j)
}

/// The text that `bytes` encode, where they are valid UTF-8.
///
/// Trusted: calls `String::from_utf8`, whose documentation says that it fails exactly where the
/// bytes are not valid UTF-8, and else gives the text they encode.
#[verifier::external_body]
pub(crate) fn text_from_utf8(bytes: Vec<u8>) -> (r: Option<String>)
    ensures
        r is Some <==> valid_utf8(bytes@),
        r matches Some(s) ==> s@ == decode_utf8(bytes@),
{
    String::from_utf8(bytes).ok()
}

} // verus!
