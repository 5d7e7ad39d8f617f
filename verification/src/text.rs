//! Character-level helpers shared by the readers and the resolvers.

use vstd::prelude::*;
use vstd::string::*;
use vstd::utf8::*;

verus! {

/// `String::push` appends one character to the end of the string.
pub assume_specification[ String::push ](s: &mut String, c: char)
    ensures
        final(s)@ == old(s)@.push(c),
;

/// The characters of `s`, in order.
pub fn str_to_chars(s: &str) -> (v: Vec<char>)
    ensures
        v@ == s@,
{
    let mut v: Vec<char> = Vec::new();
    for c in it: s.chars()
        invariant
            v@ == it.seq().take(it.index() as int),
    {
        v.push(c);
    }
    v
}

/// The string made of the characters `v[from..to]`.
pub fn chars_to_string(v: &Vec<char>, from: usize, to: usize) -> (s: String)
    requires
        from <= to <= v.len(),
    ensures
        s@ == v@.subrange(from as int, to as int),
{
    let mut s = String::new();
    let mut i: usize = from;
    while i < to
        invariant
            from <= i <= to <= v.len(),
            s@ == v@.subrange(from as int, i as int),
        decreases to - i,
    {
        s.push(v[i]);
        i += 1;
    }
    s
}

/// Whether two strings hold the same characters.
pub fn str_eq(a: &str, b: &str) -> (r: bool)
    ensures
        r == (a@ == b@),
{
    let x = a.as_bytes();
    let y = b.as_bytes();
    if x.len() != y.len() {
        return false;
    }
    let mut i: usize = 0;
    while i < x.len()
        invariant
            i <= x.len(),
            x.len() == y.len(),
            x@ == encode_utf8(a@),
            y@ == encode_utf8(b@),
            forall|j: int| 0 <= j < i ==> x@[j] == y@[j],
        decreases x.len() - i,
    {
        if x[i] != y[i] {
            return false;
        }
        i += 1;
    }
    proof {
        assert(x@ =~= y@);
        encode_utf8_decode_utf8(a@);
        encode_utf8_decode_utf8(b@);
    }
    true
}

/// The number of bytes that the UTF-8 encoding of `c` takes.
pub open spec fn spec_utf8_width(c: char) -> int {
    if (c as u32) < 0x80 {
        1
    } else if (c as u32) < 0x800 {
        2
    } else if (c as u32) < 0x10000 {
        3
    } else {
        4
    }
}

/// The number of bytes that the UTF-8 encoding of `c` takes.
pub fn utf8_width(c: char) -> (n: usize)
    ensures
        n == spec_utf8_width(c),
{
    let u: u32 = c as u32;
    if u < 0x80 {
        1
    } else if u < 0x800 {
        2
    } else if u < 0x10000 {
        3
    } else {
        4
    }
}

/// The characters that Unicode gives the property `White_Space`.
pub open spec fn spec_is_whitespace(c: char) -> bool {
    let u = c as u32;
    ||| 0x09 <= u <= 0x0D
    ||| u == 0x20
    ||| u == 0x85
    ||| u == 0xA0
    ||| u == 0x1680
    ||| 0x2000 <= u <= 0x200A
    ||| u == 0x2028
    ||| u == 0x2029
    ||| u == 0x202F
    ||| u == 0x205F
    ||| u == 0x3000
}

/// Whether `c` is white space.
pub fn is_whitespace(c: char) -> (r: bool)
    ensures
        r == spec_is_whitespace(c),
{
    let u: u32 = c as u32;
    (0x09 <= u && u <= 0x0D) || u == 0x20 || u == 0x85 || u == 0xA0 || u == 0x1680 || (0x2000 <= u
        && u <= 0x200A) || u == 0x2028 || u == 0x2029 || u == 0x202F || u == 0x205F || u
        == 0x3000
}

/// The index of the first character at or after `from` that is not white
/// space, or `to` if there is none before `to`.
pub open spec fn spec_skip_whitespace(s: Seq<char>, from: int, to: int) -> int
    decreases to - from,
{
    if 0 <= from < to <= s.len() && spec_is_whitespace(s[from]) {
        spec_skip_whitespace(s, from + 1, to)
    } else {
        from
    }
}

/// The end of `s[from..to]` once the white space at its end is cut.
pub open spec fn spec_cut_whitespace(s: Seq<char>, from: int, to: int) -> int
    decreases to - from,
{
    if 0 <= from < to <= s.len() && spec_is_whitespace(s[to - 1]) {
        spec_cut_whitespace(s, from, to - 1)
    } else {
        to
    }
}

/// The index of the first character at or after `from` that is not `c`.
pub open spec fn spec_skip_char(s: Seq<char>, from: int, to: int, c: char) -> int
    decreases to - from,
{
    if 0 <= from < to <= s.len() && s[from] == c {
        spec_skip_char(s, from + 1, to, c)
    } else {
        from
    }
}

/// The end of `s[from..to]` once every `c` at its end is cut.
pub open spec fn spec_cut_char(s: Seq<char>, from: int, to: int, c: char) -> int
    decreases to - from,
{
    if 0 <= from < to <= s.len() && s[to - 1] == c {
        spec_cut_char(s, from, to - 1, c)
    } else {
        to
    }
}

pub proof fn lemma_skip_whitespace_bounds(s: Seq<char>, from: int, to: int)
    requires
        0 <= from <= to <= s.len(),
    ensures
        from <= spec_skip_whitespace(s, from, to) <= to,
    decreases to - from,
{
    if from < to && spec_is_whitespace(s[from]) {
        lemma_skip_whitespace_bounds(s, from + 1, to);
    }
}

/// `s` without the white space at its two ends.
pub open spec fn spec_trim(s: Seq<char>) -> Seq<char> {
    let from = spec_skip_whitespace(s, 0, s.len() as int);
    s.subrange(from, spec_cut_whitespace(s, from, s.len() as int))
}

/// `s` without the run of `c` at each of its two ends.
pub open spec fn spec_trim_matches(s: Seq<char>, c: char) -> Seq<char> {
    let from = spec_skip_char(s, 0, s.len() as int, c);
    s.subrange(from, spec_cut_char(s, from, s.len() as int, c))
}

/// The value of a scalar as it stands in the source: white space cut at both
/// ends, then double quotes, then single quotes.
pub open spec fn spec_string_value(s: Seq<char>) -> Seq<char> {
    spec_trim_matches(spec_trim_matches(spec_trim(s), '"'), '\'')
}

/// The index of the first character of `v[from..to]` that is not white space.
pub fn skip_whitespace(v: &Vec<char>, from: usize, to: usize) -> (r: usize)
    requires
        from <= to <= v.len(),
    ensures
        r == spec_skip_whitespace(v@, from as int, to as int),
        from <= r <= to,
{
    let mut i: usize = from;
    while i < to && is_whitespace(v[i])
        invariant
            from <= i <= to <= v.len(),
            spec_skip_whitespace(v@, from as int, to as int) == spec_skip_whitespace(
                v@,
                i as int,
                to as int,
            ),
        decreases to - i,
    {
        i += 1;
    }
    i
}

/// The end of `v[from..to]` once the white space at its end is cut.
pub fn cut_whitespace(v: &Vec<char>, from: usize, to: usize) -> (r: usize)
    requires
        from <= to <= v.len(),
    ensures
        r == spec_cut_whitespace(v@, from as int, to as int),
        from <= r <= to,
{
    let mut i: usize = to;
    while from < i && is_whitespace(v[i - 1])
        invariant
            from <= i <= to <= v.len(),
            spec_cut_whitespace(v@, from as int, to as int) == spec_cut_whitespace(
                v@,
                from as int,
                i as int,
            ),
        decreases i - from,
    {
        i -= 1;
    }
    i
}

/// The index of the first character of `v[from..to]` that is not `c`.
pub fn skip_char(v: &Vec<char>, from: usize, to: usize, c: char) -> (r: usize)
    requires
        from <= to <= v.len(),
    ensures
        r == spec_skip_char(v@, from as int, to as int, c),
        from <= r <= to,
{
    let mut i: usize = from;
    while i < to && v[i] == c
        invariant
            from <= i <= to <= v.len(),
            spec_skip_char(v@, from as int, to as int, c) == spec_skip_char(
                v@,
                i as int,
                to as int,
                c,
            ),
        decreases to - i,
    {
        i += 1;
    }
    i
}

/// The end of `v[from..to]` once every `c` at its end is cut.
pub fn cut_char(v: &Vec<char>, from: usize, to: usize, c: char) -> (r: usize)
    requires
        from <= to <= v.len(),
    ensures
        r == spec_cut_char(v@, from as int, to as int, c),
        from <= r <= to,
{
    let mut i: usize = to;
    while from < i && v[i - 1] == c
        invariant
            from <= i <= to <= v.len(),
            spec_cut_char(v@, from as int, to as int, c) == spec_cut_char(
                v@,
                from as int,
                i as int,
                c,
            ),
        decreases i - from,
    {
        i -= 1;
    }
    i
}

/// `s` without the white space at its two ends.
pub fn trim(s: &str) -> (r: String)
    ensures
        r@ == spec_trim(s@),
{
    let v = str_to_chars(s);
    let from = skip_whitespace(&v, 0, v.len());
    let to = cut_whitespace(&v, from, v.len());
    chars_to_string(&v, from, to)
}

/// `s` without the run of `c` at each of its two ends.
pub fn trim_matches(s: &str, c: char) -> (r: String)
    ensures
        r@ == spec_trim_matches(s@, c),
{
    let v = str_to_chars(s);
    let from = skip_char(&v, 0, v.len(), c);
    let to = cut_char(&v, from, v.len(), c);
    chars_to_string(&v, from, to)
}

/// The value of a scalar as it stands in the source: white space cut at both
/// ends, then double quotes, then single quotes.
pub fn string_value(s: &str) -> (r: String)
    ensures
        r@ == spec_string_value(s@),
{
    let a = trim(s);
    let b = trim_matches(a.as_str(), '"');
    trim_matches(b.as_str(), '\'')
}

/// Whether `s` begins with `prefix`.
pub open spec fn spec_starts_with(s: Seq<char>, prefix: Seq<char>) -> bool {
    prefix.len() <= s.len() && s.subrange(0, prefix.len() as int) == prefix
}

/// Whether `s` ends with `suffix`.
pub open spec fn spec_ends_with(s: Seq<char>, suffix: Seq<char>) -> bool {
    suffix.len() <= s.len() && s.subrange(s.len() - suffix.len(), s.len() as int) == suffix
}

/// Whether `v[at..]` begins with `w`.
pub fn chars_match_at(v: &Vec<char>, at: usize, w: &Vec<char>) -> (r: bool)
    requires
        at <= v.len(),
    ensures
        r == (at + w.len() <= v.len() && v@.subrange(at as int, at + w.len()) == w@),
{
    if w.len() > v.len() - at {
        return false;
    }
    let mut i: usize = 0;
    while i < w.len()
        invariant
            i <= w.len(),
            at + w.len() <= v.len(),
            forall|j: int| 0 <= j < i ==> v@[at + j] == w@[j],
        decreases w.len() - i,
    {
        if v[at + i] != w[i] {
            assert(v@.subrange(at as int, at + w.len())[i as int] != w@[i as int]);
            return false;
        }
        i += 1;
    }
    assert(v@.subrange(at as int, at + w.len()) =~= w@);
    true
}

/// Whether `s` begins with `prefix`.
pub fn starts_with(s: &str, prefix: &str) -> (r: bool)
    ensures
        r == spec_starts_with(s@, prefix@),
{
    let v = str_to_chars(s);
    let w = str_to_chars(prefix);
    chars_match_at(&v, 0, &w)
}

/// Whether `s` ends with `suffix`.
pub fn ends_with(s: &str, suffix: &str) -> (r: bool)
    ensures
        r == spec_ends_with(s@, suffix@),
{
    let v = str_to_chars(s);
    let w = str_to_chars(suffix);
    if w.len() > v.len() {
        return false;
    }
    chars_match_at(&v, v.len() - w.len(), &w)
}

/// The index of the first `c` in `s[from..]`, or the length of `s`.
pub open spec fn spec_find_char(s: Seq<char>, from: int, c: char) -> int
    decreases s.len() - from,
{
    if 0 <= from < s.len() && s[from] != c {
        spec_find_char(s, from + 1, c)
    } else {
        from
    }
}

/// The index of the first `c` in `v[from..]`, or the length of `v`.
pub fn find_char(v: &Vec<char>, from: usize, c: char) -> (r: usize)
    requires
        from <= v.len(),
    ensures
        r == spec_find_char(v@, from as int, c),
        from <= r <= v.len(),
{
    let mut i: usize = from;
    while i < v.len() && v[i] != c
        invariant
            from <= i <= v.len(),
            spec_find_char(v@, from as int, c) == spec_find_char(v@, i as int, c),
        decreases v.len() - i,
    {
        i += 1;
    }
    i
}

/// Appends the characters `v[from..to]` to `out`.
pub fn push_chars(out: &mut String, v: &Vec<char>, from: usize, to: usize)
    requires
        from <= to <= v.len(),
    ensures
        final(out)@ == old(out)@ + v@.subrange(from as int, to as int),
{
    let mut i: usize = from;
    while i < to
        invariant
            from <= i <= to <= v.len(),
            out@ == old(out)@ + v@.subrange(from as int, i as int),
        decreases to - i,
    {
        out.push(v[i]);
        i += 1;
        assert(v@.subrange(from as int, i as int) =~= v@.subrange(from as int, i - 1).push(
            v@[i - 1],
        ));
    }
}

/// The code point of a character, with the letters `A` to `Z` in lower case.
pub open spec fn spec_ascii_lower(c: char) -> u32 {
    if 'A' as u32 <= c as u32 <= 'Z' as u32 {
        (c as u32 + 32) as u32
    } else {
        c as u32
    }
}

/// Whether two strings are equal but for the case of the letters `A` to `Z`.
pub open spec fn spec_eq_ignore_case(a: Seq<char>, b: Seq<char>) -> bool {
    &&& a.len() == b.len()
    &&& forall|i: int| 0 <= i < a.len() ==> spec_ascii_lower(a[i]) == spec_ascii_lower(b[i])
}

/// The code point of a character, with the letters `A` to `Z` in lower case.
fn ascii_lower(c: char) -> (r: u32)
    ensures
        r == spec_ascii_lower(c),
{
    let u: u32 = c as u32;
    if 65 <= u && u <= 90 {
        u + 32
    } else {
        u
    }
}

/// Whether two strings are equal but for the case of the letters `A` to `Z`.
#[verifier::loop_isolation(false)]
pub fn eq_ignore_case(a: &str, b: &str) -> (r: bool)
    ensures
        r == spec_eq_ignore_case(a@, b@),
{
    let x = str_to_chars(a);
    let y = str_to_chars(b);
    if x.len() != y.len() {
        return false;
    }
    let mut i: usize = 0;
    while i < x.len()
        invariant
            i <= x.len(),
            x.len() == y.len(),
            forall|k: int| 0 <= k < i ==> spec_ascii_lower(x@[k]) == spec_ascii_lower(y@[k]),
        decreases x.len() - i,
    {
        if ascii_lower(x[i]) != ascii_lower(y[i]) {
            return false;
        }
        i += 1;
    }
    true
}

} // verus!
