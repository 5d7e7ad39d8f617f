//! Building the syntax tree from the entries of a document.

use crate::ast::{
    ConditionalRequirementAst, ConditionalRequirementAstView, RecursionOptionsAst,
    RecursionOptionsAstView, RuleAst, RuleAstView, UniqueKeyAst, UniqueKeyAstView,
    AnnotationValueAst, AnnotationValueAstView, AnnotationsAst, AnnotationsAstView, ClassAst,
    ClassAstView, ContributorAst, ContributorAstView, Description, DescriptionView, DocumentType,
    EnumAst, EnumAstView, PermissibleValueAst, PermissibleValueAstView, RangeType, SchemaAst,
    SchemaAstView, SlotAst, SlotAstView, StructuredPatternAst, StructuredPatternAstView, SubsetAst,
    SubsetAstView, TypeAst, TypeAstView, ValueAst, ValueAstView,
};
use crate::document::{read_document, spec_read_document, Entry, EntryView, ScalarStyle};
use crate::error::{fault_message, spec_fault_message, LinkMLError, ParseErrorKind, ParseFault};
use crate::model::DeepValue;
use crate::ordered::{spec_lookup, OrderedMap};
use crate::source_reader::{
    is_absolute_uri, is_identifier, spec_is_absolute_uri, spec_is_identifier,
};
use crate::span::{
    lemma_covers_order, lemma_list_widen, lemma_merge_covers, lemma_pairs_widen, spec_list_within,
    spec_opt_within, spec_pairs_within, Span, Spanned,
};
use crate::text::{
    spec_string_value, spec_trim, str_eq, str_to_chars, string_value, trim,
};
use vstd::prelude::*;
use vstd::string::*;

verus! {

/// The index at which the block of entry `j` ends: the first entry after
/// `j`, from `k` on and before `end`, that is not nested more deeply than `j`.
pub open spec fn spec_block_end(entries: Seq<EntryView>, j: int, k: int, end: int) -> int
    decreases end - k,
{
    if 0 <= j < k < end <= entries.len() && entries[k].depth > entries[j].depth {
        spec_block_end(entries, j, k + 1, end)
    } else {
        k
    }
}

/// The index at which the block of entry `j` ends.
pub fn block_end(entries: &Vec<Entry>, j: usize, end: usize) -> (r: usize)
    requires
        j < end <= entries.len(),
    ensures
        r == spec_block_end(entries.deep_view(), j as int, j + 1, end as int),
        j < r <= end,
{
    let mut k: usize = j + 1;
    while k < end && entries[k].depth > entries[j].depth
        invariant
            j < k <= end <= entries.len(),
            spec_block_end(entries.deep_view(), j as int, j + 1, end as int) == spec_block_end(
                entries.deep_view(),
                j as int,
                k as int,
                end as int,
            ),
        decreases end - k,
    {
        k += 1;
    }
    k
}

/// The span of an entry with its key and its value.
pub open spec fn spec_entry_extent(e: EntryView) -> Span {
    let a = match e.key {
        Some(k) => e.span.spec_merge(k.span),
        None => e.span,
    };
    match e.value {
        Some(v) => a.spec_merge(v.span),
        None => a,
    }
}

/// The span of an entry with its key and its value.
pub fn entry_extent(e: &Entry) -> (s: Span)
    ensures
        s == spec_entry_extent(e.deep_view()),
{
    let a = match &e.key {
        Some(k) => e.span.merge(&k.span),
        None => e.span,
    };
    match &e.value {
        Some(v) => a.merge(&v.span),
        None => a,
    }
}

/// The scalar value of entry `j`, which must have one and nothing nested.
pub open spec fn spec_scalar(entries: Seq<EntryView>, j: int, next: int) -> Result<
    Spanned<Seq<char>>,
    ParseFault,
> {
    match entries[j].value {
        Some(v) => if next == j + 1 {
            Ok(v)
        } else {
            Err(ParseFault::at(ParseErrorKind::ExpectedValue, entries[j].span))
        },
        None => Err(ParseFault::at(ParseErrorKind::ExpectedValue, entries[j].span)),
    }
}

/// The scalar value of entry `j`.
pub fn scalar(entries: &Vec<Entry>, j: usize, next: usize) -> (r: Result<
    Spanned<String>,
    ParseFault,
>)
    requires
        j < next <= entries.len(),
    ensures
        match spec_scalar(entries.deep_view(), j as int, next as int) {
            Ok(v) => r matches Ok(x) && x.deep_view() == v && spec_entry_extent(
                entries.deep_view()[j as int],
            ).covers(v.span),
            Err(f) => r matches Err(g) && g == f,
        },
{
    let e = &entries[j];
    proof {
        let v = e.deep_view();
        match v.key {
            Some(k) => lemma_merge_covers(v.span, k.span),
            None => {},
        }
        match v.value {
            Some(x) => lemma_merge_covers(
                match v.key {
                    Some(k) => v.span.spec_merge(k.span),
                    None => v.span,
                },
                x.span,
            ),
            None => {},
        }
    }
    match &e.value {
        Some(v) => if next == j + 1 {
            Ok(v.deep_clone())
        } else {
            Err(ParseFault::new(ParseErrorKind::ExpectedValue, e.span))
        },
        None => Err(ParseFault::new(ParseErrorKind::ExpectedValue, e.span)),
    }
}

/// The string that a scalar stands for: what stood between quotes is taken
/// as it is; of any other scalar, white space and quotes at its ends are cut.
pub open spec fn spec_string_of(style: ScalarStyle, s: Seq<char>) -> Seq<char> {
    if style == ScalarStyle::Quoted {
        s
    } else {
        spec_string_value(s)
    }
}

/// The string that a scalar stands for.
pub fn string_of(style: ScalarStyle, s: &String) -> (r: String)
    ensures
        r@ == spec_string_of(style, s@),
{
    if style == ScalarStyle::Quoted {
        s.clone()
    } else {
        string_value(s.as_str())
    }
}

/// The scalar of entry `j` as a string.
pub open spec fn spec_unquoted(entries: Seq<EntryView>, j: int, next: int) -> Result<
    Spanned<Seq<char>>,
    ParseFault,
> {
    match spec_scalar(entries, j, next) {
        Ok(v) => Ok(Spanned { value: spec_string_of(entries[j].style, v.value), span: v.span }),
        Err(f) => Err(f),
    }
}

/// The scalar of entry `j` as a string.
pub fn unquoted(entries: &Vec<Entry>, j: usize, next: usize) -> (r: Result<
    Spanned<String>,
    ParseFault,
>)
    requires
        j < next <= entries.len(),
    ensures
        match spec_unquoted(entries.deep_view(), j as int, next as int) {
            Ok(v) => r matches Ok(x) && x.deep_view() == v && spec_entry_extent(
                entries.deep_view()[j as int],
            ).covers(v.span),
            Err(f) => r matches Err(g) && g == f,
        },
{
    match scalar(entries, j, next) {
        Ok(v) => Ok(Spanned { value: string_of(entries[j].style, &v.value), span: v.span }),
        Err(f) => Err(f),
    }
}

/// The scalar of entry `j` as a description: a block string stays a block,
/// anything else is a description on one line.
pub open spec fn spec_description(entries: Seq<EntryView>, j: int, next: int) -> Result<
    Spanned<DescriptionView>,
    ParseFault,
> {
    match spec_scalar(entries, j, next) {
        Ok(v) => Ok(
            Spanned {
                value: if entries[j].style == ScalarStyle::Block {
                    DescriptionView::Block(spec_trim(v.value))
                } else {
                    DescriptionView::Inline(spec_string_of(entries[j].style, v.value))
                },
                span: v.span,
            },
        ),
        Err(f) => Err(f),
    }
}

/// The scalar of entry `j` as a description.
pub fn description(entries: &Vec<Entry>, j: usize, next: usize) -> (r: Result<
    Spanned<Description>,
    ParseFault,
>)
    requires
        j < next <= entries.len(),
    ensures
        match spec_description(entries.deep_view(), j as int, next as int) {
            Ok(v) => r matches Ok(x) && x.deep_view() == v && spec_entry_extent(
                entries.deep_view()[j as int],
            ).covers(v.span),
            Err(f) => r matches Err(g) && g == f,
        },
{
    match scalar(entries, j, next) {
        Ok(v) => {
            let value = if entries[j].style == ScalarStyle::Block {
                Description::Block(trim(v.value.as_str()))
            } else {
                Description::Inline(string_of(entries[j].style, &v.value))
            };
            Ok(Spanned { value, span: v.span })
        },
        Err(f) => Err(f),
    }
}

/// The scalar of entry `j` as a truth value.
pub open spec fn spec_boolean(entries: Seq<EntryView>, j: int, next: int) -> Result<
    Spanned<bool>,
    ParseFault,
> {
    match spec_scalar(entries, j, next) {
        Ok(v) => if v.value == "true"@ {
            Ok(Spanned { value: true, span: v.span })
        } else if v.value == "false"@ {
            Ok(Spanned { value: false, span: v.span })
        } else {
            Err(ParseFault::at(ParseErrorKind::InvalidBoolean, v.span))
        },
        Err(f) => Err(f),
    }
}

/// The scalar of entry `j` as a truth value.
pub fn boolean(entries: &Vec<Entry>, j: usize, next: usize) -> (r: Result<
    Spanned<bool>,
    ParseFault,
>)
    requires
        j < next <= entries.len(),
    ensures
        match spec_boolean(entries.deep_view(), j as int, next as int) {
            Ok(v) => r matches Ok(x) && x.deep_view() == v && spec_entry_extent(
                entries.deep_view()[j as int],
            ).covers(v.span),
            Err(f) => r matches Err(g) && g == f,
        },
{
    match scalar(entries, j, next) {
        Ok(v) => if str_eq(v.value.as_str(), "true") {
            Ok(Spanned { value: true, span: v.span })
        } else if str_eq(v.value.as_str(), "false") {
            Ok(Spanned { value: false, span: v.span })
        } else {
            Err(ParseFault::new(ParseErrorKind::InvalidBoolean, v.span))
        },
        Err(f) => Err(f),
    }
}

/// The scalar of entry `j` as a range type.
pub open spec fn spec_range_type(entries: Seq<EntryView>, j: int, next: int) -> Result<
    Spanned<RangeType>,
    ParseFault,
> {
    match spec_scalar(entries, j, next) {
        Ok(v) => if v.value == "class"@ {
            Ok(Spanned { value: RangeType::Class, span: v.span })
        } else if v.value == "instance"@ {
            Ok(Spanned { value: RangeType::Instance, span: v.span })
        } else {
            Err(ParseFault::at(ParseErrorKind::InvalidRangeType, v.span))
        },
        Err(f) => Err(f),
    }
}

/// The scalar of entry `j` as a range type.
pub fn range_type(entries: &Vec<Entry>, j: usize, next: usize) -> (r: Result<
    Spanned<RangeType>,
    ParseFault,
>)
    requires
        j < next <= entries.len(),
    ensures
        match spec_range_type(entries.deep_view(), j as int, next as int) {
            Ok(v) => r matches Ok(x) && x.deep_view() == v && spec_entry_extent(
                entries.deep_view()[j as int],
            ).covers(v.span),
            Err(f) => r matches Err(g) && g == f,
        },
{
    match scalar(entries, j, next) {
        Ok(v) => if str_eq(v.value.as_str(), "class") {
            Ok(Spanned { value: RangeType::Class, span: v.span })
        } else if str_eq(v.value.as_str(), "instance") {
            Ok(Spanned { value: RangeType::Instance, span: v.span })
        } else {
            Err(ParseFault::new(ParseErrorKind::InvalidRangeType, v.span))
        },
        Err(f) => Err(f),
    }
}

/// The scalar of entry `j` as an absolute URI.
pub open spec fn spec_uri(entries: Seq<EntryView>, j: int, next: int) -> Result<
    Spanned<Seq<char>>,
    ParseFault,
> {
    match spec_scalar(entries, j, next) {
        Ok(v) => if spec_is_absolute_uri(v.value) {
            Ok(v)
        } else {
            Err(ParseFault::at(ParseErrorKind::InvalidUri, v.span))
        },
        Err(f) => Err(f),
    }
}

/// The scalar of entry `j` as an absolute URI.
pub fn uri(entries: &Vec<Entry>, j: usize, next: usize) -> (r: Result<Spanned<String>, ParseFault>)
    requires
        j < next <= entries.len(),
    ensures
        match spec_uri(entries.deep_view(), j as int, next as int) {
            Ok(v) => r matches Ok(x) && x.deep_view() == v && spec_entry_extent(
                entries.deep_view()[j as int],
            ).covers(v.span),
            Err(f) => r matches Err(g) && g == f,
        },
{
    match scalar(entries, j, next) {
        Ok(v) => if is_absolute_uri(v.value.as_str()) {
            Ok(v)
        } else {
            Err(ParseFault::new(ParseErrorKind::InvalidUri, v.span))
        },
        Err(f) => Err(f),
    }
}

/// The scalar of entry `j` as an identifier.
pub open spec fn spec_identifier(entries: Seq<EntryView>, j: int, next: int) -> Result<
    Spanned<Seq<char>>,
    ParseFault,
> {
    match spec_scalar(entries, j, next) {
        Ok(v) => if spec_is_identifier(v.value) {
            Ok(v)
        } else {
            Err(ParseFault::at(ParseErrorKind::InvalidIdentifier, v.span))
        },
        Err(f) => Err(f),
    }
}

/// The scalar of entry `j` as an identifier.
pub fn identifier(entries: &Vec<Entry>, j: usize, next: usize) -> (r: Result<
    Spanned<String>,
    ParseFault,
>)
    requires
        j < next <= entries.len(),
    ensures
        match spec_identifier(entries.deep_view(), j as int, next as int) {
            Ok(v) => r matches Ok(x) && x.deep_view() == v && spec_entry_extent(
                entries.deep_view()[j as int],
            ).covers(v.span),
            Err(f) => r matches Err(g) && g == f,
        },
{
    match scalar(entries, j, next) {
        Ok(v) => if is_identifier(v.value.as_str()) {
            Ok(v)
        } else {
            Err(ParseFault::new(ParseErrorKind::InvalidIdentifier, v.span))
        },
        Err(f) => Err(f),
    }
}

/// Whether `c` is a decimal digit.
pub open spec fn spec_is_digit(c: char) -> bool {
    '0' as u32 <= c as u32 <= '9' as u32
}

/// Whether `c` is a decimal digit.
pub fn is_digit(c: char) -> (r: bool)
    ensures
        r == spec_is_digit(c),
{
    let u: u32 = c as u32;
    48 <= u && u <= 57
}

/// The number that the digits `s[i..]` add to `acc`, if `s[i..]` holds only
/// digits and the number stays within one more than the greatest `i64`.
pub open spec fn spec_digits(s: Seq<char>, i: int, acc: int) -> Option<int>
    decreases s.len() - i,
{
    if !(0 <= i < s.len()) {
        Some(acc)
    } else if spec_is_digit(s[i]) {
        let next = acc * 10 + (s[i] as u32 - '0' as u32);
        if next > i64::MAX + 1 {
            None
        } else {
            spec_digits(s, i + 1, next)
        }
    } else {
        None
    }
}

/// The whole number that `s` is the decimal form of: digits with an optional
/// sign before them, if the number fits.
pub open spec fn spec_parse_i64(s: Seq<char>) -> Option<i64> {
    let signed = s.len() > 0 && (s[0] == '-' || s[0] == '+');
    let start = if signed {
        1int
    } else {
        0int
    };
    if start >= s.len() {
        None
    } else {
        match spec_digits(s, start, 0) {
            Some(m) => if s[0] == '-' {
                Some((-m) as i64)
            } else if m <= i64::MAX {
                Some(m as i64)
            } else {
                None
            },
            None => None,
        }
    }
}

/// The whole number that `s` is the decimal form of.
#[verifier::loop_isolation(false)]
pub fn parse_i64(s: &str) -> (r: Option<i64>)
    ensures
        r == spec_parse_i64(s@),
{
    let v = str_to_chars(s);
    let signed = v.len() > 0 && (v[0] == '-' || v[0] == '+');
    let start: usize = if signed {
        1
    } else {
        0
    };
    if start >= v.len() {
        return None;
    }
    let mut acc: u64 = 0;
    let mut i: usize = start;
    while i < v.len()
        invariant
            start <= i <= v.len(),
            acc <= 0x8000_0000_0000_0000u64,
            spec_digits(v@, start as int, 0) == spec_digits(v@, i as int, acc as int),
        decreases v.len() - i,
    {
        let c = v[i];
        if !is_digit(c) {
            return None;
        }
        let d: u64 = (c as u32 - 48) as u64;
        if acc > 922337203685477580 {
            return None;
        }
        let next: u64 = acc * 10 + d;
        if next > 0x8000_0000_0000_0000u64 {
            return None;
        }
        acc = next;
        i += 1;
    }
    if v[0] == '-' {
        if acc == 0x8000_0000_0000_0000u64 {
            Some(i64::MIN)
        } else {
            Some(-(acc as i64))
        }
    } else if acc <= 0x7fff_ffff_ffff_ffffu64 {
        Some(acc as i64)
    } else {
        None
    }
}

/// The index of the first character of `s[i..]` that is not a digit.
pub open spec fn spec_skip_digits(s: Seq<char>, i: int) -> int
    decreases s.len() - i,
{
    if 0 <= i < s.len() && spec_is_digit(s[i]) {
        spec_skip_digits(s, i + 1)
    } else {
        i
    }
}

/// Whether `s` is written as a number: an optional sign, digits with an
/// optional fraction after a point, and an optional exponent; at least one
/// digit before the exponent.
pub open spec fn spec_is_number(s: Seq<char>) -> bool {
    let a = if s.len() > 0 && (s[0] == '-' || s[0] == '+') {
        1int
    } else {
        0int
    };
    let b = spec_skip_digits(s, a);
    let c = if b < s.len() && s[b] == '.' {
        spec_skip_digits(s, b + 1)
    } else {
        b
    };
    let digits = (b - a) + if c > b {
        c - b - 1
    } else {
        0
    };
    let x = if c < s.len() && (s[c] == 'e' || s[c] == 'E') {
        if c + 1 < s.len() && (s[c + 1] == '-' || s[c + 1] == '+') {
            c + 2
        } else {
            c + 1
        }
    } else {
        c
    };
    let d = if x > c {
        spec_skip_digits(s, x)
    } else {
        c
    };
    digits > 0 && d == s.len() && (x > c ==> d > x)
}

/// The index of the first character of `v[i..]` that is not a digit.
fn skip_digits(v: &Vec<char>, from: usize) -> (r: usize)
    requires
        from <= v.len(),
    ensures
        r == spec_skip_digits(v@, from as int),
        from <= r <= v.len(),
{
    let mut i: usize = from;
    while i < v.len() && is_digit(v[i])
        invariant
            from <= i <= v.len(),
            spec_skip_digits(v@, from as int) == spec_skip_digits(v@, i as int),
        decreases v.len() - i,
    {
        i += 1;
    }
    i
}

/// Whether `s` is written as a number.
pub fn is_number(s: &str) -> (r: bool)
    ensures
        r == spec_is_number(s@),
{
    let v = str_to_chars(s);
    let n = v.len();
    let a: usize = if n > 0 && (v[0] == '-' || v[0] == '+') {
        1
    } else {
        0
    };
    let b = skip_digits(&v, a);
    let c = if b < n && v[b] == '.' {
        skip_digits(&v, b + 1)
    } else {
        b
    };
    let digits = (b - a) + if c > b {
        c - b - 1
    } else {
        0
    };
    let x = if c < n && (v[c] == 'e' || v[c] == 'E') {
        if c + 1 < n && (v[c + 1] == '-' || v[c + 1] == '+') {
            c + 2
        } else {
            c + 1
        }
    } else {
        c
    };
    let d = if x > c {
        skip_digits(&v, x)
    } else {
        c
    };
    digits > 0 && d == n && (x <= c || d > x)
}

/// The scalar of entry `j` as a whole number.
pub open spec fn spec_integer(entries: Seq<EntryView>, j: int, next: int) -> Result<
    Spanned<i64>,
    ParseFault,
> {
    match spec_scalar(entries, j, next) {
        Ok(v) => match spec_parse_i64(v.value) {
            Some(n) => Ok(Spanned { value: n, span: v.span }),
            None => Err(ParseFault::at(ParseErrorKind::InvalidInteger, v.span)),
        },
        Err(f) => Err(f),
    }
}

/// The scalar of entry `j` as a whole number.
pub fn integer(entries: &Vec<Entry>, j: usize, next: usize) -> (r: Result<
    Spanned<i64>,
    ParseFault,
>)
    requires
        j < next <= entries.len(),
    ensures
        match spec_integer(entries.deep_view(), j as int, next as int) {
            Ok(v) => r matches Ok(x) && x.deep_view() == v && spec_entry_extent(
                entries.deep_view()[j as int],
            ).covers(v.span),
            Err(f) => r matches Err(g) && g == f,
        },
{
    match scalar(entries, j, next) {
        Ok(v) => match parse_i64(v.value.as_str()) {
            Some(n) => Ok(Spanned { value: n, span: v.span }),
            None => Err(ParseFault::new(ParseErrorKind::InvalidInteger, v.span)),
        },
        Err(f) => Err(f),
    }
}

/// A scalar as a bound: the most specific of a whole number, a number and a
/// string. A quoted scalar or a block is a string.
pub open spec fn spec_bound(style: ScalarStyle, s: Seq<char>) -> ValueAstView {
    if style != ScalarStyle::Plain {
        ValueAstView::Text(s)
    } else {
        match spec_parse_i64(s) {
            Some(n) => ValueAstView::Integer(n),
            None => if spec_is_number(s) {
                ValueAstView::Number(s)
            } else {
                ValueAstView::Text(s)
            },
        }
    }
}

/// The scalar of entry `j` as a bound.
pub open spec fn spec_value(entries: Seq<EntryView>, j: int, next: int) -> Result<
    Spanned<ValueAstView>,
    ParseFault,
> {
    match spec_scalar(entries, j, next) {
        Ok(v) => Ok(Spanned { value: spec_bound(entries[j].style, v.value), span: v.span }),
        Err(f) => Err(f),
    }
}

/// The scalar of entry `j` as a bound.
pub fn value(entries: &Vec<Entry>, j: usize, next: usize) -> (r: Result<Spanned<ValueAst>, ParseFault>)
    requires
        j < next <= entries.len(),
    ensures
        match spec_value(entries.deep_view(), j as int, next as int) {
            Ok(v) => r matches Ok(x) && x.deep_view() == v && spec_entry_extent(
                entries.deep_view()[j as int],
            ).covers(v.span),
            Err(f) => r matches Err(g) && g == f,
        },
{
    match scalar(entries, j, next) {
        Ok(v) => {
            let span = v.span;
            let bound = if entries[j].style != ScalarStyle::Plain {
                ValueAst::Text(v.value)
            } else {
                match parse_i64(v.value.as_str()) {
                    Some(n) => ValueAst::Integer(n),
                    None => if is_number(v.value.as_str()) {
                        ValueAst::Number(v.value)
                    } else {
                        ValueAst::Text(v.value)
                    },
                }
            };
            Ok(Spanned { value: bound, span })
        },
        Err(f) => Err(f),
    }
}

/// The elements of a list, from entry `k` on: each is an element with a
/// scalar and without a key, at depth `depth`.
pub open spec fn spec_items(
    entries: Seq<EntryView>,
    k: int,
    next: int,
    depth: usize,
    acc: Seq<Spanned<Seq<char>>>,
    ext: Span,
) -> Result<(Seq<Spanned<Seq<char>>>, Span), ParseFault>
    decreases next - k,
{
    if !(0 <= k < next <= entries.len()) {
        Ok((acc, ext))
    } else {
        let e = entries[k];
        if e.depth != depth {
            Err(ParseFault::at(ParseErrorKind::BadIndentation, e.span))
        } else if !e.item || e.key is Some || e.value is None {
            Err(ParseFault::at(ParseErrorKind::ExpectedValue, e.span))
        } else {
            spec_items(
                entries,
                k + 1,
                next,
                depth,
                acc.push(e.value->0),
                ext.spec_merge(spec_entry_extent(e)),
            )
        }
    }
}

/// The list of strings under entry `j`: its elements, or its one scalar, or
/// nothing.
pub open spec fn spec_list(entries: Seq<EntryView>, j: int, next: int) -> Result<
    (Seq<Spanned<Seq<char>>>, Span),
    ParseFault,
> {
    let e = entries[j];
    if next == j + 1 {
        match e.value {
            Some(v) => Ok((seq![v], spec_entry_extent(e))),
            None => Ok((Seq::empty(), spec_entry_extent(e))),
        }
    } else if e.value is Some {
        Err(ParseFault::at(ParseErrorKind::ExpectedValue, e.span))
    } else {
        spec_items(entries, j + 1, next, entries[j + 1].depth, Seq::empty(), spec_entry_extent(e))
    }
}

/// The list of strings under entry `j`.
#[verifier::loop_isolation(false)]
pub fn list(entries: &Vec<Entry>, j: usize, next: usize) -> (r: Result<
    (Vec<Spanned<String>>, Span),
    ParseFault,
>)
    requires
        j < next <= entries.len(),
    ensures
        match spec_list(entries.deep_view(), j as int, next as int) {
            Ok((l, ext)) => r matches Ok((x, s)) && x.deep_view() == l && s == ext
                && spec_list_within(l, ext),
            Err(f) => r matches Err(g) && g == f,
        },
{
    let e = &entries[j];
    let ext0 = entry_extent(e);
    let mut out: Vec<Spanned<String>> = Vec::new();
    assert(out.deep_view() =~= Seq::empty());
    if next == j + 1 {
        match scalar(entries, j, next) {
            Ok(v) => {
                proof {
                    assert(seq![v.deep_view()] =~= Seq::empty().push(v.deep_view()));
                }
                out.push(v);
                assert(out.deep_view() =~= seq![entries.deep_view()[j as int].value->0]);
                return Ok((out, ext0));
            },
            Err(_) => {
                return Ok((out, ext0));
            },
        }
    }
    if e.value.is_some() {
        return Err(ParseFault::new(ParseErrorKind::ExpectedValue, e.span));
    }
    let depth = entries[j + 1].depth;
    let mut ext = ext0;
    let mut k: usize = j + 1;
    while k < next
        invariant
            j < k <= next <= entries.len(),
            spec_items(
                entries.deep_view(),
                j + 1,
                next as int,
                depth,
                Seq::empty(),
                ext0,
            ) == spec_items(
                entries.deep_view(),
                k as int,
                next as int,
                depth,
                out.deep_view(),
                ext,
            ),
            spec_list_within(out.deep_view(), ext),
        decreases next - k,
    {
        let c = &entries[k];
        if c.depth != depth {
            return Err(ParseFault::new(ParseErrorKind::BadIndentation, c.span));
        }
        if !c.item || c.key.is_some() || c.value.is_none() {
            return Err(ParseFault::new(ParseErrorKind::ExpectedValue, c.span));
        }
        match scalar(entries, k, k + 1) {
            Ok(v) => {
                let ce = entry_extent(c);
                let ghost before = out.deep_view();
                let ghost old_ext = ext;
                out.push(v);
                ext = ext.merge(&ce);
                proof {
                    assert(out.deep_view() =~= before.push(v.deep_view()));
                    lemma_merge_covers(old_ext, ce);
                    assert forall|i: int| 0 <= i < out.deep_view().len() implies ext.covers(
                        (#[trigger] out.deep_view()[i]).span,
                    ) by {
                        if i < before.len() {
                            assert(before[i] == out.deep_view()[i]);
                            lemma_covers_order(ext, old_ext, before[i].span);
                        } else {
                            lemma_covers_order(ext, ce, v.span);
                        }
                    }
                }
            },
            Err(f) => {
                return Err(f);
            },
        }
        k += 1;
    }
    Ok((out, ext))
}

/// The pairs of a mapping of strings, from entry `k` on: each entry has a key
/// and a scalar, at depth `depth`; no key occurs twice. With `unquote` each
/// value is the string that its scalar stands for.
pub open spec fn spec_pairs(
    entries: Seq<EntryView>,
    k: int,
    next: int,
    depth: usize,
    unquote: bool,
    acc: Seq<(Seq<char>, Spanned<Seq<char>>)>,
    ext: Span,
) -> Result<(Seq<(Seq<char>, Spanned<Seq<char>>)>, Span), ParseFault>
    decreases next - k,
{
    if !(0 <= k < next <= entries.len()) {
        Ok((acc, ext))
    } else {
        let e = entries[k];
        if e.depth != depth {
            Err(ParseFault::at(ParseErrorKind::BadIndentation, e.span))
        } else if e.key is None {
            Err(ParseFault::at(ParseErrorKind::ExpectedKey, e.span))
        } else if e.value is None {
            Err(ParseFault::at(ParseErrorKind::ExpectedValue, e.span))
        } else {
            match spec_lookup(acc, e.key->0.value) {
                Some(first) => Err(
                    ParseFault {
                        kind: ParseErrorKind::DuplicateKey,
                        span: e.key->0.span,
                        related: Some(first.span),
                    },
                ),
                None => spec_pairs(
                    entries,
                    k + 1,
                    next,
                    depth,
                    unquote,
                    acc.push(
                        (
                            e.key->0.value,
                            Spanned {
                                value: if unquote {
                                    spec_string_of(e.style, e.value->0.value)
                                } else {
                                    e.value->0.value
                                },
                                span: e.value->0.span,
                            },
                        ),
                    ),
                    ext.spec_merge(spec_entry_extent(e)),
                ),
            }
        }
    }
}

/// The mapping of strings under entry `j`.
pub open spec fn spec_string_map(entries: Seq<EntryView>, j: int, next: int, unquote: bool)
    -> Result<(Seq<(Seq<char>, Spanned<Seq<char>>)>, Span), ParseFault> {
    let e = entries[j];
    if e.value is Some {
        Err(ParseFault::at(ParseErrorKind::ExpectedMapping, e.span))
    } else if next == j + 1 {
        Ok((Seq::empty(), spec_entry_extent(e)))
    } else {
        spec_pairs(
            entries,
            j + 1,
            next,
            entries[j + 1].depth,
            unquote,
            Seq::empty(),
            spec_entry_extent(e),
        )
    }
}

/// The mapping of strings under entry `j`.
#[verifier::loop_isolation(false)]
pub fn string_map(entries: &Vec<Entry>, j: usize, next: usize, unquote: bool) -> (r: Result<
    (OrderedMap<Spanned<String>>, Span),
    ParseFault,
>)
    requires
        j < next <= entries.len(),
    ensures
        match spec_string_map(entries.deep_view(), j as int, next as int, unquote) {
            Ok((m, ext)) => r matches Ok((x, s)) && x.deep_view() == m && s == ext
                && spec_pairs_within(m, ext),
            Err(f) => r matches Err(g) && g == f,
        },
{
    let e = &entries[j];
    let ext0 = entry_extent(e);
    let mut out: OrderedMap<Spanned<String>> = OrderedMap::new();
    assert(out.deep_view() =~= Seq::empty());
    if e.value.is_some() {
        return Err(ParseFault::new(ParseErrorKind::ExpectedMapping, e.span));
    }
    if next == j + 1 {
        return Ok((out, ext0));
    }
    let depth = entries[j + 1].depth;
    let mut ext = ext0;
    let mut k: usize = j + 1;
    while k < next
        invariant
            j < k <= next <= entries.len(),
            spec_pairs(
                entries.deep_view(),
                j + 1,
                next as int,
                depth,
                unquote,
                Seq::empty(),
                ext0,
            ) == spec_pairs(
                entries.deep_view(),
                k as int,
                next as int,
                depth,
                unquote,
                out.deep_view(),
                ext,
            ),
            spec_pairs_within(out.deep_view(), ext),
        decreases next - k,
    {
        let c = &entries[k];
        if c.depth != depth {
            return Err(ParseFault::new(ParseErrorKind::BadIndentation, c.span));
        }
        match (&c.key, &c.value) {
            (None, _) => {
                return Err(ParseFault::new(ParseErrorKind::ExpectedKey, c.span));
            },
            (Some(_), None) => {
                return Err(ParseFault::new(ParseErrorKind::ExpectedValue, c.span));
            },
            (Some(key), Some(v)) => {
                match out.find_value(key.value.as_str()) {
                    Some(first) => {
                        return Err(
                            ParseFault {
                                kind: ParseErrorKind::DuplicateKey,
                                span: key.span,
                                related: Some(first.span),
                            },
                        );
                    },
                    None => {},
                }
                let text = if unquote {
                    string_of(c.style, &v.value)
                } else {
                    v.value.deep_clone()
                };
                let ce = entry_extent(c);
                let ghost before = out.deep_view();
                let ghost old_ext = ext;
                let item = Spanned { value: text, span: v.span };
                out.insert_new(key.value.deep_clone(), item);
                ext = ext.merge(&ce);
                proof {
                    lemma_merge_covers(old_ext, ce);
                    let cv = c.deep_view();
                    lemma_merge_covers(cv.span, cv.key->0.span);
                    lemma_merge_covers(cv.span.spec_merge(cv.key->0.span), cv.value->0.span);
                    assert forall|i: int| 0 <= i < out.deep_view().len() implies ext.covers(
                        (#[trigger] out.deep_view()[i]).1.span,
                    ) by {
                        if i < before.len() {
                            assert(before[i] == out.deep_view()[i]);
                            lemma_covers_order(ext, old_ext, before[i].1.span);
                        } else {
                            lemma_covers_order(ext, ce, v.span);
                        }
                    }
                }
            },
        }
        k += 1;
    }
    Ok((out, ext))
}

/// A part of the syntax tree that is written as a mapping: each key of the
/// mapping sets one of its fields.
pub trait Node: Sized + DeepView {
    /// The value that holds `name` and nothing else.
    spec fn spec_create(name: Seq<char>) -> Self::V;

    /// Every span written in `v` lies inside `outer`, and every part that has
    /// a span of its own holds only spans that lie inside that span.
    spec fn spec_within(v: Self::V, outer: Span) -> bool;

    /// What `acc` becomes when the field written at entry `j`, whose block
    /// ends before entry `next`, is read into it, with the span of that field.
    spec fn spec_field(acc: Self::V, entries: Seq<EntryView>, j: int, next: int) -> Result<
        (Self::V, Span),
        ParseFault,
    >;

    /// A new value holds no span.
    proof fn lemma_create_within(name: Seq<char>, outer: Span)
        ensures
            Self::spec_within(Self::spec_create(name), outer),
    ;

    /// What lies inside a span lies inside every span that covers it.
    proof fn lemma_widen(v: Self::V, a: Span, b: Span)
        requires
            Self::spec_within(v, a),
            b.covers(a),
        ensures
            Self::spec_within(v, b),
    ;

    /// A value that holds `name` and nothing else.
    fn create(name: String) -> (r: Self)
        ensures
            r.deep_view() == Self::spec_create(name@),
    ;

    /// Reads the field written at entry `j` into `self`. `ext` is the span of
    /// what was read into `self` before; the result is that span widened by
    /// the span of the field.
    fn set_field(&mut self, entries: &Vec<Entry>, j: usize, next: usize, ext: Span) -> (r: Result<
        Span,
        ParseFault,
    >)
        requires
            j < next <= entries.len(),
            entries.deep_view()[j as int].key is Some,
        ensures
            match Self::spec_field(
                old(self).deep_view(),
                entries.deep_view(),
                j as int,
                next as int,
            ) {
                Ok((v, fe)) => r matches Ok(e) && e == ext.spec_merge(fe) && final(self).deep_view()
                    == v,
                Err(f) => r matches Err(g) && g == f,
            },
            r is Ok && Self::spec_within(old(self).deep_view(), ext) ==> Self::spec_within(
                final(self).deep_view(),
                r->Ok_0,
            ),
    ;
}

/// What `acc` becomes when the fields written from entry `j` on and before
/// entry `end` are read into it. Every field stands at depth `depth` and has a
/// key; `seen` holds the keys read so far, and no key may occur twice.
pub open spec fn spec_fill<T: Node>(
    acc: T::V,
    seen: Seq<(Seq<char>, Span)>,
    ext: Span,
    entries: Seq<EntryView>,
    j: int,
    end: int,
    depth: usize,
) -> Result<(T::V, Span), ParseFault>
    decreases end - j,
{
    if !(0 <= j < end <= entries.len()) {
        Ok((acc, ext))
    } else {
        let e = entries[j];
        let next = spec_block_end(entries, j, j + 1, end);
        if e.depth != depth {
            Err(ParseFault::at(ParseErrorKind::BadIndentation, e.span))
        } else if e.key is None {
            Err(ParseFault::at(ParseErrorKind::ExpectedKey, e.span))
        } else {
            match spec_lookup(seen, e.key->0.value) {
                Some(first) => Err(
                    ParseFault {
                        kind: ParseErrorKind::DuplicateKey,
                        span: e.key->0.span,
                        related: Some(first),
                    },
                ),
                None => match T::spec_field(acc, entries, j, next) {
                    Err(f) => Err(f),
                    Ok((acc2, fe)) => if j < next <= end {
                        spec_fill::<T>(
                            acc2,
                            seen.push((e.key->0.value, e.key->0.span)),
                            ext.spec_merge(fe),
                            entries,
                            next,
                            end,
                            depth,
                        )
                    } else {
                        Ok((acc2, ext.spec_merge(fe)))
                    },
                },
            }
        }
    }
}

/// What `acc` becomes when the mapping written in the entries `from..end` is
/// read into it. The first entry fixes the depth of the fields.
pub open spec fn spec_children<T: Node>(
    acc: T::V,
    entries: Seq<EntryView>,
    from: int,
    end: int,
    ext: Span,
) -> Result<(T::V, Span), ParseFault> {
    if 0 <= from < end <= entries.len() {
        spec_fill::<T>(acc, Seq::empty(), ext, entries, from, end, entries[from].depth)
    } else {
        Ok((acc, ext))
    }
}

/// Reads the mapping written in the entries `from..end` into `node`.
#[verifier::loop_isolation(false)]
pub fn fill<T: Node>(node: &mut T, entries: &Vec<Entry>, from: usize, end: usize, ext0: Span) -> (r:
    Result<Span, ParseFault>)
    requires
        from <= end <= entries.len(),
    ensures
        match spec_children::<T>(
            old(node).deep_view(),
            entries.deep_view(),
            from as int,
            end as int,
            ext0,
        ) {
            Ok((v, e)) => r matches Ok(x) && x == e && final(node).deep_view() == v,
            Err(f) => r matches Err(g) && g == f,
        },
        r matches Ok(x) ==> x.covers(ext0),
        r is Ok && T::spec_within(old(node).deep_view(), ext0) ==> T::spec_within(
            final(node).deep_view(),
            r->Ok_0,
        ),
{
    proof {
        lemma_covers_order(ext0, ext0, ext0);
    }
    if from >= end {
        return Ok(ext0);
    }
    let depth = entries[from].depth;
    let mut seen: OrderedMap<Span> = OrderedMap::new();
    assert(seen.deep_view() =~= Seq::empty());
    let mut ext = ext0;
    let mut j: usize = from;
    while j < end
        invariant
            from <= j <= end <= entries.len(),
            spec_fill::<T>(
                old(node).deep_view(),
                Seq::empty(),
                ext0,
                entries.deep_view(),
                from as int,
                end as int,
                depth,
            ) == spec_fill::<T>(
                node.deep_view(),
                seen.deep_view(),
                ext,
                entries.deep_view(),
                j as int,
                end as int,
                depth,
            ),
            ext.covers(ext0),
            T::spec_within(old(node).deep_view(), ext0) ==> T::spec_within(node.deep_view(), ext),
        decreases end - j,
    {
        let e = &entries[j];
        let next = block_end(entries, j, end);
        if e.depth != depth {
            return Err(ParseFault::new(ParseErrorKind::BadIndentation, e.span));
        }
        match &e.key {
            None => {
                return Err(ParseFault::new(ParseErrorKind::ExpectedKey, e.span));
            },
            Some(key) => {
                match seen.find_value(key.value.as_str()) {
                    Some(first) => {
                        return Err(
                            ParseFault {
                                kind: ParseErrorKind::DuplicateKey,
                                span: key.span,
                                related: Some(*first),
                            },
                        );
                    },
                    None => {},
                }
                let ghost old_ext = ext;
                match node.set_field(entries, j, next, ext) {
                    Err(f) => {
                        return Err(f);
                    },
                    Ok(x) => {
                        ext = x;
                    },
                }
                seen.insert_new(key.value.deep_clone(), key.span);
                proof {
                    let fe = T::spec_field(
                        old(node).deep_view(),
                        entries.deep_view(),
                        j as int,
                        next as int,
                    );
                    lemma_merge_covers(old_ext, ext);
                    assert(ext.covers(old_ext)) by {
                        let w = choose|w: Span| ext == old_ext.spec_merge(w);
                        lemma_merge_covers(old_ext, w);
                    }
                    lemma_covers_order(ext, old_ext, ext0);
                }
            },
        }
        j = next;
    }
    Ok(ext)
}

/// The spans of the values of the mapping lie inside `outer`, and each value
/// holds only spans that lie inside its own span.
pub open spec fn spec_nodes_within<T: Node>(
    pairs: Seq<(Seq<char>, Spanned<T::V>)>,
    outer: Span,
) -> bool {
    &&& spec_pairs_within(pairs, outer)
    &&& forall|i: int|
        0 <= i < pairs.len() ==> T::spec_within((#[trigger] pairs[i]).1.value, pairs[i].1.span)
}

/// The values of a mapping of nodes, from entry `k` on: each entry has a key,
/// which names the node, and no scalar; the entries nested in it are the
/// fields of the node. No key may occur twice.
pub open spec fn spec_nodes<T: Node>(
    entries: Seq<EntryView>,
    k: int,
    next: int,
    depth: usize,
    acc: Seq<(Seq<char>, Spanned<T::V>)>,
    ext: Span,
) -> Result<(Seq<(Seq<char>, Spanned<T::V>)>, Span), ParseFault>
    decreases next - k,
{
    if !(0 <= k < next <= entries.len()) {
        Ok((acc, ext))
    } else {
        let e = entries[k];
        let kn = spec_block_end(entries, k, k + 1, next);
        if e.depth != depth {
            Err(ParseFault::at(ParseErrorKind::BadIndentation, e.span))
        } else if e.key is None {
            Err(ParseFault::at(ParseErrorKind::ExpectedKey, e.span))
        } else if e.value is Some {
            Err(ParseFault::at(ParseErrorKind::ExpectedMapping, e.span))
        } else {
            match spec_lookup(acc, e.key->0.value) {
                Some(first) => Err(
                    ParseFault {
                        kind: ParseErrorKind::DuplicateKey,
                        span: e.key->0.span,
                        related: Some(first.span),
                    },
                ),
                None => match spec_children::<T>(
                    T::spec_create(e.key->0.value),
                    entries,
                    k + 1,
                    kn,
                    spec_entry_extent(e),
                ) {
                    Err(f) => Err(f),
                    Ok((node, ne)) => if k < kn <= next {
                        spec_nodes::<T>(
                            entries,
                            kn,
                            next,
                            depth,
                            acc.push((e.key->0.value, Spanned { value: node, span: ne })),
                            ext.spec_merge(ne),
                        )
                    } else {
                        Ok(
                            (
                                acc.push((e.key->0.value, Spanned { value: node, span: ne })),
                                ext.spec_merge(ne),
                            ),
                        )
                    },
                },
            }
        }
    }
}

/// The mapping of nodes under entry `j`.
pub open spec fn spec_node_map<T: Node>(entries: Seq<EntryView>, j: int, next: int) -> Result<
    (Seq<(Seq<char>, Spanned<T::V>)>, Span),
    ParseFault,
> {
    let e = entries[j];
    if e.value is Some {
        Err(ParseFault::at(ParseErrorKind::ExpectedMapping, e.span))
    } else if next == j + 1 {
        Ok((Seq::empty(), spec_entry_extent(e)))
    } else {
        spec_nodes::<T>(
            entries,
            j + 1,
            next,
            entries[j + 1].depth,
            Seq::empty(),
            spec_entry_extent(e),
        )
    }
}

/// The mapping of nodes under entry `j`.
#[verifier::loop_isolation(false)]
pub fn node_map<T: Node>(entries: &Vec<Entry>, j: usize, next: usize) -> (r: Result<
    (OrderedMap<Spanned<T>>, Span),
    ParseFault,
>)
    requires
        j < next <= entries.len(),
    ensures
        match spec_node_map::<T>(entries.deep_view(), j as int, next as int) {
            Ok((m, ext)) => r matches Ok((x, s)) && x.deep_view() == m && s == ext
                && spec_nodes_within::<T>(m, ext),
            Err(f) => r matches Err(g) && g == f,
        },
{
    let e = &entries[j];
    let ext0 = entry_extent(e);
    let mut out: OrderedMap<Spanned<T>> = OrderedMap::new();
    assert(out.deep_view() =~= Seq::empty());
    if e.value.is_some() {
        return Err(ParseFault::new(ParseErrorKind::ExpectedMapping, e.span));
    }
    if next == j + 1 {
        return Ok((out, ext0));
    }
    let depth = entries[j + 1].depth;
    let mut ext = ext0;
    let mut k: usize = j + 1;
    while k < next
        invariant
            j < k <= next <= entries.len(),
            spec_nodes::<T>(
                entries.deep_view(),
                j + 1,
                next as int,
                depth,
                Seq::empty(),
                ext0,
            ) == spec_nodes::<T>(
                entries.deep_view(),
                k as int,
                next as int,
                depth,
                out.deep_view(),
                ext,
            ),
            spec_nodes_within::<T>(out.deep_view(), ext),
        decreases next - k,
    {
        let c = &entries[k];
        let kn = block_end(entries, k, next);
        if c.depth != depth {
            return Err(ParseFault::new(ParseErrorKind::BadIndentation, c.span));
        }
        match &c.key {
            None => {
                return Err(ParseFault::new(ParseErrorKind::ExpectedKey, c.span));
            },
            Some(key) => {
                if c.value.is_some() {
                    return Err(ParseFault::new(ParseErrorKind::ExpectedMapping, c.span));
                }
                match out.find_value(key.value.as_str()) {
                    Some(first) => {
                        return Err(
                            ParseFault {
                                kind: ParseErrorKind::DuplicateKey,
                                span: key.span,
                                related: Some(first.span),
                            },
                        );
                    },
                    None => {},
                }
                let mut node = T::create(key.value.deep_clone());
                let ce = entry_extent(c);
                proof {
                    T::lemma_create_within(key.value@, ce);
                }
                match fill(&mut node, entries, k + 1, kn, ce) {
                    Err(f) => {
                        return Err(f);
                    },
                    Ok(ne) => {
                        let ghost before = out.deep_view();
                        let ghost old_ext = ext;
                        let ghost nv = node.deep_view();
                        out.insert_new(key.value.deep_clone(), Spanned { value: node, span: ne });
                        ext = ext.merge(&ne);
                        proof {
                            lemma_merge_covers(old_ext, ne);
                            lemma_pairs_widen(before, old_ext, ext);
                            assert forall|i: int| 0 <= i < out.deep_view().len() implies ext.covers(
                                (#[trigger] out.deep_view()[i]).1.span,
                            ) && T::spec_within(out.deep_view()[i].1.value, out.deep_view()[i].1.span) by {
                                if i < before.len() {
                                    assert(before[i] == out.deep_view()[i]);
                                }
                            }
                        }
                    },
                }
            },
        }
        k = kn;
    }
    Ok((out, ext))
}

/// The node that is written as the mapping under entry `j`.
pub open spec fn spec_nested<T: Node>(entries: Seq<EntryView>, j: int, next: int) -> Result<
    (Spanned<T::V>, Span),
    ParseFault,
> {
    let e = entries[j];
    if e.value is Some {
        Err(ParseFault::at(ParseErrorKind::ExpectedMapping, e.span))
    } else {
        match spec_children::<T>(
            T::spec_create(Seq::empty()),
            entries,
            j + 1,
            next,
            spec_entry_extent(e),
        ) {
            Err(f) => Err(f),
            Ok((node, ne)) => Ok((Spanned { value: node, span: ne }, ne)),
        }
    }
}

/// The node that is written as the mapping under entry `j`.
pub fn nested<T: Node>(entries: &Vec<Entry>, j: usize, next: usize) -> (r: Result<
    (Spanned<T>, Span),
    ParseFault,
>)
    requires
        j < next <= entries.len(),
    ensures
        match spec_nested::<T>(entries.deep_view(), j as int, next as int) {
            Ok((m, ext)) => r matches Ok((x, s)) && x.deep_view() == m && s == ext && ext.covers(
                m.span,
            ) && T::spec_within(m.value, m.span),
            Err(f) => r matches Err(g) && g == f,
        },
{
    let e = &entries[j];
    if e.value.is_some() {
        return Err(ParseFault::new(ParseErrorKind::ExpectedMapping, e.span));
    }
    let mut node = T::create(String::new());
    let ce = entry_extent(e);
    proof {
        T::lemma_create_within(Seq::empty(), ce);
    }
    match fill(&mut node, entries, j + 1, next, ce) {
        Err(f) => Err(f),
        Ok(ne) => {
            proof {
                lemma_covers_order(ne, ne, ne);
            }
            Ok((Spanned { value: node, span: ne }, ne))
        },
    }
}

/// How a scalar reads as the value of an annotation: a block stays a block,
/// a quoted scalar is a string, and a plain scalar is a truth value, a number
/// or a string.
pub open spec fn spec_annotation_value(style: ScalarStyle, s: Seq<char>) -> AnnotationValueAstView {
    if style == ScalarStyle::Block {
        AnnotationValueAstView::Block(s)
    } else if style == ScalarStyle::Quoted {
        AnnotationValueAstView::Text(s)
    } else if s == "true"@ {
        AnnotationValueAstView::Bool(true)
    } else if s == "false"@ {
        AnnotationValueAstView::Bool(false)
    } else if spec_is_number(s) {
        AnnotationValueAstView::Number(s)
    } else {
        AnnotationValueAstView::Text(spec_string_value(s))
    }
}

/// The annotation written at entry `j`: a scalar, or a list of strings.
pub open spec fn spec_annotation(entries: Seq<EntryView>, j: int, next: int) -> Result<
    (Spanned<AnnotationValueAstView>, Span),
    ParseFault,
> {
    let e = entries[j];
    match e.value {
        Some(v) => if next == j + 1 {
            Ok(
                (
                    Spanned { value: spec_annotation_value(e.style, v.value), span: v.span },
                    spec_entry_extent(e),
                ),
            )
        } else {
            Err(ParseFault::at(ParseErrorKind::ExpectedValue, e.span))
        },
        None => match spec_list(entries, j, next) {
            Ok((l, ext)) => {
                Ok((Spanned { value: AnnotationValueAstView::List(l), span: ext }, ext))
            },
            Err(f) => Err(f),
        },
    }
}

/// The annotation written at entry `j`.
pub fn annotation(entries: &Vec<Entry>, j: usize, next: usize) -> (r: Result<
    (Spanned<AnnotationValueAst>, Span),
    ParseFault,
>)
    requires
        j < next <= entries.len(),
    ensures
        match spec_annotation(entries.deep_view(), j as int, next as int) {
            Ok((m, ext)) => r matches Ok((x, s)) && x.deep_view() == m && s == ext && ext.covers(
                m.span,
            ) && m.value.within(m.span),
            Err(f) => r matches Err(g) && g == f,
        },
{
    let e = &entries[j];
    if e.value.is_some() {
        match scalar(entries, j, next) {
            Err(f) => Err(f),
            Ok(v) => {
                let span = v.span;
                let s = v.value;
                let value = if e.style == ScalarStyle::Block {
                    AnnotationValueAst::Block(s)
                } else if e.style == ScalarStyle::Quoted {
                    AnnotationValueAst::Text(s)
                } else if str_eq(s.as_str(), "true") {
                    AnnotationValueAst::Bool(true)
                } else if str_eq(s.as_str(), "false") {
                    AnnotationValueAst::Bool(false)
                } else if is_number(s.as_str()) {
                    AnnotationValueAst::Number(s)
                } else {
                    AnnotationValueAst::Text(string_value(s.as_str()))
                };
                Ok((Spanned { value, span }, entry_extent(e)))
            },
        }
    } else {
        match list(entries, j, next) {
            Err(f) => Err(f),
            Ok((l, ext)) => {
                proof {
                    lemma_covers_order(ext, ext, ext);
                }
                Ok((Spanned { value: AnnotationValueAst::List(l), span: ext }, ext))
            },
        }
    }
}

impl Node for AnnotationsAst {
    open spec fn spec_create(name: Seq<char>) -> AnnotationsAstView {
        AnnotationsAstView::empty()
    }

    open spec fn spec_within(v: AnnotationsAstView, outer: Span) -> bool {
        v.within(outer)
    }

    open spec fn spec_field(acc: AnnotationsAstView, entries: Seq<EntryView>, j: int, next: int)
        -> Result<(AnnotationsAstView, Span), ParseFault> {
        let key = entries[j].key->0;
        match spec_lookup(acc.entries, key.value) {
            Some(first) => Err(
                ParseFault {
                    kind: ParseErrorKind::DuplicateKey,
                    span: key.span,
                    related: Some(first.span),
                },
            ),
            None => match spec_annotation(entries, j, next) {
                Err(f) => Err(f),
                Ok((x, fe)) => {
                    Ok((AnnotationsAstView { entries: acc.entries.push((key.value, x)) }, fe))
                },
            },
        }
    }

    proof fn lemma_create_within(name: Seq<char>, outer: Span) {
    }

    proof fn lemma_widen(v: AnnotationsAstView, a: Span, b: Span) {
        v.lemma_widen(a, b);
    }

    fn create(name: String) -> (r: Self) {
        AnnotationsAst::new()
    }

    fn set_field(&mut self, entries: &Vec<Entry>, j: usize, next: usize, ext: Span) -> (r: Result<
        Span,
        ParseFault,
    >) {
        match &entries[j].key {
            None => Err(ParseFault::new(ParseErrorKind::ExpectedKey, entries[j].span)),
            Some(key) => {
                match self.entries.find_value(key.value.as_str()) {
                    Some(first) => {
                        return Err(
                            ParseFault {
                                kind: ParseErrorKind::DuplicateKey,
                                span: key.span,
                                related: Some(first.span),
                            },
                        );
                    },
                    None => {},
                }
                match annotation(entries, j, next) {
                    Err(f) => Err(f),
                    Ok((x, fe)) => {
                        let e = ext.merge(&fe);
                        let ghost before = self.entries.deep_view();
                        self.entries.insert_new(key.value.deep_clone(), x);
                        proof {
                            if old(self).deep_view().within(ext) {
                                lemma_merge_covers(ext, fe);
                                old(self).deep_view().lemma_widen(ext, e);
                                lemma_covers_order(e, fe, x.span);
                                let after = self.entries.deep_view();
                                assert forall|i: int| 0 <= i < after.len() implies e.covers(
                                    (#[trigger] after[i]).1.span,
                                ) && after[i].1.value.within(after[i].1.span) by {
                                    if i < before.len() {
                                        assert(before[i] == after[i]);
                                    }
                                }
                            }
                        }
                        Ok(e)
                    },
                }
            },
        }
    }
}

impl Node for StructuredPatternAst {
    open spec fn spec_create(name: Seq<char>) -> StructuredPatternAstView {
        StructuredPatternAstView { syntax: Seq::empty(), interpolated: false }
    }

    open spec fn spec_within(v: StructuredPatternAstView, outer: Span) -> bool {
        true
    }

    open spec fn spec_field(
        acc: StructuredPatternAstView,
        entries: Seq<EntryView>,
        j: int,
        next: int,
    ) -> Result<(StructuredPatternAstView, Span), ParseFault> {
        let key = entries[j].key->0.value;
        if key == "syntax"@ {
            match spec_scalar(entries, j, next) {
                Ok(x) => Ok(
                    (
                        StructuredPatternAstView { syntax: x.value, ..acc },
                        spec_entry_extent(entries[j]),
                    ),
                ),
                Err(f) => Err(f),
            }
        } else if key == "interpolated"@ {
            match spec_boolean(entries, j, next) {
                Ok(x) => Ok(
                    (
                        StructuredPatternAstView { interpolated: x.value, ..acc },
                        spec_entry_extent(entries[j]),
                    ),
                ),
                Err(f) => Err(f),
            }
        } else {
            Ok((acc, spec_entry_extent(entries[j])))
        }
    }

    proof fn lemma_create_within(name: Seq<char>, outer: Span) {
    }

    proof fn lemma_widen(v: StructuredPatternAstView, a: Span, b: Span) {
    }

    fn create(name: String) -> (r: Self) {
        StructuredPatternAst { syntax: String::new(), interpolated: false }
    }

    fn set_field(&mut self, entries: &Vec<Entry>, j: usize, next: usize, ext: Span) -> (r: Result<
        Span,
        ParseFault,
    >) {
        match &entries[j].key {
            None => Err(ParseFault::new(ParseErrorKind::ExpectedKey, entries[j].span)),
            Some(k) => {
                let key = k.value.as_str();
                let fe = entry_extent(&entries[j]);
                if str_eq(key, "syntax") {
                    match scalar(entries, j, next) {
                        Ok(x) => {
                            self.syntax = x.value;
                            Ok(ext.merge(&fe))
                        },
                        Err(f) => Err(f),
                    }
                } else if str_eq(key, "interpolated") {
                    match boolean(entries, j, next) {
                        Ok(x) => {
                            self.interpolated = x.value;
                            Ok(ext.merge(&fe))
                        },
                        Err(f) => Err(f),
                    }
                } else {
                    Ok(ext.merge(&fe))
                }
            },
        }
    }
}

/// The contributors under entry `j`: a list of names.
pub open spec fn spec_contributors(entries: Seq<EntryView>, j: int, next: int) -> Result<
    (Seq<Spanned<ContributorAstView>>, Span),
    ParseFault,
> {
    match spec_list(entries, j, next) {
        Ok((l, ext)) => Ok(
            (
                Seq::new(
                    l.len(),
                    |i: int| Spanned { value: ContributorAstView::named(l[i].value), span: l[i].span },
                ),
                ext,
            ),
        ),
        Err(f) => Err(f),
    }
}

/// The contributors under entry `j`.
pub fn contributors(entries: &Vec<Entry>, j: usize, next: usize) -> (r: Result<
    (Vec<Spanned<ContributorAst>>, Span),
    ParseFault,
>)
    requires
        j < next <= entries.len(),
    ensures
        match spec_contributors(entries.deep_view(), j as int, next as int) {
            Ok((l, ext)) => r matches Ok((x, s)) && x.deep_view() == l && s == ext
                && spec_list_within(l, ext),
            Err(f) => r matches Err(g) && g == f,
        },
{
    match list(entries, j, next) {
        Err(f) => Err(f),
        Ok((l, ext)) => {
            let mut out: Vec<Spanned<ContributorAst>> = Vec::new();
            let mut i: usize = 0;
            while i < l.len()
                invariant
                    i <= l.len(),
                    out.len() == i,
                    forall|k: int|
                        0 <= k < i ==> (#[trigger] out[k]).deep_view() == (Spanned {
                            value: ContributorAstView::named(l[k].value@),
                            span: l[k].span,
                        }),
                decreases l.len() - i,
            {
                let name = l[i].value.deep_clone();
                out.push(Spanned { value: ContributorAst::named(name), span: l[i].span });
                i += 1;
            }
            proof {
                let want = Seq::new(
                    l.deep_view().len(),
                    |i: int|
                        Spanned {
                            value: ContributorAstView::named(l.deep_view()[i].value),
                            span: l.deep_view()[i].span,
                        },
                );
                assert(out.deep_view() =~= want);
                assert forall|k: int| 0 <= k < want.len() implies ext.covers(
                    (#[trigger] want[k]).span,
                ) by {
                    assert(l.deep_view()[k].span == want[k].span);
                }
            }
            Ok((out, ext))
        },
    }
}

/// The index of the first entry from the `j`-th on, before `end`, that is
/// not nested more deeply than `limit`.
pub open spec fn spec_field_end(entries: Seq<EntryView>, j: int, end: int, limit: int) -> int
    decreases end - j,
{
    if 0 <= j < end <= entries.len() && entries[j].depth > limit {
        spec_field_end(entries, j + 1, end, limit)
    } else {
        j
    }
}

/// The depth at which the fields of an element of a list stand when the
/// element is written with its first key on the line of its dash.
pub open spec fn spec_item_field_depth(depth: usize) -> int {
    if depth + 3 > usize::MAX {
        usize::MAX as int
    } else {
        depth + 3
    }
}

/// The node that is written as the element of a list at entry `k`, whose
/// block ends before entry `kn`. The element is a mapping: either its first
/// key stands on the line of the dash and the other keys below it, or all of
/// its keys are nested in it.
pub open spec fn spec_item_node<T: Node>(entries: Seq<EntryView>, k: int, kn: int) -> Result<
    (Spanned<T::V>, Span),
    ParseFault,
> {
    let e = entries[k];
    if e.key is Some {
        let e1 = spec_field_end(entries, k + 1, kn, spec_item_field_depth(e.depth));
        match T::spec_field(T::spec_create(Seq::empty()), entries, k, e1) {
            Err(f) => Err(f),
            Ok((first, fe)) => match spec_children::<T>(
                first,
                entries,
                e1,
                kn,
                spec_entry_extent(e).spec_merge(fe),
            ) {
                Err(f) => Err(f),
                Ok((node, ne)) => Ok((Spanned { value: node, span: ne }, ne)),
            },
        }
    } else if e.value is Some {
        Err(ParseFault::at(ParseErrorKind::ExpectedMapping, e.span))
    } else {
        match spec_children::<T>(
            T::spec_create(Seq::empty()),
            entries,
            k + 1,
            kn,
            spec_entry_extent(e),
        ) {
            Err(f) => Err(f),
            Ok((node, ne)) => Ok((Spanned { value: node, span: ne }, ne)),
        }
    }
}

/// The spans of the nodes of the list lie inside `outer`, and each node
/// holds only spans that lie inside its own span.
pub open spec fn spec_node_list_within<T: Node>(list: Seq<Spanned<T::V>>, outer: Span) -> bool {
    &&& spec_list_within(list, outer)
    &&& forall|i: int|
        0 <= i < list.len() ==> T::spec_within((#[trigger] list[i]).value, list[i].span)
}

/// The nodes of a list, from entry `k` on: each entry at depth `depth` is an
/// element of the list and is read as a node.
pub open spec fn spec_node_items<T: Node>(
    entries: Seq<EntryView>,
    k: int,
    next: int,
    depth: usize,
    acc: Seq<Spanned<T::V>>,
    ext: Span,
) -> Result<(Seq<Spanned<T::V>>, Span), ParseFault>
    decreases next - k,
{
    if !(0 <= k < next <= entries.len()) {
        Ok((acc, ext))
    } else {
        let e = entries[k];
        let kn = spec_block_end(entries, k, k + 1, next);
        if e.depth != depth {
            Err(ParseFault::at(ParseErrorKind::BadIndentation, e.span))
        } else if !e.item {
            Err(ParseFault::at(ParseErrorKind::ExpectedMapping, e.span))
        } else {
            match spec_item_node::<T>(entries, k, kn) {
                Err(f) => Err(f),
                Ok((node, ne)) => if k < kn <= next {
                    spec_node_items::<T>(
                        entries,
                        kn,
                        next,
                        depth,
                        acc.push(node),
                        ext.spec_merge(ne),
                    )
                } else {
                    Ok((acc.push(node), ext.spec_merge(ne)))
                },
            }
        }
    }
}

/// The list of nodes under entry `j`.
pub open spec fn spec_node_list<T: Node>(entries: Seq<EntryView>, j: int, next: int) -> Result<
    (Seq<Spanned<T::V>>, Span),
    ParseFault,
> {
    let e = entries[j];
    if e.value is Some {
        Err(ParseFault::at(ParseErrorKind::ExpectedMapping, e.span))
    } else if next == j + 1 {
        Ok((Seq::empty(), spec_entry_extent(e)))
    } else {
        spec_node_items::<T>(
            entries,
            j + 1,
            next,
            entries[j + 1].depth,
            Seq::empty(),
            spec_entry_extent(e),
        )
    }
}

/// The index of the first entry from the `from`-th on, before `end`, that is
/// not nested more deeply than `limit`.
fn field_end(entries: &Vec<Entry>, from: usize, end: usize, limit: usize) -> (r: usize)
    requires
        from <= end <= entries.len(),
    ensures
        r == spec_field_end(entries.deep_view(), from as int, end as int, limit as int),
        from <= r <= end,
{
    let mut j: usize = from;
    while j < end && entries[j].depth > limit
        invariant
            from <= j <= end <= entries.len(),
            spec_field_end(entries.deep_view(), from as int, end as int, limit as int)
                == spec_field_end(entries.deep_view(), j as int, end as int, limit as int),
        decreases end - j,
    {
        j += 1;
    }
    j
}

/// The node that is written as the element of a list at entry `k`.
fn item_node<T: Node>(entries: &Vec<Entry>, k: usize, kn: usize) -> (r: Result<
    (Spanned<T>, Span),
    ParseFault,
>)
    requires
        k < kn <= entries.len(),
    ensures
        match spec_item_node::<T>(entries.deep_view(), k as int, kn as int) {
            Ok((m, ext)) => r matches Ok((x, s)) && x.deep_view() == m && s == ext && ext == m.span
                && T::spec_within(m.value, m.span),
            Err(f) => r matches Err(g) && g == f,
        },
{
    let e = &entries[k];
    let ce = entry_extent(e);
    let mut node = T::create(String::new());
    proof {
        T::lemma_create_within(Seq::empty(), ce);
    }
    if e.key.is_some() {
        let limit = if e.depth > usize::MAX - 3 {
            usize::MAX
        } else {
            e.depth + 3
        };
        let e1 = field_end(entries, k + 1, kn, limit);
        match node.set_field(entries, k, e1, ce) {
            Err(f) => Err(f),
            Ok(fe) => match fill(&mut node, entries, e1, kn, fe) {
                Err(f) => Err(f),
                Ok(ne) => Ok((Spanned { value: node, span: ne }, ne)),
            },
        }
    } else if e.value.is_some() {
        Err(ParseFault::new(ParseErrorKind::ExpectedMapping, e.span))
    } else {
        match fill(&mut node, entries, k + 1, kn, ce) {
            Err(f) => Err(f),
            Ok(ne) => Ok((Spanned { value: node, span: ne }, ne)),
        }
    }
}

/// The list of nodes under entry `j`.
#[verifier::loop_isolation(false)]
pub fn node_list<T: Node>(entries: &Vec<Entry>, j: usize, next: usize) -> (r: Result<
    (Vec<Spanned<T>>, Span),
    ParseFault,
>)
    requires
        j < next <= entries.len(),
    ensures
        match spec_node_list::<T>(entries.deep_view(), j as int, next as int) {
            Ok((l, ext)) => r matches Ok((x, s)) && x.deep_view() == l && s == ext
                && spec_node_list_within::<T>(l, ext),
            Err(f) => r matches Err(g) && g == f,
        },
{
    let e = &entries[j];
    let ext0 = entry_extent(e);
    let mut out: Vec<Spanned<T>> = Vec::new();
    assert(out.deep_view() =~= Seq::empty());
    if e.value.is_some() {
        return Err(ParseFault::new(ParseErrorKind::ExpectedMapping, e.span));
    }
    if next == j + 1 {
        return Ok((out, ext0));
    }
    let depth = entries[j + 1].depth;
    let mut ext = ext0;
    let mut k: usize = j + 1;
    while k < next
        invariant
            j < k <= next <= entries.len(),
            spec_node_items::<T>(
                entries.deep_view(),
                j + 1,
                next as int,
                depth,
                Seq::empty(),
                ext0,
            ) == spec_node_items::<T>(
                entries.deep_view(),
                k as int,
                next as int,
                depth,
                out.deep_view(),
                ext,
            ),
            spec_node_list_within::<T>(out.deep_view(), ext),
        decreases next - k,
    {
        let c = &entries[k];
        let kn = block_end(entries, k, next);
        if c.depth != depth {
            return Err(ParseFault::new(ParseErrorKind::BadIndentation, c.span));
        }
        if !c.item {
            return Err(ParseFault::new(ParseErrorKind::ExpectedMapping, c.span));
        }
        match item_node::<T>(entries, k, kn) {
            Err(f) => {
                return Err(f);
            },
            Ok((node, ne)) => {
                let ghost before = out.deep_view();
                let ghost old_ext = ext;
                let ghost nv = node.deep_view();
                out.push(node);
                ext = ext.merge(&ne);
                proof {
                    assert(out.deep_view() =~= before.push(nv));
                    lemma_merge_covers(old_ext, ne);
                    lemma_list_widen(before, old_ext, ext);
                    assert forall|i: int| 0 <= i < out.deep_view().len() implies ext.covers(
                        (#[trigger] out.deep_view()[i]).span,
                    ) && T::spec_within(out.deep_view()[i].value, out.deep_view()[i].span) by {
                        if i < before.len() {
                            assert(before[i] == out.deep_view()[i]);
                        }
                    }
                }
            },
        }
        k = kn;
    }
    Ok((out, ext))
}

impl Node for ConditionalRequirementAst {
    open spec fn spec_create(name: Seq<char>) -> ConditionalRequirementAstView {
        ConditionalRequirementAstView { condition: name, then_required: Seq::empty() }
    }

    open spec fn spec_within(v: ConditionalRequirementAstView, outer: Span) -> bool {
        v.within(outer)
    }

    open spec fn spec_field(
        acc: ConditionalRequirementAstView,
        entries: Seq<EntryView>,
        j: int,
        next: int,
    ) -> Result<(ConditionalRequirementAstView, Span), ParseFault> {
        let key = entries[j].key->0.value;
        if key == "condition"@ {
            match spec_scalar(entries, j, next) {
                Ok(x) => Ok(
                    (
                        ConditionalRequirementAstView { condition: x.value, ..acc },
                        spec_entry_extent(entries[j]),
                    ),
                ),
                Err(f) => Err(f),
            }
        } else if key == "then_required"@ {
            match spec_list(entries, j, next) {
                Ok((x, e)) => Ok((ConditionalRequirementAstView { then_required: x, ..acc }, e)),
                Err(f) => Err(f),
            }
        } else {
            Ok((acc, spec_entry_extent(entries[j])))
        }
    }

    proof fn lemma_create_within(name: Seq<char>, outer: Span) {
    }

    proof fn lemma_widen(v: ConditionalRequirementAstView, a: Span, b: Span) {
        v.lemma_widen(a, b);
    }

    fn create(name: String) -> (r: Self) {
        let r = ConditionalRequirementAst { condition: name, then_required: Vec::new() };
        assert(r.then_required.deep_view() =~= Seq::empty());
        r
    }

    fn set_field(&mut self, entries: &Vec<Entry>, j: usize, next: usize, ext: Span) -> (r: Result<
        Span,
        ParseFault,
    >) {
        match &entries[j].key {
            None => Err(ParseFault::new(ParseErrorKind::ExpectedKey, entries[j].span)),
            Some(k) => {
                let key = k.value.as_str();
                let fe = entry_extent(&entries[j]);
                if str_eq(key, "condition") {
                    match scalar(entries, j, next) {
                        Ok(x) => {
                            let e = ext.merge(&fe);
                            proof {
                                lemma_merge_covers(ext, fe);
                                if old(self).deep_view().within(ext) {
                                    old(self).deep_view().lemma_widen(ext, e);
                                }
                            }
                            self.condition = x.value;
                            Ok(e)
                        },
                        Err(f) => Err(f),
                    }
                } else if str_eq(key, "then_required") {
                    match list(entries, j, next) {
                        Ok((x, le)) => {
                            let e = ext.merge(&le);
                            proof {
                                lemma_merge_covers(ext, le);
                                lemma_list_widen(x.deep_view(), le, e);
                            }
                            self.then_required = x;
                            Ok(e)
                        },
                        Err(f) => Err(f),
                    }
                } else {
                    let e = ext.merge(&fe);
                    proof {
                        lemma_merge_covers(ext, fe);
                        if old(self).deep_view().within(ext) {
                            old(self).deep_view().lemma_widen(ext, e);
                        }
                    }
                    Ok(e)
                }
            },
        }
    }
}

impl Node for RecursionOptionsAst {
    open spec fn spec_create(name: Seq<char>) -> RecursionOptionsAstView {
        RecursionOptionsAstView { use_box: false, max_depth: None }
    }

    open spec fn spec_within(v: RecursionOptionsAstView, outer: Span) -> bool {
        true
    }

    open spec fn spec_field(
        acc: RecursionOptionsAstView,
        entries: Seq<EntryView>,
        j: int,
        next: int,
    ) -> Result<(RecursionOptionsAstView, Span), ParseFault> {
        let key = entries[j].key->0.value;
        if key == "use_box"@ {
            match spec_boolean(entries, j, next) {
                Ok(x) => Ok(
                    (
                        RecursionOptionsAstView { use_box: x.value, ..acc },
                        spec_entry_extent(entries[j]),
                    ),
                ),
                Err(f) => Err(f),
            }
        } else if key == "max_depth"@ {
            match spec_integer(entries, j, next) {
                Ok(x) => Ok(
                    (
                        RecursionOptionsAstView { max_depth: Some(x.value), ..acc },
                        spec_entry_extent(entries[j]),
                    ),
                ),
                Err(f) => Err(f),
            }
        } else {
            Ok((acc, spec_entry_extent(entries[j])))
        }
    }

    proof fn lemma_create_within(name: Seq<char>, outer: Span) {
    }

    proof fn lemma_widen(v: RecursionOptionsAstView, a: Span, b: Span) {
    }

    fn create(name: String) -> (r: Self) {
        RecursionOptionsAst { use_box: false, max_depth: None }
    }

    fn set_field(&mut self, entries: &Vec<Entry>, j: usize, next: usize, ext: Span) -> (r: Result<
        Span,
        ParseFault,
    >) {
        match &entries[j].key {
            None => Err(ParseFault::new(ParseErrorKind::ExpectedKey, entries[j].span)),
            Some(k) => {
                let key = k.value.as_str();
                let fe = entry_extent(&entries[j]);
                if str_eq(key, "use_box") {
                    match boolean(entries, j, next) {
                        Ok(x) => {
                            self.use_box = x.value;
                            Ok(ext.merge(&fe))
                        },
                        Err(f) => Err(f),
                    }
                } else if str_eq(key, "max_depth") {
                    match integer(entries, j, next) {
                        Ok(x) => {
                            self.max_depth = Some(x.value);
                            Ok(ext.merge(&fe))
                        },
                        Err(f) => Err(f),
                    }
                } else {
                    Ok(ext.merge(&fe))
                }
            },
        }
    }
}

impl Node for UniqueKeyAst {
    open spec fn spec_create(name: Seq<char>) -> UniqueKeyAstView {
        UniqueKeyAstView::named(name)
    }

    open spec fn spec_within(v: UniqueKeyAstView, outer: Span) -> bool {
        v.within(outer)
    }

    open spec fn spec_field(acc: UniqueKeyAstView, entries: Seq<EntryView>, j: int, next: int) -> Result<
        (UniqueKeyAstView, Span),
        ParseFault,
    > {
        let key = entries[j].key->0.value;
        let fe = spec_entry_extent(entries[j]);
        if key == "unique_key_slots"@ {
            match spec_list(entries, j, next) {
                Ok((x, e)) => Ok((UniqueKeyAstView { unique_key_slots: x, ..acc }, e)),
                Err(f) => Err(f),
            }
        } else {
            Ok((acc, fe))
        }
    }

    proof fn lemma_create_within(name: Seq<char>, outer: Span) {
    }

    proof fn lemma_widen(v: UniqueKeyAstView, a: Span, b: Span) {
        v.lemma_widen(a, b);
    }

    fn create(name: String) -> (r: Self) {
        UniqueKeyAst::named(name)
    }

    #[verifier::rlimit(60)]
    fn set_field(&mut self, entries: &Vec<Entry>, j: usize, next: usize, ext: Span) -> (r: Result<
        Span,
        ParseFault,
    >) {
        match &entries[j].key {
            None => Err(ParseFault::new(ParseErrorKind::ExpectedKey, entries[j].span)),
            Some(k) => {
                let key = k.value.as_str();
                let fe = entry_extent(&entries[j]);
                if str_eq(key, "unique_key_slots") {
                    match list(entries, j, next) {
                        Ok((x, le)) => {
                            let e = ext.merge(&le);
                            proof {
                                lemma_merge_covers(ext, le);
                                if old(self).deep_view().within(ext) {
                                    old(self).deep_view().lemma_widen(ext, e);
                                    lemma_list_widen(x.deep_view(), le, e);
                                }
                            }
                            self.unique_key_slots = x;
                            Ok(e)
                        },
                        Err(f) => Err(f),
                    }
                } else {
                    let e = ext.merge(&fe);
                    proof {
                        lemma_merge_covers(ext, fe);
                        if old(self).deep_view().within(ext) {
                            old(self).deep_view().lemma_widen(ext, e);
                        }
                    }
                    Ok(e)
                }
            },
        }
    }
}

impl Node for RuleAst {
    open spec fn spec_create(name: Seq<char>) -> RuleAstView {
        RuleAstView::empty()
    }

    open spec fn spec_within(v: RuleAstView, outer: Span) -> bool {
        v.within(outer)
    }

    open spec fn spec_field(acc: RuleAstView, entries: Seq<EntryView>, j: int, next: int) -> Result<
        (RuleAstView, Span),
        ParseFault,
    > {
        let key = entries[j].key->0.value;
        let fe = spec_entry_extent(entries[j]);
        if key == "preconditions"@ {
            match spec_string_map(entries, j, next, true) {
                Ok((x, e)) => Ok((RuleAstView { preconditions: x, ..acc }, e)),
                Err(f) => Err(f),
            }
        } else if key == "postconditions"@ {
            match spec_string_map(entries, j, next, true) {
                Ok((x, e)) => Ok((RuleAstView { postconditions: x, ..acc }, e)),
                Err(f) => Err(f),
            }
        } else {
            Ok((acc, fe))
        }
    }

    proof fn lemma_create_within(name: Seq<char>, outer: Span) {
    }

    proof fn lemma_widen(v: RuleAstView, a: Span, b: Span) {
        v.lemma_widen(a, b);
    }

    fn create(name: String) -> (r: Self) {
        RuleAst::new()
    }

    #[verifier::rlimit(60)]
    fn set_field(&mut self, entries: &Vec<Entry>, j: usize, next: usize, ext: Span) -> (r: Result<
        Span,
        ParseFault,
    >) {
        match &entries[j].key {
            None => Err(ParseFault::new(ParseErrorKind::ExpectedKey, entries[j].span)),
            Some(k) => {
                let key = k.value.as_str();
                let fe = entry_extent(&entries[j]);
                if str_eq(key, "preconditions") {
                    match string_map(entries, j, next, true) {
                        Ok((x, le)) => {
                            let e = ext.merge(&le);
                            proof {
                                lemma_merge_covers(ext, le);
                                if old(self).deep_view().within(ext) {
                                    old(self).deep_view().lemma_widen(ext, e);
                                    lemma_pairs_widen(x.deep_view(), le, e);
                                }
                            }
                            self.preconditions = x;
                            Ok(e)
                        },
                        Err(f) => Err(f),
                    }
                } else if str_eq(key, "postconditions") {
                    match string_map(entries, j, next, true) {
                        Ok((x, le)) => {
                            let e = ext.merge(&le);
                            proof {
                                lemma_merge_covers(ext, le);
                                if old(self).deep_view().within(ext) {
                                    old(self).deep_view().lemma_widen(ext, e);
                                    lemma_pairs_widen(x.deep_view(), le, e);
                                }
                            }
                            self.postconditions = x;
                            Ok(e)
                        },
                        Err(f) => Err(f),
                    }
                } else {
                    let e = ext.merge(&fe);
                    proof {
                        lemma_merge_covers(ext, fe);
                        if old(self).deep_view().within(ext) {
                            old(self).deep_view().lemma_widen(ext, e);
                        }
                    }
                    Ok(e)
                }
            },
        }
    }
}

impl Node for SubsetAst {
    open spec fn spec_create(name: Seq<char>) -> SubsetAstView {
        SubsetAstView::named(name)
    }

    open spec fn spec_within(v: SubsetAstView, outer: Span) -> bool {
        v.within(outer)
    }

    open spec fn spec_field(acc: SubsetAstView, entries: Seq<EntryView>, j: int, next: int) -> Result<
        (SubsetAstView, Span),
        ParseFault,
    > {
        let key = entries[j].key->0.value;
        let fe = spec_entry_extent(entries[j]);
        if key == "description"@ {
            match spec_description(entries, j, next) {
                Ok(x) => Ok((SubsetAstView { description: Some(x), ..acc }, fe)),
                Err(f) => Err(f),
            }
        } else if key == "annotations"@ {
            match spec_nested::<AnnotationsAst>(entries, j, next) {
                Ok((x, e)) => Ok((SubsetAstView { annotations: Some(x), ..acc }, e)),
                Err(f) => Err(f),
            }
        } else {
            Ok((acc, fe))
        }
    }

    proof fn lemma_create_within(name: Seq<char>, outer: Span) {
    }

    proof fn lemma_widen(v: SubsetAstView, a: Span, b: Span) {
        v.lemma_widen(a, b);
    }

    fn create(name: String) -> (r: Self) {
        SubsetAst::named(name)
    }

    #[verifier::rlimit(60)]
    fn set_field(&mut self, entries: &Vec<Entry>, j: usize, next: usize, ext: Span) -> (r: Result<
        Span,
        ParseFault,
    >) {
        match &entries[j].key {
            None => Err(ParseFault::new(ParseErrorKind::ExpectedKey, entries[j].span)),
            Some(k) => {
                let key = k.value.as_str();
                let fe = entry_extent(&entries[j]);
                if str_eq(key, "description") {
                    match description(entries, j, next) {
                        Ok(x) => {
                            let e = ext.merge(&fe);
                            proof {
                                lemma_merge_covers(ext, fe);
                                if old(self).deep_view().within(ext) {
                                    old(self).deep_view().lemma_widen(ext, e);
                                    lemma_covers_order(e, fe, x.span);
                                }
                            }
                            self.description = Some(x);
                            Ok(e)
                        },
                        Err(f) => Err(f),
                    }
                } else if str_eq(key, "annotations") {
                    match nested::<AnnotationsAst>(entries, j, next) {
                        Ok((x, le)) => {
                            let e = ext.merge(&le);
                            proof {
                                lemma_merge_covers(ext, le);
                                if old(self).deep_view().within(ext) {
                                    old(self).deep_view().lemma_widen(ext, e);
                                    lemma_covers_order(e, le, x.span);
                                }
                            }
                            self.annotations = Some(x);
                            Ok(e)
                        },
                        Err(f) => Err(f),
                    }
                } else {
                    let e = ext.merge(&fe);
                    proof {
                        lemma_merge_covers(ext, fe);
                        if old(self).deep_view().within(ext) {
                            old(self).deep_view().lemma_widen(ext, e);
                        }
                    }
                    Ok(e)
                }
            },
        }
    }
}

impl Node for PermissibleValueAst {
    open spec fn spec_create(name: Seq<char>) -> PermissibleValueAstView {
        PermissibleValueAstView::named(name)
    }

    open spec fn spec_within(v: PermissibleValueAstView, outer: Span) -> bool {
        v.within(outer)
    }

    open spec fn spec_field(acc: PermissibleValueAstView, entries: Seq<EntryView>, j: int, next: int) -> Result<
        (PermissibleValueAstView, Span),
        ParseFault,
    > {
        let key = entries[j].key->0.value;
        let fe = spec_entry_extent(entries[j]);
        if key == "description"@ {
            match spec_description(entries, j, next) {
                Ok(x) => Ok((PermissibleValueAstView { description: Some(x), ..acc }, fe)),
                Err(f) => Err(f),
            }
        } else if key == "meaning"@ {
            match spec_scalar(entries, j, next) {
                Ok(x) => Ok((PermissibleValueAstView { meaning: Some(x), ..acc }, fe)),
                Err(f) => Err(f),
            }
        } else if key == "aliases"@ {
            match spec_list(entries, j, next) {
                Ok((x, e)) => Ok((PermissibleValueAstView { aliases: x, ..acc }, e)),
                Err(f) => Err(f),
            }
        } else if key == "see_also"@ {
            match spec_list(entries, j, next) {
                Ok((x, e)) => Ok((PermissibleValueAstView { see_also: x, ..acc }, e)),
                Err(f) => Err(f),
            }
        } else {
            Ok((acc, fe))
        }
    }

    proof fn lemma_create_within(name: Seq<char>, outer: Span) {
    }

    proof fn lemma_widen(v: PermissibleValueAstView, a: Span, b: Span) {
        v.lemma_widen(a, b);
    }

    fn create(name: String) -> (r: Self) {
        PermissibleValueAst::named(name)
    }

    #[verifier::rlimit(60)]
    fn set_field(&mut self, entries: &Vec<Entry>, j: usize, next: usize, ext: Span) -> (r: Result<
        Span,
        ParseFault,
    >) {
        match &entries[j].key {
            None => Err(ParseFault::new(ParseErrorKind::ExpectedKey, entries[j].span)),
            Some(k) => {
                let key = k.value.as_str();
                let fe = entry_extent(&entries[j]);
                if str_eq(key, "description") {
                    match description(entries, j, next) {
                        Ok(x) => {
                            let e = ext.merge(&fe);
                            proof {
                                lemma_merge_covers(ext, fe);
                                if old(self).deep_view().within(ext) {
                                    old(self).deep_view().lemma_widen(ext, e);
                                    lemma_covers_order(e, fe, x.span);
                                }
                            }
                            self.description = Some(x);
                            Ok(e)
                        },
                        Err(f) => Err(f),
                    }
                } else if str_eq(key, "meaning") {
                    match scalar(entries, j, next) {
                        Ok(x) => {
                            let e = ext.merge(&fe);
                            proof {
                                lemma_merge_covers(ext, fe);
                                if old(self).deep_view().within(ext) {
                                    old(self).deep_view().lemma_widen(ext, e);
                                    lemma_covers_order(e, fe, x.span);
                                }
                            }
                            self.meaning = Some(x);
                            Ok(e)
                        },
                        Err(f) => Err(f),
                    }
                } else if str_eq(key, "aliases") {
                    match list(entries, j, next) {
                        Ok((x, le)) => {
                            let e = ext.merge(&le);
                            proof {
                                lemma_merge_covers(ext, le);
                                if old(self).deep_view().within(ext) {
                                    old(self).deep_view().lemma_widen(ext, e);
                                    lemma_list_widen(x.deep_view(), le, e);
                                }
                            }
                            self.aliases = x;
                            Ok(e)
                        },
                        Err(f) => Err(f),
                    }
                } else if str_eq(key, "see_also") {
                    match list(entries, j, next) {
                        Ok((x, le)) => {
                            let e = ext.merge(&le);
                            proof {
                                lemma_merge_covers(ext, le);
                                if old(self).deep_view().within(ext) {
                                    old(self).deep_view().lemma_widen(ext, e);
                                    lemma_list_widen(x.deep_view(), le, e);
                                }
                            }
                            self.see_also = x;
                            Ok(e)
                        },
                        Err(f) => Err(f),
                    }
                } else {
                    let e = ext.merge(&fe);
                    proof {
                        lemma_merge_covers(ext, fe);
                        if old(self).deep_view().within(ext) {
                            old(self).deep_view().lemma_widen(ext, e);
                        }
                    }
                    Ok(e)
                }
            },
        }
    }
}

impl Node for EnumAst {
    open spec fn spec_create(name: Seq<char>) -> EnumAstView {
        EnumAstView::named(name)
    }

    open spec fn spec_within(v: EnumAstView, outer: Span) -> bool {
        v.within(outer)
    }

    open spec fn spec_field(acc: EnumAstView, entries: Seq<EntryView>, j: int, next: int) -> Result<
        (EnumAstView, Span),
        ParseFault,
    > {
        let key = entries[j].key->0.value;
        let fe = spec_entry_extent(entries[j]);
        if key == "description"@ {
            match spec_description(entries, j, next) {
                Ok(x) => Ok((EnumAstView { description: Some(x), ..acc }, fe)),
                Err(f) => Err(f),
            }
        } else if key == "permissible_values"@ {
            match spec_node_map::<PermissibleValueAst>(entries, j, next) {
                Ok((x, e)) => Ok((EnumAstView { permissible_values: x, ..acc }, e)),
                Err(f) => Err(f),
            }
        } else if key == "code_set"@ {
            match spec_scalar(entries, j, next) {
                Ok(x) => Ok((EnumAstView { code_set: Some(x), ..acc }, fe)),
                Err(f) => Err(f),
            }
        } else if key == "code_set_tag"@ {
            match spec_scalar(entries, j, next) {
                Ok(x) => Ok((EnumAstView { code_set_tag: Some(x), ..acc }, fe)),
                Err(f) => Err(f),
            }
        } else if key == "code_set_version"@ {
            match spec_scalar(entries, j, next) {
                Ok(x) => Ok((EnumAstView { code_set_version: Some(x), ..acc }, fe)),
                Err(f) => Err(f),
            }
        } else if key == "annotations"@ {
            match spec_nested::<AnnotationsAst>(entries, j, next) {
                Ok((x, e)) => Ok((EnumAstView { annotations: Some(x), ..acc }, e)),
                Err(f) => Err(f),
            }
        } else {
            Ok((acc, fe))
        }
    }

    proof fn lemma_create_within(name: Seq<char>, outer: Span) {
    }

    proof fn lemma_widen(v: EnumAstView, a: Span, b: Span) {
        v.lemma_widen(a, b);
    }

    fn create(name: String) -> (r: Self) {
        EnumAst::named(name)
    }

    #[verifier::rlimit(60)]
    fn set_field(&mut self, entries: &Vec<Entry>, j: usize, next: usize, ext: Span) -> (r: Result<
        Span,
        ParseFault,
    >) {
        match &entries[j].key {
            None => Err(ParseFault::new(ParseErrorKind::ExpectedKey, entries[j].span)),
            Some(k) => {
                let key = k.value.as_str();
                let fe = entry_extent(&entries[j]);
                if str_eq(key, "description") {
                    match description(entries, j, next) {
                        Ok(x) => {
                            let e = ext.merge(&fe);
                            proof {
                                lemma_merge_covers(ext, fe);
                                if old(self).deep_view().within(ext) {
                                    old(self).deep_view().lemma_widen(ext, e);
                                    lemma_covers_order(e, fe, x.span);
                                }
                            }
                            self.description = Some(x);
                            Ok(e)
                        },
                        Err(f) => Err(f),
                    }
                } else if str_eq(key, "permissible_values") {
                    match node_map::<PermissibleValueAst>(entries, j, next) {
                        Ok((x, le)) => {
                            let e = ext.merge(&le);
                            proof {
                                lemma_merge_covers(ext, le);
                                if old(self).deep_view().within(ext) {
                                    old(self).deep_view().lemma_widen(ext, e);
                                    lemma_pairs_widen(x.deep_view(), le, e);
                                }
                            }
                            self.permissible_values = x;
                            Ok(e)
                        },
                        Err(f) => Err(f),
                    }
                } else if str_eq(key, "code_set") {
                    match scalar(entries, j, next) {
                        Ok(x) => {
                            let e = ext.merge(&fe);
                            proof {
                                lemma_merge_covers(ext, fe);
                                if old(self).deep_view().within(ext) {
                                    old(self).deep_view().lemma_widen(ext, e);
                                    lemma_covers_order(e, fe, x.span);
                                }
                            }
                            self.code_set = Some(x);
                            Ok(e)
                        },
                        Err(f) => Err(f),
                    }
                } else if str_eq(key, "code_set_tag") {
                    match scalar(entries, j, next) {
                        Ok(x) => {
                            let e = ext.merge(&fe);
                            proof {
                                lemma_merge_covers(ext, fe);
                                if old(self).deep_view().within(ext) {
                                    old(self).deep_view().lemma_widen(ext, e);
                                    lemma_covers_order(e, fe, x.span);
                                }
                            }
                            self.code_set_tag = Some(x);
                            Ok(e)
                        },
                        Err(f) => Err(f),
                    }
                } else if str_eq(key, "code_set_version") {
                    match scalar(entries, j, next) {
                        Ok(x) => {
                            let e = ext.merge(&fe);
                            proof {
                                lemma_merge_covers(ext, fe);
                                if old(self).deep_view().within(ext) {
                                    old(self).deep_view().lemma_widen(ext, e);
                                    lemma_covers_order(e, fe, x.span);
                                }
                            }
                            self.code_set_version = Some(x);
                            Ok(e)
                        },
                        Err(f) => Err(f),
                    }
                } else if str_eq(key, "annotations") {
                    match nested::<AnnotationsAst>(entries, j, next) {
                        Ok((x, le)) => {
                            let e = ext.merge(&le);
                            proof {
                                lemma_merge_covers(ext, le);
                                if old(self).deep_view().within(ext) {
                                    old(self).deep_view().lemma_widen(ext, e);
                                    lemma_covers_order(e, le, x.span);
                                }
                            }
                            self.annotations = Some(x);
                            Ok(e)
                        },
                        Err(f) => Err(f),
                    }
                } else {
                    let e = ext.merge(&fe);
                    proof {
                        lemma_merge_covers(ext, fe);
                        if old(self).deep_view().within(ext) {
                            old(self).deep_view().lemma_widen(ext, e);
                        }
                    }
                    Ok(e)
                }
            },
        }
    }
}

impl Node for TypeAst {
    open spec fn spec_create(name: Seq<char>) -> TypeAstView {
        TypeAstView::named(name)
    }

    open spec fn spec_within(v: TypeAstView, outer: Span) -> bool {
        v.within(outer)
    }

    open spec fn spec_field(acc: TypeAstView, entries: Seq<EntryView>, j: int, next: int) -> Result<
        (TypeAstView, Span),
        ParseFault,
    > {
        let key = entries[j].key->0.value;
        let fe = spec_entry_extent(entries[j]);
        if key == "description"@ {
            match spec_description(entries, j, next) {
                Ok(x) => Ok((TypeAstView { description: Some(x), ..acc }, fe)),
                Err(f) => Err(f),
            }
        } else if key == "typeof"@ {
            match spec_scalar(entries, j, next) {
                Ok(x) => Ok((TypeAstView { typeof_: Some(x), ..acc }, fe)),
                Err(f) => Err(f),
            }
        } else if key == "base"@ {
            match spec_scalar(entries, j, next) {
                Ok(x) => Ok((TypeAstView { base: Some(x), ..acc }, fe)),
                Err(f) => Err(f),
            }
        } else if key == "uri"@ {
            match spec_scalar(entries, j, next) {
                Ok(x) => Ok((TypeAstView { uri: Some(x), ..acc }, fe)),
                Err(f) => Err(f),
            }
        } else if key == "pattern"@ {
            match spec_unquoted(entries, j, next) {
                Ok(x) => Ok((TypeAstView { pattern: Some(x), ..acc }, fe)),
                Err(f) => Err(f),
            }
        } else if key == "minimum_value"@ {
            match spec_value(entries, j, next) {
                Ok(x) => Ok((TypeAstView { minimum_value: Some(x), ..acc }, fe)),
                Err(f) => Err(f),
            }
        } else if key == "maximum_value"@ {
            match spec_value(entries, j, next) {
                Ok(x) => Ok((TypeAstView { maximum_value: Some(x), ..acc }, fe)),
                Err(f) => Err(f),
            }
        } else if key == "annotations"@ {
            match spec_nested::<AnnotationsAst>(entries, j, next) {
                Ok((x, e)) => Ok((TypeAstView { annotations: Some(x), ..acc }, e)),
                Err(f) => Err(f),
            }
        } else {
            Ok((acc, fe))
        }
    }

    proof fn lemma_create_within(name: Seq<char>, outer: Span) {
    }

    proof fn lemma_widen(v: TypeAstView, a: Span, b: Span) {
        v.lemma_widen(a, b);
    }

    fn create(name: String) -> (r: Self) {
        TypeAst::named(name)
    }

    #[verifier::rlimit(60)]
    fn set_field(&mut self, entries: &Vec<Entry>, j: usize, next: usize, ext: Span) -> (r: Result<
        Span,
        ParseFault,
    >) {
        match &entries[j].key {
            None => Err(ParseFault::new(ParseErrorKind::ExpectedKey, entries[j].span)),
            Some(k) => {
                let key = k.value.as_str();
                let fe = entry_extent(&entries[j]);
                if str_eq(key, "description") {
                    match description(entries, j, next) {
                        Ok(x) => {
                            let e = ext.merge(&fe);
                            proof {
                                lemma_merge_covers(ext, fe);
                                if old(self).deep_view().within(ext) {
                                    old(self).deep_view().lemma_widen(ext, e);
                                    lemma_covers_order(e, fe, x.span);
                                }
                            }
                            self.description = Some(x);
                            Ok(e)
                        },
                        Err(f) => Err(f),
                    }
                } else if str_eq(key, "typeof") {
                    match scalar(entries, j, next) {
                        Ok(x) => {
                            let e = ext.merge(&fe);
                            proof {
                                lemma_merge_covers(ext, fe);
                                if old(self).deep_view().within(ext) {
                                    old(self).deep_view().lemma_widen(ext, e);
                                    lemma_covers_order(e, fe, x.span);
                                }
                            }
                            self.typeof_ = Some(x);
                            Ok(e)
                        },
                        Err(f) => Err(f),
                    }
                } else if str_eq(key, "base") {
                    match scalar(entries, j, next) {
                        Ok(x) => {
                            let e = ext.merge(&fe);
                            proof {
                                lemma_merge_covers(ext, fe);
                                if old(self).deep_view().within(ext) {
                                    old(self).deep_view().lemma_widen(ext, e);
                                    lemma_covers_order(e, fe, x.span);
                                }
                            }
                            self.base = Some(x);
                            Ok(e)
                        },
                        Err(f) => Err(f),
                    }
                } else if str_eq(key, "uri") {
                    match scalar(entries, j, next) {
                        Ok(x) => {
                            let e = ext.merge(&fe);
                            proof {
                                lemma_merge_covers(ext, fe);
                                if old(self).deep_view().within(ext) {
                                    old(self).deep_view().lemma_widen(ext, e);
                                    lemma_covers_order(e, fe, x.span);
                                }
                            }
                            self.uri = Some(x);
                            Ok(e)
                        },
                        Err(f) => Err(f),
                    }
                } else if str_eq(key, "pattern") {
                    match unquoted(entries, j, next) {
                        Ok(x) => {
                            let e = ext.merge(&fe);
                            proof {
                                lemma_merge_covers(ext, fe);
                                if old(self).deep_view().within(ext) {
                                    old(self).deep_view().lemma_widen(ext, e);
                                    lemma_covers_order(e, fe, x.span);
                                }
                            }
                            self.pattern = Some(x);
                            Ok(e)
                        },
                        Err(f) => Err(f),
                    }
                } else if str_eq(key, "minimum_value") {
                    match value(entries, j, next) {
                        Ok(x) => {
                            let e = ext.merge(&fe);
                            proof {
                                lemma_merge_covers(ext, fe);
                                if old(self).deep_view().within(ext) {
                                    old(self).deep_view().lemma_widen(ext, e);
                                    lemma_covers_order(e, fe, x.span);
                                }
                            }
                            self.minimum_value = Some(x);
                            Ok(e)
                        },
                        Err(f) => Err(f),
                    }
                } else if str_eq(key, "maximum_value") {
                    match value(entries, j, next) {
                        Ok(x) => {
                            let e = ext.merge(&fe);
                            proof {
                                lemma_merge_covers(ext, fe);
                                if old(self).deep_view().within(ext) {
                                    old(self).deep_view().lemma_widen(ext, e);
                                    lemma_covers_order(e, fe, x.span);
                                }
                            }
                            self.maximum_value = Some(x);
                            Ok(e)
                        },
                        Err(f) => Err(f),
                    }
                } else if str_eq(key, "annotations") {
                    match nested::<AnnotationsAst>(entries, j, next) {
                        Ok((x, le)) => {
                            let e = ext.merge(&le);
                            proof {
                                lemma_merge_covers(ext, le);
                                if old(self).deep_view().within(ext) {
                                    old(self).deep_view().lemma_widen(ext, e);
                                    lemma_covers_order(e, le, x.span);
                                }
                            }
                            self.annotations = Some(x);
                            Ok(e)
                        },
                        Err(f) => Err(f),
                    }
                } else {
                    let e = ext.merge(&fe);
                    proof {
                        lemma_merge_covers(ext, fe);
                        if old(self).deep_view().within(ext) {
                            old(self).deep_view().lemma_widen(ext, e);
                        }
                    }
                    Ok(e)
                }
            },
        }
    }
}

impl SlotAst {
    /// What reading the field at entry `j` does, if its key is one of the
    /// keys of this group.
    pub open spec fn spec_field_0(acc: SlotAstView, entries: Seq<EntryView>, j: int, next: int) -> Option<
        Result<(SlotAstView, Span), ParseFault>,
    > {
        let key = entries[j].key->0.value;
        let fe = spec_entry_extent(entries[j]);
        if key == "description"@ {
            match spec_description(entries, j, next) {
                Ok(x) => Some(Ok((SlotAstView { description: Some(x), ..acc }, fe))),
                Err(f) => Some(Err(f)),
            }
        } else if key == "range"@ {
            match spec_scalar(entries, j, next) {
                Ok(x) => Some(Ok((SlotAstView { range: Some(x), ..acc }, fe))),
                Err(f) => Some(Err(f)),
            }
        } else if key == "range_type"@ {
            match spec_range_type(entries, j, next) {
                Ok(x) => Some(Ok((SlotAstView { range_type: Some(x), ..acc }, fe))),
                Err(f) => Some(Err(f)),
            }
        } else if key == "range_properties"@ {
            match spec_list(entries, j, next) {
                Ok((x, e)) => Some(Ok((SlotAstView { range_properties: x, ..acc }, e))),
                Err(f) => Some(Err(f)),
            }
        } else if key == "required"@ {
            match spec_boolean(entries, j, next) {
                Ok(x) => Some(Ok((SlotAstView { required: Some(x), ..acc }, fe))),
                Err(f) => Some(Err(f)),
            }
        } else if key == "multivalued"@ {
            match spec_boolean(entries, j, next) {
                Ok(x) => Some(Ok((SlotAstView { multivalued: Some(x), ..acc }, fe))),
                Err(f) => Some(Err(f)),
            }
        } else if key == "identifier"@ {
            match spec_boolean(entries, j, next) {
                Ok(x) => Some(Ok((SlotAstView { identifier: Some(x), ..acc }, fe))),
                Err(f) => Some(Err(f)),
            }
        } else if key == "pattern"@ {
            match spec_unquoted(entries, j, next) {
                Ok(x) => Some(Ok((SlotAstView { pattern: Some(x), ..acc }, fe))),
                Err(f) => Some(Err(f)),
            }
        } else if key == "structured_pattern"@ {
            match spec_nested::<StructuredPatternAst>(entries, j, next) {
                Ok((x, e)) => Some(Ok((SlotAstView { structured_pattern: Some(x), ..acc }, e))),
                Err(f) => Some(Err(f)),
            }
        } else if key == "minimum_value"@ {
            match spec_value(entries, j, next) {
                Ok(x) => Some(Ok((SlotAstView { minimum_value: Some(x), ..acc }, fe))),
                Err(f) => Some(Err(f)),
            }
        } else if key == "maximum_value"@ {
            match spec_value(entries, j, next) {
                Ok(x) => Some(Ok((SlotAstView { maximum_value: Some(x), ..acc }, fe))),
                Err(f) => Some(Err(f)),
            }
        } else {
            None
        }
    }

    /// Reads the field at entry `j`, if its key is one of the keys of this
    /// group.
    #[verifier::rlimit(60)]
    fn set_field_0(&mut self, entries: &Vec<Entry>, j: usize, next: usize, ext: Span) -> (r: Option<
        Result<Span, ParseFault>,
    >)
        requires
            j < next <= entries.len(),
            entries.deep_view()[j as int].key is Some,
        ensures
            match Self::spec_field_0(
                old(self).deep_view(),
                entries.deep_view(),
                j as int,
                next as int,
            ) {
                Some(Ok((v, fe))) => r matches Some(Ok(e)) && e == ext.spec_merge(fe)
                    && final(self).deep_view() == v,
                Some(Err(f)) => r matches Some(Err(g)) && g == f,
                None => r is None && final(self).deep_view() == old(self).deep_view(),
            },
            r matches Some(Ok(e)) ==> (old(self).deep_view().within(ext)
                ==> final(self).deep_view().within(e)),
    {
        match &entries[j].key {
            None => None,
            Some(k) => {
                let key = k.value.as_str();
                let fe = entry_extent(&entries[j]);
                if str_eq(key, "description") {
                    match description(entries, j, next) {
                        Ok(x) => {
                            let e = ext.merge(&fe);
                            proof {
                                lemma_merge_covers(ext, fe);
                                if old(self).deep_view().within(ext) {
                                    old(self).deep_view().lemma_widen(ext, e);
                                    lemma_covers_order(e, fe, x.span);
                                }
                            }
                            self.description = Some(x);
                            Some(Ok(e))
                        },
                        Err(f) => Some(Err(f)),
                    }
                } else if str_eq(key, "range") {
                    match scalar(entries, j, next) {
                        Ok(x) => {
                            let e = ext.merge(&fe);
                            proof {
                                lemma_merge_covers(ext, fe);
                                if old(self).deep_view().within(ext) {
                                    old(self).deep_view().lemma_widen(ext, e);
                                    lemma_covers_order(e, fe, x.span);
                                }
                            }
                            self.range = Some(x);
                            Some(Ok(e))
                        },
                        Err(f) => Some(Err(f)),
                    }
                } else if str_eq(key, "range_type") {
                    match range_type(entries, j, next) {
                        Ok(x) => {
                            let e = ext.merge(&fe);
                            proof {
                                lemma_merge_covers(ext, fe);
                                if old(self).deep_view().within(ext) {
                                    old(self).deep_view().lemma_widen(ext, e);
                                    lemma_covers_order(e, fe, x.span);
                                }
                            }
                            self.range_type = Some(x);
                            Some(Ok(e))
                        },
                        Err(f) => Some(Err(f)),
                    }
                } else if str_eq(key, "range_properties") {
                    match list(entries, j, next) {
                        Ok((x, le)) => {
                            let e = ext.merge(&le);
                            proof {
                                lemma_merge_covers(ext, le);
                                if old(self).deep_view().within(ext) {
                                    old(self).deep_view().lemma_widen(ext, e);
                                    lemma_list_widen(x.deep_view(), le, e);
                                }
                            }
                            self.range_properties = x;
                            Some(Ok(e))
                        },
                        Err(f) => Some(Err(f)),
                    }
                } else if str_eq(key, "required") {
                    match boolean(entries, j, next) {
                        Ok(x) => {
                            let e = ext.merge(&fe);
                            proof {
                                lemma_merge_covers(ext, fe);
                                if old(self).deep_view().within(ext) {
                                    old(self).deep_view().lemma_widen(ext, e);
                                    lemma_covers_order(e, fe, x.span);
                                }
                            }
                            self.required = Some(x);
                            Some(Ok(e))
                        },
                        Err(f) => Some(Err(f)),
                    }
                } else if str_eq(key, "multivalued") {
                    match boolean(entries, j, next) {
                        Ok(x) => {
                            let e = ext.merge(&fe);
                            proof {
                                lemma_merge_covers(ext, fe);
                                if old(self).deep_view().within(ext) {
                                    old(self).deep_view().lemma_widen(ext, e);
                                    lemma_covers_order(e, fe, x.span);
                                }
                            }
                            self.multivalued = Some(x);
                            Some(Ok(e))
                        },
                        Err(f) => Some(Err(f)),
                    }
                } else if str_eq(key, "identifier") {
                    match boolean(entries, j, next) {
                        Ok(x) => {
                            let e = ext.merge(&fe);
                            proof {
                                lemma_merge_covers(ext, fe);
                                if old(self).deep_view().within(ext) {
                                    old(self).deep_view().lemma_widen(ext, e);
                                    lemma_covers_order(e, fe, x.span);
                                }
                            }
                            self.identifier = Some(x);
                            Some(Ok(e))
                        },
                        Err(f) => Some(Err(f)),
                    }
                } else if str_eq(key, "pattern") {
                    match unquoted(entries, j, next) {
                        Ok(x) => {
                            let e = ext.merge(&fe);
                            proof {
                                lemma_merge_covers(ext, fe);
                                if old(self).deep_view().within(ext) {
                                    old(self).deep_view().lemma_widen(ext, e);
                                    lemma_covers_order(e, fe, x.span);
                                }
                            }
                            self.pattern = Some(x);
                            Some(Ok(e))
                        },
                        Err(f) => Some(Err(f)),
                    }
                } else if str_eq(key, "structured_pattern") {
                    match nested::<StructuredPatternAst>(entries, j, next) {
                        Ok((x, le)) => {
                            let e = ext.merge(&le);
                            proof {
                                lemma_merge_covers(ext, le);
                                if old(self).deep_view().within(ext) {
                                    old(self).deep_view().lemma_widen(ext, e);
                                    lemma_covers_order(e, le, x.span);
                                }
                            }
                            self.structured_pattern = Some(x);
                            Some(Ok(e))
                        },
                        Err(f) => Some(Err(f)),
                    }
                } else if str_eq(key, "minimum_value") {
                    match value(entries, j, next) {
                        Ok(x) => {
                            let e = ext.merge(&fe);
                            proof {
                                lemma_merge_covers(ext, fe);
                                if old(self).deep_view().within(ext) {
                                    old(self).deep_view().lemma_widen(ext, e);
                                    lemma_covers_order(e, fe, x.span);
                                }
                            }
                            self.minimum_value = Some(x);
                            Some(Ok(e))
                        },
                        Err(f) => Some(Err(f)),
                    }
                } else if str_eq(key, "maximum_value") {
                    match value(entries, j, next) {
                        Ok(x) => {
                            let e = ext.merge(&fe);
                            proof {
                                lemma_merge_covers(ext, fe);
                                if old(self).deep_view().within(ext) {
                                    old(self).deep_view().lemma_widen(ext, e);
                                    lemma_covers_order(e, fe, x.span);
                                }
                            }
                            self.maximum_value = Some(x);
                            Some(Ok(e))
                        },
                        Err(f) => Some(Err(f)),
                    }
                } else {
                    None
                }
            },
        }
    }

    /// What reading the field at entry `j` does, if its key is one of the
    /// keys of this group.
    pub open spec fn spec_field_1(acc: SlotAstView, entries: Seq<EntryView>, j: int, next: int) -> Option<
        Result<(SlotAstView, Span), ParseFault>,
    > {
        let key = entries[j].key->0.value;
        let fe = spec_entry_extent(entries[j]);
        if key == "minimum_cardinality"@ {
            match spec_integer(entries, j, next) {
                Ok(x) => Some(Ok((SlotAstView { minimum_cardinality: Some(x), ..acc }, fe))),
                Err(f) => Some(Err(f)),
            }
        } else if key == "maximum_cardinality"@ {
            match spec_integer(entries, j, next) {
                Ok(x) => Some(Ok((SlotAstView { maximum_cardinality: Some(x), ..acc }, fe))),
                Err(f) => Some(Err(f)),
            }
        } else if key == "is_a"@ {
            match spec_scalar(entries, j, next) {
                Ok(x) => Some(Ok((SlotAstView { is_a: Some(x), ..acc }, fe))),
                Err(f) => Some(Err(f)),
            }
        } else if key == "mixins"@ {
            match spec_list(entries, j, next) {
                Ok((x, e)) => Some(Ok((SlotAstView { mixins: x, ..acc }, e))),
                Err(f) => Some(Err(f)),
            }
        } else if key == "slot_uri"@ {
            match spec_scalar(entries, j, next) {
                Ok(x) => Some(Ok((SlotAstView { slot_uri: Some(x), ..acc }, fe))),
                Err(f) => Some(Err(f)),
            }
        } else if key == "domain"@ {
            match spec_scalar(entries, j, next) {
                Ok(x) => Some(Ok((SlotAstView { domain: Some(x), ..acc }, fe))),
                Err(f) => Some(Err(f)),
            }
        } else if key == "inverse"@ {
            match spec_scalar(entries, j, next) {
                Ok(x) => Some(Ok((SlotAstView { inverse: Some(x), ..acc }, fe))),
                Err(f) => Some(Err(f)),
            }
        } else if key == "symmetric"@ {
            match spec_boolean(entries, j, next) {
                Ok(x) => Some(Ok((SlotAstView { symmetric: Some(x), ..acc }, fe))),
                Err(f) => Some(Err(f)),
            }
        } else if key == "asymmetric"@ {
            match spec_boolean(entries, j, next) {
                Ok(x) => Some(Ok((SlotAstView { asymmetric: Some(x), ..acc }, fe))),
                Err(f) => Some(Err(f)),
            }
        } else if key == "reflexive"@ {
            match spec_boolean(entries, j, next) {
                Ok(x) => Some(Ok((SlotAstView { reflexive: Some(x), ..acc }, fe))),
                Err(f) => Some(Err(f)),
            }
        } else if key == "irreflexive"@ {
            match spec_boolean(entries, j, next) {
                Ok(x) => Some(Ok((SlotAstView { irreflexive: Some(x), ..acc }, fe))),
                Err(f) => Some(Err(f)),
            }
        } else {
            None
        }
    }

    /// Reads the field at entry `j`, if its key is one of the keys of this
    /// group.
    #[verifier::rlimit(60)]
    fn set_field_1(&mut self, entries: &Vec<Entry>, j: usize, next: usize, ext: Span) -> (r: Option<
        Result<Span, ParseFault>,
    >)
        requires
            j < next <= entries.len(),
            entries.deep_view()[j as int].key is Some,
        ensures
            match Self::spec_field_1(
                old(self).deep_view(),
                entries.deep_view(),
                j as int,
                next as int,
            ) {
                Some(Ok((v, fe))) => r matches Some(Ok(e)) && e == ext.spec_merge(fe)
                    && final(self).deep_view() == v,
                Some(Err(f)) => r matches Some(Err(g)) && g == f,
                None => r is None && final(self).deep_view() == old(self).deep_view(),
            },
            r matches Some(Ok(e)) ==> (old(self).deep_view().within(ext)
                ==> final(self).deep_view().within(e)),
    {
        match &entries[j].key {
            None => None,
            Some(k) => {
                let key = k.value.as_str();
                let fe = entry_extent(&entries[j]);
                if str_eq(key, "minimum_cardinality") {
                    match integer(entries, j, next) {
                        Ok(x) => {
                            let e = ext.merge(&fe);
                            proof {
                                lemma_merge_covers(ext, fe);
                                if old(self).deep_view().within(ext) {
                                    old(self).deep_view().lemma_widen(ext, e);
                                    lemma_covers_order(e, fe, x.span);
                                }
                            }
                            self.minimum_cardinality = Some(x);
                            Some(Ok(e))
                        },
                        Err(f) => Some(Err(f)),
                    }
                } else if str_eq(key, "maximum_cardinality") {
                    match integer(entries, j, next) {
                        Ok(x) => {
                            let e = ext.merge(&fe);
                            proof {
                                lemma_merge_covers(ext, fe);
                                if old(self).deep_view().within(ext) {
                                    old(self).deep_view().lemma_widen(ext, e);
                                    lemma_covers_order(e, fe, x.span);
                                }
                            }
                            self.maximum_cardinality = Some(x);
                            Some(Ok(e))
                        },
                        Err(f) => Some(Err(f)),
                    }
                } else if str_eq(key, "is_a") {
                    match scalar(entries, j, next) {
                        Ok(x) => {
                            let e = ext.merge(&fe);
                            proof {
                                lemma_merge_covers(ext, fe);
                                if old(self).deep_view().within(ext) {
                                    old(self).deep_view().lemma_widen(ext, e);
                                    lemma_covers_order(e, fe, x.span);
                                }
                            }
                            self.is_a = Some(x);
                            Some(Ok(e))
                        },
                        Err(f) => Some(Err(f)),
                    }
                } else if str_eq(key, "mixins") {
                    match list(entries, j, next) {
                        Ok((x, le)) => {
                            let e = ext.merge(&le);
                            proof {
                                lemma_merge_covers(ext, le);
                                if old(self).deep_view().within(ext) {
                                    old(self).deep_view().lemma_widen(ext, e);
                                    lemma_list_widen(x.deep_view(), le, e);
                                }
                            }
                            self.mixins = x;
                            Some(Ok(e))
                        },
                        Err(f) => Some(Err(f)),
                    }
                } else if str_eq(key, "slot_uri") {
                    match scalar(entries, j, next) {
                        Ok(x) => {
                            let e = ext.merge(&fe);
                            proof {
                                lemma_merge_covers(ext, fe);
                                if old(self).deep_view().within(ext) {
                                    old(self).deep_view().lemma_widen(ext, e);
                                    lemma_covers_order(e, fe, x.span);
                                }
                            }
                            self.slot_uri = Some(x);
                            Some(Ok(e))
                        },
                        Err(f) => Some(Err(f)),
                    }
                } else if str_eq(key, "domain") {
                    match scalar(entries, j, next) {
                        Ok(x) => {
                            let e = ext.merge(&fe);
                            proof {
                                lemma_merge_covers(ext, fe);
                                if old(self).deep_view().within(ext) {
                                    old(self).deep_view().lemma_widen(ext, e);
                                    lemma_covers_order(e, fe, x.span);
                                }
                            }
                            self.domain = Some(x);
                            Some(Ok(e))
                        },
                        Err(f) => Some(Err(f)),
                    }
                } else if str_eq(key, "inverse") {
                    match scalar(entries, j, next) {
                        Ok(x) => {
                            let e = ext.merge(&fe);
                            proof {
                                lemma_merge_covers(ext, fe);
                                if old(self).deep_view().within(ext) {
                                    old(self).deep_view().lemma_widen(ext, e);
                                    lemma_covers_order(e, fe, x.span);
                                }
                            }
                            self.inverse = Some(x);
                            Some(Ok(e))
                        },
                        Err(f) => Some(Err(f)),
                    }
                } else if str_eq(key, "symmetric") {
                    match boolean(entries, j, next) {
                        Ok(x) => {
                            let e = ext.merge(&fe);
                            proof {
                                lemma_merge_covers(ext, fe);
                                if old(self).deep_view().within(ext) {
                                    old(self).deep_view().lemma_widen(ext, e);
                                    lemma_covers_order(e, fe, x.span);
                                }
                            }
                            self.symmetric = Some(x);
                            Some(Ok(e))
                        },
                        Err(f) => Some(Err(f)),
                    }
                } else if str_eq(key, "asymmetric") {
                    match boolean(entries, j, next) {
                        Ok(x) => {
                            let e = ext.merge(&fe);
                            proof {
                                lemma_merge_covers(ext, fe);
                                if old(self).deep_view().within(ext) {
                                    old(self).deep_view().lemma_widen(ext, e);
                                    lemma_covers_order(e, fe, x.span);
                                }
                            }
                            self.asymmetric = Some(x);
                            Some(Ok(e))
                        },
                        Err(f) => Some(Err(f)),
                    }
                } else if str_eq(key, "reflexive") {
                    match boolean(entries, j, next) {
                        Ok(x) => {
                            let e = ext.merge(&fe);
                            proof {
                                lemma_merge_covers(ext, fe);
                                if old(self).deep_view().within(ext) {
                                    old(self).deep_view().lemma_widen(ext, e);
                                    lemma_covers_order(e, fe, x.span);
                                }
                            }
                            self.reflexive = Some(x);
                            Some(Ok(e))
                        },
                        Err(f) => Some(Err(f)),
                    }
                } else if str_eq(key, "irreflexive") {
                    match boolean(entries, j, next) {
                        Ok(x) => {
                            let e = ext.merge(&fe);
                            proof {
                                lemma_merge_covers(ext, fe);
                                if old(self).deep_view().within(ext) {
                                    old(self).deep_view().lemma_widen(ext, e);
                                    lemma_covers_order(e, fe, x.span);
                                }
                            }
                            self.irreflexive = Some(x);
                            Some(Ok(e))
                        },
                        Err(f) => Some(Err(f)),
                    }
                } else {
                    None
                }
            },
        }
    }

    /// What reading the field at entry `j` does, if its key is one of the
    /// keys of this group.
    pub open spec fn spec_field_2(acc: SlotAstView, entries: Seq<EntryView>, j: int, next: int) -> Option<
        Result<(SlotAstView, Span), ParseFault>,
    > {
        let key = entries[j].key->0.value;
        let fe = spec_entry_extent(entries[j]);
        if key == "locally_reflexive"@ {
            match spec_boolean(entries, j, next) {
                Ok(x) => Some(Ok((SlotAstView { locally_reflexive: Some(x), ..acc }, fe))),
                Err(f) => Some(Err(f)),
            }
        } else if key == "transitive"@ {
            match spec_boolean(entries, j, next) {
                Ok(x) => Some(Ok((SlotAstView { transitive: Some(x), ..acc }, fe))),
                Err(f) => Some(Err(f)),
            }
        } else if key == "ifabsent"@ {
            match spec_unquoted(entries, j, next) {
                Ok(x) => Some(Ok((SlotAstView { ifabsent: Some(x), ..acc }, fe))),
                Err(f) => Some(Err(f)),
            }
        } else if key == "equals_string"@ {
            match spec_unquoted(entries, j, next) {
                Ok(x) => Some(Ok((SlotAstView { equals_string: Some(x), ..acc }, fe))),
                Err(f) => Some(Err(f)),
            }
        } else if key == "equals_number"@ {
            match spec_scalar(entries, j, next) {
                Ok(x) => Some(Ok((SlotAstView { equals_number: Some(x), ..acc }, fe))),
                Err(f) => Some(Err(f)),
            }
        } else if key == "aliases"@ {
            match spec_list(entries, j, next) {
                Ok((x, e)) => Some(Ok((SlotAstView { aliases: x, ..acc }, e))),
                Err(f) => Some(Err(f)),
            }
        } else if key == "see_also"@ {
            match spec_list(entries, j, next) {
                Ok((x, e)) => Some(Ok((SlotAstView { see_also: x, ..acc }, e))),
                Err(f) => Some(Err(f)),
            }
        } else if key == "imports"@ {
            match spec_list(entries, j, next) {
                Ok((x, e)) => Some(Ok((SlotAstView { imports: x, ..acc }, e))),
                Err(f) => Some(Err(f)),
            }
        } else if key == "annotations"@ {
            match spec_nested::<AnnotationsAst>(entries, j, next) {
                Ok((x, e)) => Some(Ok((SlotAstView { annotations: Some(x), ..acc }, e))),
                Err(f) => Some(Err(f)),
            }
        } else {
            None
        }
    }

    /// Reads the field at entry `j`, if its key is one of the keys of this
    /// group.
    #[verifier::rlimit(60)]
    fn set_field_2(&mut self, entries: &Vec<Entry>, j: usize, next: usize, ext: Span) -> (r: Option<
        Result<Span, ParseFault>,
    >)
        requires
            j < next <= entries.len(),
            entries.deep_view()[j as int].key is Some,
        ensures
            match Self::spec_field_2(
                old(self).deep_view(),
                entries.deep_view(),
                j as int,
                next as int,
            ) {
                Some(Ok((v, fe))) => r matches Some(Ok(e)) && e == ext.spec_merge(fe)
                    && final(self).deep_view() == v,
                Some(Err(f)) => r matches Some(Err(g)) && g == f,
                None => r is None && final(self).deep_view() == old(self).deep_view(),
            },
            r matches Some(Ok(e)) ==> (old(self).deep_view().within(ext)
                ==> final(self).deep_view().within(e)),
    {
        match &entries[j].key {
            None => None,
            Some(k) => {
                let key = k.value.as_str();
                let fe = entry_extent(&entries[j]);
                if str_eq(key, "locally_reflexive") {
                    match boolean(entries, j, next) {
                        Ok(x) => {
                            let e = ext.merge(&fe);
                            proof {
                                lemma_merge_covers(ext, fe);
                                if old(self).deep_view().within(ext) {
                                    old(self).deep_view().lemma_widen(ext, e);
                                    lemma_covers_order(e, fe, x.span);
                                }
                            }
                            self.locally_reflexive = Some(x);
                            Some(Ok(e))
                        },
                        Err(f) => Some(Err(f)),
                    }
                } else if str_eq(key, "transitive") {
                    match boolean(entries, j, next) {
                        Ok(x) => {
                            let e = ext.merge(&fe);
                            proof {
                                lemma_merge_covers(ext, fe);
                                if old(self).deep_view().within(ext) {
                                    old(self).deep_view().lemma_widen(ext, e);
                                    lemma_covers_order(e, fe, x.span);
                                }
                            }
                            self.transitive = Some(x);
                            Some(Ok(e))
                        },
                        Err(f) => Some(Err(f)),
                    }
                } else if str_eq(key, "ifabsent") {
                    match unquoted(entries, j, next) {
                        Ok(x) => {
                            let e = ext.merge(&fe);
                            proof {
                                lemma_merge_covers(ext, fe);
                                if old(self).deep_view().within(ext) {
                                    old(self).deep_view().lemma_widen(ext, e);
                                    lemma_covers_order(e, fe, x.span);
                                }
                            }
                            self.ifabsent = Some(x);
                            Some(Ok(e))
                        },
                        Err(f) => Some(Err(f)),
                    }
                } else if str_eq(key, "equals_string") {
                    match unquoted(entries, j, next) {
                        Ok(x) => {
                            let e = ext.merge(&fe);
                            proof {
                                lemma_merge_covers(ext, fe);
                                if old(self).deep_view().within(ext) {
                                    old(self).deep_view().lemma_widen(ext, e);
                                    lemma_covers_order(e, fe, x.span);
                                }
                            }
                            self.equals_string = Some(x);
                            Some(Ok(e))
                        },
                        Err(f) => Some(Err(f)),
                    }
                } else if str_eq(key, "equals_number") {
                    match scalar(entries, j, next) {
                        Ok(x) => {
                            let e = ext.merge(&fe);
                            proof {
                                lemma_merge_covers(ext, fe);
                                if old(self).deep_view().within(ext) {
                                    old(self).deep_view().lemma_widen(ext, e);
                                    lemma_covers_order(e, fe, x.span);
                                }
                            }
                            self.equals_number = Some(x);
                            Some(Ok(e))
                        },
                        Err(f) => Some(Err(f)),
                    }
                } else if str_eq(key, "aliases") {
                    match list(entries, j, next) {
                        Ok((x, le)) => {
                            let e = ext.merge(&le);
                            proof {
                                lemma_merge_covers(ext, le);
                                if old(self).deep_view().within(ext) {
                                    old(self).deep_view().lemma_widen(ext, e);
                                    lemma_list_widen(x.deep_view(), le, e);
                                }
                            }
                            self.aliases = x;
                            Some(Ok(e))
                        },
                        Err(f) => Some(Err(f)),
                    }
                } else if str_eq(key, "see_also") {
                    match list(entries, j, next) {
                        Ok((x, le)) => {
                            let e = ext.merge(&le);
                            proof {
                                lemma_merge_covers(ext, le);
                                if old(self).deep_view().within(ext) {
                                    old(self).deep_view().lemma_widen(ext, e);
                                    lemma_list_widen(x.deep_view(), le, e);
                                }
                            }
                            self.see_also = x;
                            Some(Ok(e))
                        },
                        Err(f) => Some(Err(f)),
                    }
                } else if str_eq(key, "imports") {
                    match list(entries, j, next) {
                        Ok((x, le)) => {
                            let e = ext.merge(&le);
                            proof {
                                lemma_merge_covers(ext, le);
                                if old(self).deep_view().within(ext) {
                                    old(self).deep_view().lemma_widen(ext, e);
                                    lemma_list_widen(x.deep_view(), le, e);
                                }
                            }
                            self.imports = x;
                            Some(Ok(e))
                        },
                        Err(f) => Some(Err(f)),
                    }
                } else if str_eq(key, "annotations") {
                    match nested::<AnnotationsAst>(entries, j, next) {
                        Ok((x, le)) => {
                            let e = ext.merge(&le);
                            proof {
                                lemma_merge_covers(ext, le);
                                if old(self).deep_view().within(ext) {
                                    old(self).deep_view().lemma_widen(ext, e);
                                    lemma_covers_order(e, le, x.span);
                                }
                            }
                            self.annotations = Some(x);
                            Some(Ok(e))
                        },
                        Err(f) => Some(Err(f)),
                    }
                } else {
                    None
                }
            },
        }
    }

}

impl Node for SlotAst {
    open spec fn spec_create(name: Seq<char>) -> SlotAstView {
        SlotAstView::named(name)
    }

    open spec fn spec_within(v: SlotAstView, outer: Span) -> bool {
        v.within(outer)
    }

    open spec fn spec_field(acc: SlotAstView, entries: Seq<EntryView>, j: int, next: int) -> Result<
        (SlotAstView, Span),
        ParseFault,
    > {
        if let Some(r) = Self::spec_field_0(acc, entries, j, next) {
            r
        } else if let Some(r) = Self::spec_field_1(acc, entries, j, next) {
            r
        } else if let Some(r) = Self::spec_field_2(acc, entries, j, next) {
            r
        } else {
            Ok((acc, spec_entry_extent(entries[j])))
        }
    }

    proof fn lemma_create_within(name: Seq<char>, outer: Span) {
    }

    proof fn lemma_widen(v: SlotAstView, a: Span, b: Span) {
        v.lemma_widen(a, b);
    }

    fn create(name: String) -> (r: Self) {
        SlotAst::named(name)
    }

    #[verifier::rlimit(60)]
    fn set_field(&mut self, entries: &Vec<Entry>, j: usize, next: usize, ext: Span) -> (r: Result<
        Span,
        ParseFault,
    >) {
        match self.set_field_0(entries, j, next, ext) {
            Some(r) => {
                return r;
            },
            None => {},
        }
        match self.set_field_1(entries, j, next, ext) {
            Some(r) => {
                return r;
            },
            None => {},
        }
        match self.set_field_2(entries, j, next, ext) {
            Some(r) => {
                return r;
            },
            None => {},
        }
        let fe = entry_extent(&entries[j]);
        let e = ext.merge(&fe);
        proof {
            lemma_merge_covers(ext, fe);
            if old(self).deep_view().within(ext) {
                old(self).deep_view().lemma_widen(ext, e);
            }
        }
        Ok(e)
    }
}

impl ClassAst {
    /// What reading the field at entry `j` does, if its key is one of the
    /// keys of this group.
    pub open spec fn spec_field_0(acc: ClassAstView, entries: Seq<EntryView>, j: int, next: int) -> Option<
        Result<(ClassAstView, Span), ParseFault>,
    > {
        let key = entries[j].key->0.value;
        let fe = spec_entry_extent(entries[j]);
        if key == "description"@ {
            match spec_description(entries, j, next) {
                Ok(x) => Some(Ok((ClassAstView { description: Some(x), ..acc }, fe))),
                Err(f) => Some(Err(f)),
            }
        } else if key == "is_a"@ {
            match spec_scalar(entries, j, next) {
                Ok(x) => Some(Ok((ClassAstView { is_a: Some(x), ..acc }, fe))),
                Err(f) => Some(Err(f)),
            }
        } else if key == "abstract"@ {
            match spec_boolean(entries, j, next) {
                Ok(x) => Some(Ok((ClassAstView { abstract_: Some(x), ..acc }, fe))),
                Err(f) => Some(Err(f)),
            }
        } else if key == "mixin"@ {
            match spec_boolean(entries, j, next) {
                Ok(x) => Some(Ok((ClassAstView { mixin: Some(x), ..acc }, fe))),
                Err(f) => Some(Err(f)),
            }
        } else if key == "tree_root"@ {
            match spec_boolean(entries, j, next) {
                Ok(x) => Some(Ok((ClassAstView { tree_root: Some(x), ..acc }, fe))),
                Err(f) => Some(Err(f)),
            }
        } else if key == "class_uri"@ {
            match spec_scalar(entries, j, next) {
                Ok(x) => Some(Ok((ClassAstView { class_uri: Some(x), ..acc }, fe))),
                Err(f) => Some(Err(f)),
            }
        } else if key == "mixins"@ {
            match spec_list(entries, j, next) {
                Ok((x, e)) => Some(Ok((ClassAstView { mixins: x, ..acc }, e))),
                Err(f) => Some(Err(f)),
            }
        } else if key == "slots"@ {
            match spec_list(entries, j, next) {
                Ok((x, e)) => Some(Ok((ClassAstView { slots: x, ..acc }, e))),
                Err(f) => Some(Err(f)),
            }
        } else if key == "slot_usage"@ {
            match spec_node_map::<SlotAst>(entries, j, next) {
                Ok((x, e)) => Some(Ok((ClassAstView { slot_usage: x, ..acc }, e))),
                Err(f) => Some(Err(f)),
            }
        } else if key == "attributes"@ {
            match spec_node_map::<SlotAst>(entries, j, next) {
                Ok((x, e)) => Some(Ok((ClassAstView { attributes: x, ..acc }, e))),
                Err(f) => Some(Err(f)),
            }
        } else if key == "subclass_of"@ {
            match spec_list(entries, j, next) {
                Ok((x, e)) => Some(Ok((ClassAstView { subclass_of: x, ..acc }, e))),
                Err(f) => Some(Err(f)),
            }
        } else {
            None
        }
    }

    /// Reads the field at entry `j`, if its key is one of the keys of this
    /// group.
    #[verifier::rlimit(60)]
    fn set_field_0(&mut self, entries: &Vec<Entry>, j: usize, next: usize, ext: Span) -> (r: Option<
        Result<Span, ParseFault>,
    >)
        requires
            j < next <= entries.len(),
            entries.deep_view()[j as int].key is Some,
        ensures
            match Self::spec_field_0(
                old(self).deep_view(),
                entries.deep_view(),
                j as int,
                next as int,
            ) {
                Some(Ok((v, fe))) => r matches Some(Ok(e)) && e == ext.spec_merge(fe)
                    && final(self).deep_view() == v,
                Some(Err(f)) => r matches Some(Err(g)) && g == f,
                None => r is None && final(self).deep_view() == old(self).deep_view(),
            },
            r matches Some(Ok(e)) ==> (old(self).deep_view().within(ext)
                ==> final(self).deep_view().within(e)),
    {
        match &entries[j].key {
            None => None,
            Some(k) => {
                let key = k.value.as_str();
                let fe = entry_extent(&entries[j]);
                if str_eq(key, "description") {
                    match description(entries, j, next) {
                        Ok(x) => {
                            let e = ext.merge(&fe);
                            proof {
                                lemma_merge_covers(ext, fe);
                                if old(self).deep_view().within(ext) {
                                    old(self).deep_view().lemma_widen(ext, e);
                                    lemma_covers_order(e, fe, x.span);
                                }
                            }
                            self.description = Some(x);
                            Some(Ok(e))
                        },
                        Err(f) => Some(Err(f)),
                    }
                } else if str_eq(key, "is_a") {
                    match scalar(entries, j, next) {
                        Ok(x) => {
                            let e = ext.merge(&fe);
                            proof {
                                lemma_merge_covers(ext, fe);
                                if old(self).deep_view().within(ext) {
                                    old(self).deep_view().lemma_widen(ext, e);
                                    lemma_covers_order(e, fe, x.span);
                                }
                            }
                            self.is_a = Some(x);
                            Some(Ok(e))
                        },
                        Err(f) => Some(Err(f)),
                    }
                } else if str_eq(key, "abstract") {
                    match boolean(entries, j, next) {
                        Ok(x) => {
                            let e = ext.merge(&fe);
                            proof {
                                lemma_merge_covers(ext, fe);
                                if old(self).deep_view().within(ext) {
                                    old(self).deep_view().lemma_widen(ext, e);
                                    lemma_covers_order(e, fe, x.span);
                                }
                            }
                            self.abstract_ = Some(x);
                            Some(Ok(e))
                        },
                        Err(f) => Some(Err(f)),
                    }
                } else if str_eq(key, "mixin") {
                    match boolean(entries, j, next) {
                        Ok(x) => {
                            let e = ext.merge(&fe);
                            proof {
                                lemma_merge_covers(ext, fe);
                                if old(self).deep_view().within(ext) {
                                    old(self).deep_view().lemma_widen(ext, e);
                                    lemma_covers_order(e, fe, x.span);
                                }
                            }
                            self.mixin = Some(x);
                            Some(Ok(e))
                        },
                        Err(f) => Some(Err(f)),
                    }
                } else if str_eq(key, "tree_root") {
                    match boolean(entries, j, next) {
                        Ok(x) => {
                            let e = ext.merge(&fe);
                            proof {
                                lemma_merge_covers(ext, fe);
                                if old(self).deep_view().within(ext) {
                                    old(self).deep_view().lemma_widen(ext, e);
                                    lemma_covers_order(e, fe, x.span);
                                }
                            }
                            self.tree_root = Some(x);
                            Some(Ok(e))
                        },
                        Err(f) => Some(Err(f)),
                    }
                } else if str_eq(key, "class_uri") {
                    match scalar(entries, j, next) {
                        Ok(x) => {
                            let e = ext.merge(&fe);
                            proof {
                                lemma_merge_covers(ext, fe);
                                if old(self).deep_view().within(ext) {
                                    old(self).deep_view().lemma_widen(ext, e);
                                    lemma_covers_order(e, fe, x.span);
                                }
                            }
                            self.class_uri = Some(x);
                            Some(Ok(e))
                        },
                        Err(f) => Some(Err(f)),
                    }
                } else if str_eq(key, "mixins") {
                    match list(entries, j, next) {
                        Ok((x, le)) => {
                            let e = ext.merge(&le);
                            proof {
                                lemma_merge_covers(ext, le);
                                if old(self).deep_view().within(ext) {
                                    old(self).deep_view().lemma_widen(ext, e);
                                    lemma_list_widen(x.deep_view(), le, e);
                                }
                            }
                            self.mixins = x;
                            Some(Ok(e))
                        },
                        Err(f) => Some(Err(f)),
                    }
                } else if str_eq(key, "slots") {
                    match list(entries, j, next) {
                        Ok((x, le)) => {
                            let e = ext.merge(&le);
                            proof {
                                lemma_merge_covers(ext, le);
                                if old(self).deep_view().within(ext) {
                                    old(self).deep_view().lemma_widen(ext, e);
                                    lemma_list_widen(x.deep_view(), le, e);
                                }
                            }
                            self.slots = x;
                            Some(Ok(e))
                        },
                        Err(f) => Some(Err(f)),
                    }
                } else if str_eq(key, "slot_usage") {
                    match node_map::<SlotAst>(entries, j, next) {
                        Ok((x, le)) => {
                            let e = ext.merge(&le);
                            proof {
                                lemma_merge_covers(ext, le);
                                if old(self).deep_view().within(ext) {
                                    old(self).deep_view().lemma_widen(ext, e);
                                    lemma_pairs_widen(x.deep_view(), le, e);
                                }
                            }
                            self.slot_usage = x;
                            Some(Ok(e))
                        },
                        Err(f) => Some(Err(f)),
                    }
                } else if str_eq(key, "attributes") {
                    match node_map::<SlotAst>(entries, j, next) {
                        Ok((x, le)) => {
                            let e = ext.merge(&le);
                            proof {
                                lemma_merge_covers(ext, le);
                                if old(self).deep_view().within(ext) {
                                    old(self).deep_view().lemma_widen(ext, e);
                                    lemma_pairs_widen(x.deep_view(), le, e);
                                }
                            }
                            self.attributes = x;
                            Some(Ok(e))
                        },
                        Err(f) => Some(Err(f)),
                    }
                } else if str_eq(key, "subclass_of") {
                    match list(entries, j, next) {
                        Ok((x, le)) => {
                            let e = ext.merge(&le);
                            proof {
                                lemma_merge_covers(ext, le);
                                if old(self).deep_view().within(ext) {
                                    old(self).deep_view().lemma_widen(ext, e);
                                    lemma_list_widen(x.deep_view(), le, e);
                                }
                            }
                            self.subclass_of = x;
                            Some(Ok(e))
                        },
                        Err(f) => Some(Err(f)),
                    }
                } else {
                    None
                }
            },
        }
    }

    /// What reading the field at entry `j` does, if its key is one of the
    /// keys of this group.
    pub open spec fn spec_field_1(acc: ClassAstView, entries: Seq<EntryView>, j: int, next: int) -> Option<
        Result<(ClassAstView, Span), ParseFault>,
    > {
        let key = entries[j].key->0.value;
        let fe = spec_entry_extent(entries[j]);
        if key == "rules"@ {
            match spec_node_list::<RuleAst>(entries, j, next) {
                Ok((x, e)) => Some(Ok((ClassAstView { rules: x, ..acc }, e))),
                Err(f) => Some(Err(f)),
            }
        } else if key == "if_required"@ {
            match spec_node_map::<ConditionalRequirementAst>(entries, j, next) {
                Ok((x, e)) => Some(Ok((ClassAstView { if_required: x, ..acc }, e))),
                Err(f) => Some(Err(f)),
            }
        } else if key == "unique_keys"@ {
            match spec_node_map::<UniqueKeyAst>(entries, j, next) {
                Ok((x, e)) => Some(Ok((ClassAstView { unique_keys: x, ..acc }, e))),
                Err(f) => Some(Err(f)),
            }
        } else if key == "recursion_options"@ {
            match spec_nested::<RecursionOptionsAst>(entries, j, next) {
                Ok((x, e)) => Some(Ok((ClassAstView { recursion_options: Some(x), ..acc }, e))),
                Err(f) => Some(Err(f)),
            }
        } else if key == "aliases"@ {
            match spec_list(entries, j, next) {
                Ok((x, e)) => Some(Ok((ClassAstView { aliases: x, ..acc }, e))),
                Err(f) => Some(Err(f)),
            }
        } else if key == "see_also"@ {
            match spec_list(entries, j, next) {
                Ok((x, e)) => Some(Ok((ClassAstView { see_also: x, ..acc }, e))),
                Err(f) => Some(Err(f)),
            }
        } else if key == "id_prefixes"@ {
            match spec_list(entries, j, next) {
                Ok((x, e)) => Some(Ok((ClassAstView { id_prefixes: x, ..acc }, e))),
                Err(f) => Some(Err(f)),
            }
        } else if key == "broad_mappings"@ {
            match spec_list(entries, j, next) {
                Ok((x, e)) => Some(Ok((ClassAstView { broad_mappings: x, ..acc }, e))),
                Err(f) => Some(Err(f)),
            }
        } else if key == "exact_mappings"@ {
            match spec_list(entries, j, next) {
                Ok((x, e)) => Some(Ok((ClassAstView { exact_mappings: x, ..acc }, e))),
                Err(f) => Some(Err(f)),
            }
        } else if key == "narrow_mappings"@ {
            match spec_list(entries, j, next) {
                Ok((x, e)) => Some(Ok((ClassAstView { narrow_mappings: x, ..acc }, e))),
                Err(f) => Some(Err(f)),
            }
        } else if key == "related_mappings"@ {
            match spec_list(entries, j, next) {
                Ok((x, e)) => Some(Ok((ClassAstView { related_mappings: x, ..acc }, e))),
                Err(f) => Some(Err(f)),
            }
        } else {
            None
        }
    }

    /// Reads the field at entry `j`, if its key is one of the keys of this
    /// group.
    #[verifier::rlimit(60)]
    fn set_field_1(&mut self, entries: &Vec<Entry>, j: usize, next: usize, ext: Span) -> (r: Option<
        Result<Span, ParseFault>,
    >)
        requires
            j < next <= entries.len(),
            entries.deep_view()[j as int].key is Some,
        ensures
            match Self::spec_field_1(
                old(self).deep_view(),
                entries.deep_view(),
                j as int,
                next as int,
            ) {
                Some(Ok((v, fe))) => r matches Some(Ok(e)) && e == ext.spec_merge(fe)
                    && final(self).deep_view() == v,
                Some(Err(f)) => r matches Some(Err(g)) && g == f,
                None => r is None && final(self).deep_view() == old(self).deep_view(),
            },
            r matches Some(Ok(e)) ==> (old(self).deep_view().within(ext)
                ==> final(self).deep_view().within(e)),
    {
        match &entries[j].key {
            None => None,
            Some(k) => {
                let key = k.value.as_str();
                let fe = entry_extent(&entries[j]);
                if str_eq(key, "rules") {
                    match node_list::<RuleAst>(entries, j, next) {
                        Ok((x, le)) => {
                            let e = ext.merge(&le);
                            proof {
                                lemma_merge_covers(ext, le);
                                if old(self).deep_view().within(ext) {
                                    old(self).deep_view().lemma_widen(ext, e);
                                    lemma_list_widen(x.deep_view(), le, e);
                                }
                            }
                            self.rules = x;
                            Some(Ok(e))
                        },
                        Err(f) => Some(Err(f)),
                    }
                } else if str_eq(key, "if_required") {
                    match node_map::<ConditionalRequirementAst>(entries, j, next) {
                        Ok((x, le)) => {
                            let e = ext.merge(&le);
                            proof {
                                lemma_merge_covers(ext, le);
                                if old(self).deep_view().within(ext) {
                                    old(self).deep_view().lemma_widen(ext, e);
                                    lemma_pairs_widen(x.deep_view(), le, e);
                                }
                            }
                            self.if_required = x;
                            Some(Ok(e))
                        },
                        Err(f) => Some(Err(f)),
                    }
                } else if str_eq(key, "unique_keys") {
                    match node_map::<UniqueKeyAst>(entries, j, next) {
                        Ok((x, le)) => {
                            let e = ext.merge(&le);
                            proof {
                                lemma_merge_covers(ext, le);
                                if old(self).deep_view().within(ext) {
                                    old(self).deep_view().lemma_widen(ext, e);
                                    lemma_pairs_widen(x.deep_view(), le, e);
                                }
                            }
                            self.unique_keys = x;
                            Some(Ok(e))
                        },
                        Err(f) => Some(Err(f)),
                    }
                } else if str_eq(key, "recursion_options") {
                    match nested::<RecursionOptionsAst>(entries, j, next) {
                        Ok((x, le)) => {
                            let e = ext.merge(&le);
                            proof {
                                lemma_merge_covers(ext, le);
                                if old(self).deep_view().within(ext) {
                                    old(self).deep_view().lemma_widen(ext, e);
                                    lemma_covers_order(e, le, x.span);
                                }
                            }
                            self.recursion_options = Some(x);
                            Some(Ok(e))
                        },
                        Err(f) => Some(Err(f)),
                    }
                } else if str_eq(key, "aliases") {
                    match list(entries, j, next) {
                        Ok((x, le)) => {
                            let e = ext.merge(&le);
                            proof {
                                lemma_merge_covers(ext, le);
                                if old(self).deep_view().within(ext) {
                                    old(self).deep_view().lemma_widen(ext, e);
                                    lemma_list_widen(x.deep_view(), le, e);
                                }
                            }
                            self.aliases = x;
                            Some(Ok(e))
                        },
                        Err(f) => Some(Err(f)),
                    }
                } else if str_eq(key, "see_also") {
                    match list(entries, j, next) {
                        Ok((x, le)) => {
                            let e = ext.merge(&le);
                            proof {
                                lemma_merge_covers(ext, le);
                                if old(self).deep_view().within(ext) {
                                    old(self).deep_view().lemma_widen(ext, e);
                                    lemma_list_widen(x.deep_view(), le, e);
                                }
                            }
                            self.see_also = x;
                            Some(Ok(e))
                        },
                        Err(f) => Some(Err(f)),
                    }
                } else if str_eq(key, "id_prefixes") {
                    match list(entries, j, next) {
                        Ok((x, le)) => {
                            let e = ext.merge(&le);
                            proof {
                                lemma_merge_covers(ext, le);
                                if old(self).deep_view().within(ext) {
                                    old(self).deep_view().lemma_widen(ext, e);
                                    lemma_list_widen(x.deep_view(), le, e);
                                }
                            }
                            self.id_prefixes = x;
                            Some(Ok(e))
                        },
                        Err(f) => Some(Err(f)),
                    }
                } else if str_eq(key, "broad_mappings") {
                    match list(entries, j, next) {
                        Ok((x, le)) => {
                            let e = ext.merge(&le);
                            proof {
                                lemma_merge_covers(ext, le);
                                if old(self).deep_view().within(ext) {
                                    old(self).deep_view().lemma_widen(ext, e);
                                    lemma_list_widen(x.deep_view(), le, e);
                                }
                            }
                            self.broad_mappings = x;
                            Some(Ok(e))
                        },
                        Err(f) => Some(Err(f)),
                    }
                } else if str_eq(key, "exact_mappings") {
                    match list(entries, j, next) {
                        Ok((x, le)) => {
                            let e = ext.merge(&le);
                            proof {
                                lemma_merge_covers(ext, le);
                                if old(self).deep_view().within(ext) {
                                    old(self).deep_view().lemma_widen(ext, e);
                                    lemma_list_widen(x.deep_view(), le, e);
                                }
                            }
                            self.exact_mappings = x;
                            Some(Ok(e))
                        },
                        Err(f) => Some(Err(f)),
                    }
                } else if str_eq(key, "narrow_mappings") {
                    match list(entries, j, next) {
                        Ok((x, le)) => {
                            let e = ext.merge(&le);
                            proof {
                                lemma_merge_covers(ext, le);
                                if old(self).deep_view().within(ext) {
                                    old(self).deep_view().lemma_widen(ext, e);
                                    lemma_list_widen(x.deep_view(), le, e);
                                }
                            }
                            self.narrow_mappings = x;
                            Some(Ok(e))
                        },
                        Err(f) => Some(Err(f)),
                    }
                } else if str_eq(key, "related_mappings") {
                    match list(entries, j, next) {
                        Ok((x, le)) => {
                            let e = ext.merge(&le);
                            proof {
                                lemma_merge_covers(ext, le);
                                if old(self).deep_view().within(ext) {
                                    old(self).deep_view().lemma_widen(ext, e);
                                    lemma_list_widen(x.deep_view(), le, e);
                                }
                            }
                            self.related_mappings = x;
                            Some(Ok(e))
                        },
                        Err(f) => Some(Err(f)),
                    }
                } else {
                    None
                }
            },
        }
    }

    /// What reading the field at entry `j` does, if its key is one of the
    /// keys of this group.
    pub open spec fn spec_field_2(acc: ClassAstView, entries: Seq<EntryView>, j: int, next: int) -> Option<
        Result<(ClassAstView, Span), ParseFault>,
    > {
        let key = entries[j].key->0.value;
        let fe = spec_entry_extent(entries[j]);
        if key == "close_mappings"@ {
            match spec_list(entries, j, next) {
                Ok((x, e)) => Some(Ok((ClassAstView { close_mappings: x, ..acc }, e))),
                Err(f) => Some(Err(f)),
            }
        } else if key == "annotations"@ {
            match spec_nested::<AnnotationsAst>(entries, j, next) {
                Ok((x, e)) => Some(Ok((ClassAstView { annotations: Some(x), ..acc }, e))),
                Err(f) => Some(Err(f)),
            }
        } else {
            None
        }
    }

    /// Reads the field at entry `j`, if its key is one of the keys of this
    /// group.
    #[verifier::rlimit(60)]
    fn set_field_2(&mut self, entries: &Vec<Entry>, j: usize, next: usize, ext: Span) -> (r: Option<
        Result<Span, ParseFault>,
    >)
        requires
            j < next <= entries.len(),
            entries.deep_view()[j as int].key is Some,
        ensures
            match Self::spec_field_2(
                old(self).deep_view(),
                entries.deep_view(),
                j as int,
                next as int,
            ) {
                Some(Ok((v, fe))) => r matches Some(Ok(e)) && e == ext.spec_merge(fe)
                    && final(self).deep_view() == v,
                Some(Err(f)) => r matches Some(Err(g)) && g == f,
                None => r is None && final(self).deep_view() == old(self).deep_view(),
            },
            r matches Some(Ok(e)) ==> (old(self).deep_view().within(ext)
                ==> final(self).deep_view().within(e)),
    {
        match &entries[j].key {
            None => None,
            Some(k) => {
                let key = k.value.as_str();
                let fe = entry_extent(&entries[j]);
                if str_eq(key, "close_mappings") {
                    match list(entries, j, next) {
                        Ok((x, le)) => {
                            let e = ext.merge(&le);
                            proof {
                                lemma_merge_covers(ext, le);
                                if old(self).deep_view().within(ext) {
                                    old(self).deep_view().lemma_widen(ext, e);
                                    lemma_list_widen(x.deep_view(), le, e);
                                }
                            }
                            self.close_mappings = x;
                            Some(Ok(e))
                        },
                        Err(f) => Some(Err(f)),
                    }
                } else if str_eq(key, "annotations") {
                    match nested::<AnnotationsAst>(entries, j, next) {
                        Ok((x, le)) => {
                            let e = ext.merge(&le);
                            proof {
                                lemma_merge_covers(ext, le);
                                if old(self).deep_view().within(ext) {
                                    old(self).deep_view().lemma_widen(ext, e);
                                    lemma_covers_order(e, le, x.span);
                                }
                            }
                            self.annotations = Some(x);
                            Some(Ok(e))
                        },
                        Err(f) => Some(Err(f)),
                    }
                } else {
                    None
                }
            },
        }
    }

}

impl Node for ClassAst {
    open spec fn spec_create(name: Seq<char>) -> ClassAstView {
        ClassAstView::named(name)
    }

    open spec fn spec_within(v: ClassAstView, outer: Span) -> bool {
        v.within(outer)
    }

    open spec fn spec_field(acc: ClassAstView, entries: Seq<EntryView>, j: int, next: int) -> Result<
        (ClassAstView, Span),
        ParseFault,
    > {
        if let Some(r) = Self::spec_field_0(acc, entries, j, next) {
            r
        } else if let Some(r) = Self::spec_field_1(acc, entries, j, next) {
            r
        } else if let Some(r) = Self::spec_field_2(acc, entries, j, next) {
            r
        } else {
            Ok((acc, spec_entry_extent(entries[j])))
        }
    }

    proof fn lemma_create_within(name: Seq<char>, outer: Span) {
    }

    proof fn lemma_widen(v: ClassAstView, a: Span, b: Span) {
        v.lemma_widen(a, b);
    }

    fn create(name: String) -> (r: Self) {
        ClassAst::named(name)
    }

    #[verifier::rlimit(60)]
    fn set_field(&mut self, entries: &Vec<Entry>, j: usize, next: usize, ext: Span) -> (r: Result<
        Span,
        ParseFault,
    >) {
        match self.set_field_0(entries, j, next, ext) {
            Some(r) => {
                return r;
            },
            None => {},
        }
        match self.set_field_1(entries, j, next, ext) {
            Some(r) => {
                return r;
            },
            None => {},
        }
        match self.set_field_2(entries, j, next, ext) {
            Some(r) => {
                return r;
            },
            None => {},
        }
        let fe = entry_extent(&entries[j]);
        let e = ext.merge(&fe);
        proof {
            lemma_merge_covers(ext, fe);
            if old(self).deep_view().within(ext) {
                old(self).deep_view().lemma_widen(ext, e);
            }
        }
        Ok(e)
    }
}

impl SchemaAst {
    /// What reading the field at entry `j` does, if its key is one of the
    /// keys of this group.
    pub open spec fn spec_field_0(acc: SchemaAstView, entries: Seq<EntryView>, j: int, next: int) -> Option<
        Result<(SchemaAstView, Span), ParseFault>,
    > {
        let key = entries[j].key->0.value;
        let fe = spec_entry_extent(entries[j]);
        if key == "id"@ {
            match spec_uri(entries, j, next) {
                Ok(x) => Some(Ok((SchemaAstView { id: Some(x), ..acc }, fe))),
                Err(f) => Some(Err(f)),
            }
        } else if key == "name"@ {
            match spec_identifier(entries, j, next) {
                Ok(x) => Some(Ok((SchemaAstView { name: Some(x), ..acc }, fe))),
                Err(f) => Some(Err(f)),
            }
        } else if key == "title"@ {
            match spec_unquoted(entries, j, next) {
                Ok(x) => Some(Ok((SchemaAstView { title: Some(x), ..acc }, fe))),
                Err(f) => Some(Err(f)),
            }
        } else if key == "description"@ {
            match spec_description(entries, j, next) {
                Ok(x) => Some(Ok((SchemaAstView { description: Some(x), ..acc }, fe))),
                Err(f) => Some(Err(f)),
            }
        } else if key == "version"@ {
            match spec_unquoted(entries, j, next) {
                Ok(x) => Some(Ok((SchemaAstView { version: Some(x), ..acc }, fe))),
                Err(f) => Some(Err(f)),
            }
        } else if key == "license"@ {
            match spec_unquoted(entries, j, next) {
                Ok(x) => Some(Ok((SchemaAstView { license: Some(x), ..acc }, fe))),
                Err(f) => Some(Err(f)),
            }
        } else if key == "created_on"@ {
            match spec_scalar(entries, j, next) {
                Ok(x) => Some(Ok((SchemaAstView { created_on: Some(x), ..acc }, fe))),
                Err(f) => Some(Err(f)),
            }
        } else if key == "last_updated_on"@ {
            match spec_scalar(entries, j, next) {
                Ok(x) => Some(Ok((SchemaAstView { last_updated_on: Some(x), ..acc }, fe))),
                Err(f) => Some(Err(f)),
            }
        } else if key == "default_prefix"@ {
            match spec_scalar(entries, j, next) {
                Ok(x) => Some(Ok((SchemaAstView { default_prefix: Some(x), ..acc }, fe))),
                Err(f) => Some(Err(f)),
            }
        } else if key == "default_range"@ {
            match spec_scalar(entries, j, next) {
                Ok(x) => Some(Ok((SchemaAstView { default_range: Some(x), ..acc }, fe))),
                Err(f) => Some(Err(f)),
            }
        } else if key == "metamodel_version"@ {
            match spec_unquoted(entries, j, next) {
                Ok(x) => Some(Ok((SchemaAstView { metamodel_version: Some(x), ..acc }, fe))),
                Err(f) => Some(Err(f)),
            }
        } else {
            None
        }
    }

    /// Reads the field at entry `j`, if its key is one of the keys of this
    /// group.
    #[verifier::rlimit(60)]
    fn set_field_0(&mut self, entries: &Vec<Entry>, j: usize, next: usize, ext: Span) -> (r: Option<
        Result<Span, ParseFault>,
    >)
        requires
            j < next <= entries.len(),
            entries.deep_view()[j as int].key is Some,
        ensures
            match Self::spec_field_0(
                old(self).deep_view(),
                entries.deep_view(),
                j as int,
                next as int,
            ) {
                Some(Ok((v, fe))) => r matches Some(Ok(e)) && e == ext.spec_merge(fe)
                    && final(self).deep_view() == v,
                Some(Err(f)) => r matches Some(Err(g)) && g == f,
                None => r is None && final(self).deep_view() == old(self).deep_view(),
            },
            r matches Some(Ok(e)) ==> (old(self).deep_view().within(ext)
                ==> final(self).deep_view().within(e)),
    {
        match &entries[j].key {
            None => None,
            Some(k) => {
                let key = k.value.as_str();
                let fe = entry_extent(&entries[j]);
                if str_eq(key, "id") {
                    match uri(entries, j, next) {
                        Ok(x) => {
                            let e = ext.merge(&fe);
                            proof {
                                lemma_merge_covers(ext, fe);
                                if old(self).deep_view().within(ext) {
                                    old(self).deep_view().lemma_widen(ext, e);
                                    lemma_covers_order(e, fe, x.span);
                                }
                            }
                            self.id = Some(x);
                            Some(Ok(e))
                        },
                        Err(f) => Some(Err(f)),
                    }
                } else if str_eq(key, "name") {
                    match identifier(entries, j, next) {
                        Ok(x) => {
                            let e = ext.merge(&fe);
                            proof {
                                lemma_merge_covers(ext, fe);
                                if old(self).deep_view().within(ext) {
                                    old(self).deep_view().lemma_widen(ext, e);
                                    lemma_covers_order(e, fe, x.span);
                                }
                            }
                            self.name = Some(x);
                            Some(Ok(e))
                        },
                        Err(f) => Some(Err(f)),
                    }
                } else if str_eq(key, "title") {
                    match unquoted(entries, j, next) {
                        Ok(x) => {
                            let e = ext.merge(&fe);
                            proof {
                                lemma_merge_covers(ext, fe);
                                if old(self).deep_view().within(ext) {
                                    old(self).deep_view().lemma_widen(ext, e);
                                    lemma_covers_order(e, fe, x.span);
                                }
                            }
                            self.title = Some(x);
                            Some(Ok(e))
                        },
                        Err(f) => Some(Err(f)),
                    }
                } else if str_eq(key, "description") {
                    match description(entries, j, next) {
                        Ok(x) => {
                            let e = ext.merge(&fe);
                            proof {
                                lemma_merge_covers(ext, fe);
                                if old(self).deep_view().within(ext) {
                                    old(self).deep_view().lemma_widen(ext, e);
                                    lemma_covers_order(e, fe, x.span);
                                }
                            }
                            self.description = Some(x);
                            Some(Ok(e))
                        },
                        Err(f) => Some(Err(f)),
                    }
                } else if str_eq(key, "version") {
                    match unquoted(entries, j, next) {
                        Ok(x) => {
                            let e = ext.merge(&fe);
                            proof {
                                lemma_merge_covers(ext, fe);
                                if old(self).deep_view().within(ext) {
                                    old(self).deep_view().lemma_widen(ext, e);
                                    lemma_covers_order(e, fe, x.span);
                                }
                            }
                            self.version = Some(x);
                            Some(Ok(e))
                        },
                        Err(f) => Some(Err(f)),
                    }
                } else if str_eq(key, "license") {
                    match unquoted(entries, j, next) {
                        Ok(x) => {
                            let e = ext.merge(&fe);
                            proof {
                                lemma_merge_covers(ext, fe);
                                if old(self).deep_view().within(ext) {
                                    old(self).deep_view().lemma_widen(ext, e);
                                    lemma_covers_order(e, fe, x.span);
                                }
                            }
                            self.license = Some(x);
                            Some(Ok(e))
                        },
                        Err(f) => Some(Err(f)),
                    }
                } else if str_eq(key, "created_on") {
                    match scalar(entries, j, next) {
                        Ok(x) => {
                            let e = ext.merge(&fe);
                            proof {
                                lemma_merge_covers(ext, fe);
                                if old(self).deep_view().within(ext) {
                                    old(self).deep_view().lemma_widen(ext, e);
                                    lemma_covers_order(e, fe, x.span);
                                }
                            }
                            self.created_on = Some(x);
                            Some(Ok(e))
                        },
                        Err(f) => Some(Err(f)),
                    }
                } else if str_eq(key, "last_updated_on") {
                    match scalar(entries, j, next) {
                        Ok(x) => {
                            let e = ext.merge(&fe);
                            proof {
                                lemma_merge_covers(ext, fe);
                                if old(self).deep_view().within(ext) {
                                    old(self).deep_view().lemma_widen(ext, e);
                                    lemma_covers_order(e, fe, x.span);
                                }
                            }
                            self.last_updated_on = Some(x);
                            Some(Ok(e))
                        },
                        Err(f) => Some(Err(f)),
                    }
                } else if str_eq(key, "default_prefix") {
                    match scalar(entries, j, next) {
                        Ok(x) => {
                            let e = ext.merge(&fe);
                            proof {
                                lemma_merge_covers(ext, fe);
                                if old(self).deep_view().within(ext) {
                                    old(self).deep_view().lemma_widen(ext, e);
                                    lemma_covers_order(e, fe, x.span);
                                }
                            }
                            self.default_prefix = Some(x);
                            Some(Ok(e))
                        },
                        Err(f) => Some(Err(f)),
                    }
                } else if str_eq(key, "default_range") {
                    match scalar(entries, j, next) {
                        Ok(x) => {
                            let e = ext.merge(&fe);
                            proof {
                                lemma_merge_covers(ext, fe);
                                if old(self).deep_view().within(ext) {
                                    old(self).deep_view().lemma_widen(ext, e);
                                    lemma_covers_order(e, fe, x.span);
                                }
                            }
                            self.default_range = Some(x);
                            Some(Ok(e))
                        },
                        Err(f) => Some(Err(f)),
                    }
                } else if str_eq(key, "metamodel_version") {
                    match unquoted(entries, j, next) {
                        Ok(x) => {
                            let e = ext.merge(&fe);
                            proof {
                                lemma_merge_covers(ext, fe);
                                if old(self).deep_view().within(ext) {
                                    old(self).deep_view().lemma_widen(ext, e);
                                    lemma_covers_order(e, fe, x.span);
                                }
                            }
                            self.metamodel_version = Some(x);
                            Some(Ok(e))
                        },
                        Err(f) => Some(Err(f)),
                    }
                } else {
                    None
                }
            },
        }
    }

    /// What reading the field at entry `j` does, if its key is one of the
    /// keys of this group.
    pub open spec fn spec_field_1(acc: SchemaAstView, entries: Seq<EntryView>, j: int, next: int) -> Option<
        Result<(SchemaAstView, Span), ParseFault>,
    > {
        let key = entries[j].key->0.value;
        let fe = spec_entry_extent(entries[j]);
        if key == "source_file"@ {
            match spec_unquoted(entries, j, next) {
                Ok(x) => Some(Ok((SchemaAstView { source_file: Some(x), ..acc }, fe))),
                Err(f) => Some(Err(f)),
            }
        } else if key == "generation_date"@ {
            match spec_scalar(entries, j, next) {
                Ok(x) => Some(Ok((SchemaAstView { generation_date: Some(x), ..acc }, fe))),
                Err(f) => Some(Err(f)),
            }
        } else if key == "status"@ {
            match spec_unquoted(entries, j, next) {
                Ok(x) => Some(Ok((SchemaAstView { status: Some(x), ..acc }, fe))),
                Err(f) => Some(Err(f)),
            }
        } else if key == "prefixes"@ {
            match spec_string_map(entries, j, next, false) {
                Ok((x, e)) => Some(Ok((SchemaAstView { prefixes: x, ..acc }, e))),
                Err(f) => Some(Err(f)),
            }
        } else if key == "imports"@ {
            match spec_list(entries, j, next) {
                Ok((x, e)) => Some(Ok((SchemaAstView { imports: x, ..acc }, e))),
                Err(f) => Some(Err(f)),
            }
        } else if key == "settings"@ {
            match spec_string_map(entries, j, next, true) {
                Ok((x, e)) => Some(Ok((SchemaAstView { settings: x, ..acc }, e))),
                Err(f) => Some(Err(f)),
            }
        } else if key == "classes"@ {
            match spec_node_map::<ClassAst>(entries, j, next) {
                Ok((x, e)) => Some(Ok((SchemaAstView { classes: x, ..acc }, e))),
                Err(f) => Some(Err(f)),
            }
        } else if key == "slots"@ {
            match spec_node_map::<SlotAst>(entries, j, next) {
                Ok((x, e)) => Some(Ok((SchemaAstView { slots: x, ..acc }, e))),
                Err(f) => Some(Err(f)),
            }
        } else if key == "types"@ {
            match spec_node_map::<TypeAst>(entries, j, next) {
                Ok((x, e)) => Some(Ok((SchemaAstView { types: x, ..acc }, e))),
                Err(f) => Some(Err(f)),
            }
        } else if key == "enums"@ {
            match spec_node_map::<EnumAst>(entries, j, next) {
                Ok((x, e)) => Some(Ok((SchemaAstView { enums: x, ..acc }, e))),
                Err(f) => Some(Err(f)),
            }
        } else if key == "subsets"@ {
            match spec_node_map::<SubsetAst>(entries, j, next) {
                Ok((x, e)) => Some(Ok((SchemaAstView { subsets: x, ..acc }, e))),
                Err(f) => Some(Err(f)),
            }
        } else {
            None
        }
    }

    /// Reads the field at entry `j`, if its key is one of the keys of this
    /// group.
    #[verifier::rlimit(60)]
    fn set_field_1(&mut self, entries: &Vec<Entry>, j: usize, next: usize, ext: Span) -> (r: Option<
        Result<Span, ParseFault>,
    >)
        requires
            j < next <= entries.len(),
            entries.deep_view()[j as int].key is Some,
        ensures
            match Self::spec_field_1(
                old(self).deep_view(),
                entries.deep_view(),
                j as int,
                next as int,
            ) {
                Some(Ok((v, fe))) => r matches Some(Ok(e)) && e == ext.spec_merge(fe)
                    && final(self).deep_view() == v,
                Some(Err(f)) => r matches Some(Err(g)) && g == f,
                None => r is None && final(self).deep_view() == old(self).deep_view(),
            },
            r matches Some(Ok(e)) ==> (old(self).deep_view().within(ext)
                ==> final(self).deep_view().within(e)),
    {
        match &entries[j].key {
            None => None,
            Some(k) => {
                let key = k.value.as_str();
                let fe = entry_extent(&entries[j]);
                if str_eq(key, "source_file") {
                    match unquoted(entries, j, next) {
                        Ok(x) => {
                            let e = ext.merge(&fe);
                            proof {
                                lemma_merge_covers(ext, fe);
                                if old(self).deep_view().within(ext) {
                                    old(self).deep_view().lemma_widen(ext, e);
                                    lemma_covers_order(e, fe, x.span);
                                }
                            }
                            self.source_file = Some(x);
                            Some(Ok(e))
                        },
                        Err(f) => Some(Err(f)),
                    }
                } else if str_eq(key, "generation_date") {
                    match scalar(entries, j, next) {
                        Ok(x) => {
                            let e = ext.merge(&fe);
                            proof {
                                lemma_merge_covers(ext, fe);
                                if old(self).deep_view().within(ext) {
                                    old(self).deep_view().lemma_widen(ext, e);
                                    lemma_covers_order(e, fe, x.span);
                                }
                            }
                            self.generation_date = Some(x);
                            Some(Ok(e))
                        },
                        Err(f) => Some(Err(f)),
                    }
                } else if str_eq(key, "status") {
                    match unquoted(entries, j, next) {
                        Ok(x) => {
                            let e = ext.merge(&fe);
                            proof {
                                lemma_merge_covers(ext, fe);
                                if old(self).deep_view().within(ext) {
                                    old(self).deep_view().lemma_widen(ext, e);
                                    lemma_covers_order(e, fe, x.span);
                                }
                            }
                            self.status = Some(x);
                            Some(Ok(e))
                        },
                        Err(f) => Some(Err(f)),
                    }
                } else if str_eq(key, "prefixes") {
                    match string_map(entries, j, next, false) {
                        Ok((x, le)) => {
                            let e = ext.merge(&le);
                            proof {
                                lemma_merge_covers(ext, le);
                                if old(self).deep_view().within(ext) {
                                    old(self).deep_view().lemma_widen(ext, e);
                                    lemma_pairs_widen(x.deep_view(), le, e);
                                }
                            }
                            self.prefixes = x;
                            Some(Ok(e))
                        },
                        Err(f) => Some(Err(f)),
                    }
                } else if str_eq(key, "imports") {
                    match list(entries, j, next) {
                        Ok((x, le)) => {
                            let e = ext.merge(&le);
                            proof {
                                lemma_merge_covers(ext, le);
                                if old(self).deep_view().within(ext) {
                                    old(self).deep_view().lemma_widen(ext, e);
                                    lemma_list_widen(x.deep_view(), le, e);
                                }
                            }
                            self.imports = x;
                            Some(Ok(e))
                        },
                        Err(f) => Some(Err(f)),
                    }
                } else if str_eq(key, "settings") {
                    match string_map(entries, j, next, true) {
                        Ok((x, le)) => {
                            let e = ext.merge(&le);
                            proof {
                                lemma_merge_covers(ext, le);
                                if old(self).deep_view().within(ext) {
                                    old(self).deep_view().lemma_widen(ext, e);
                                    lemma_pairs_widen(x.deep_view(), le, e);
                                }
                            }
                            self.settings = x;
                            Some(Ok(e))
                        },
                        Err(f) => Some(Err(f)),
                    }
                } else if str_eq(key, "classes") {
                    match node_map::<ClassAst>(entries, j, next) {
                        Ok((x, le)) => {
                            let e = ext.merge(&le);
                            proof {
                                lemma_merge_covers(ext, le);
                                if old(self).deep_view().within(ext) {
                                    old(self).deep_view().lemma_widen(ext, e);
                                    lemma_pairs_widen(x.deep_view(), le, e);
                                }
                            }
                            self.classes = x;
                            Some(Ok(e))
                        },
                        Err(f) => Some(Err(f)),
                    }
                } else if str_eq(key, "slots") {
                    match node_map::<SlotAst>(entries, j, next) {
                        Ok((x, le)) => {
                            let e = ext.merge(&le);
                            proof {
                                lemma_merge_covers(ext, le);
                                if old(self).deep_view().within(ext) {
                                    old(self).deep_view().lemma_widen(ext, e);
                                    lemma_pairs_widen(x.deep_view(), le, e);
                                }
                            }
                            self.slots = x;
                            Some(Ok(e))
                        },
                        Err(f) => Some(Err(f)),
                    }
                } else if str_eq(key, "types") {
                    match node_map::<TypeAst>(entries, j, next) {
                        Ok((x, le)) => {
                            let e = ext.merge(&le);
                            proof {
                                lemma_merge_covers(ext, le);
                                if old(self).deep_view().within(ext) {
                                    old(self).deep_view().lemma_widen(ext, e);
                                    lemma_pairs_widen(x.deep_view(), le, e);
                                }
                            }
                            self.types = x;
                            Some(Ok(e))
                        },
                        Err(f) => Some(Err(f)),
                    }
                } else if str_eq(key, "enums") {
                    match node_map::<EnumAst>(entries, j, next) {
                        Ok((x, le)) => {
                            let e = ext.merge(&le);
                            proof {
                                lemma_merge_covers(ext, le);
                                if old(self).deep_view().within(ext) {
                                    old(self).deep_view().lemma_widen(ext, e);
                                    lemma_pairs_widen(x.deep_view(), le, e);
                                }
                            }
                            self.enums = x;
                            Some(Ok(e))
                        },
                        Err(f) => Some(Err(f)),
                    }
                } else if str_eq(key, "subsets") {
                    match node_map::<SubsetAst>(entries, j, next) {
                        Ok((x, le)) => {
                            let e = ext.merge(&le);
                            proof {
                                lemma_merge_covers(ext, le);
                                if old(self).deep_view().within(ext) {
                                    old(self).deep_view().lemma_widen(ext, e);
                                    lemma_pairs_widen(x.deep_view(), le, e);
                                }
                            }
                            self.subsets = x;
                            Some(Ok(e))
                        },
                        Err(f) => Some(Err(f)),
                    }
                } else {
                    None
                }
            },
        }
    }

    /// What reading the field at entry `j` does, if its key is one of the
    /// keys of this group.
    pub open spec fn spec_field_2(acc: SchemaAstView, entries: Seq<EntryView>, j: int, next: int) -> Option<
        Result<(SchemaAstView, Span), ParseFault>,
    > {
        let key = entries[j].key->0.value;
        let fe = spec_entry_extent(entries[j]);
        if key == "contributors"@ {
            match spec_contributors(entries, j, next) {
                Ok((x, e)) => Some(Ok((SchemaAstView { contributors: x, ..acc }, e))),
                Err(f) => Some(Err(f)),
            }
        } else if key == "categories"@ {
            match spec_list(entries, j, next) {
                Ok((x, e)) => Some(Ok((SchemaAstView { categories: x, ..acc }, e))),
                Err(f) => Some(Err(f)),
            }
        } else if key == "keywords"@ {
            match spec_list(entries, j, next) {
                Ok((x, e)) => Some(Ok((SchemaAstView { keywords: x, ..acc }, e))),
                Err(f) => Some(Err(f)),
            }
        } else if key == "see_also"@ {
            match spec_list(entries, j, next) {
                Ok((x, e)) => Some(Ok((SchemaAstView { see_also: x, ..acc }, e))),
                Err(f) => Some(Err(f)),
            }
        } else if key == "annotations"@ {
            match spec_nested::<AnnotationsAst>(entries, j, next) {
                Ok((x, e)) => Some(Ok((SchemaAstView { annotations: Some(x), ..acc }, e))),
                Err(f) => Some(Err(f)),
            }
        } else {
            None
        }
    }

    /// Reads the field at entry `j`, if its key is one of the keys of this
    /// group.
    #[verifier::rlimit(60)]
    fn set_field_2(&mut self, entries: &Vec<Entry>, j: usize, next: usize, ext: Span) -> (r: Option<
        Result<Span, ParseFault>,
    >)
        requires
            j < next <= entries.len(),
            entries.deep_view()[j as int].key is Some,
        ensures
            match Self::spec_field_2(
                old(self).deep_view(),
                entries.deep_view(),
                j as int,
                next as int,
            ) {
                Some(Ok((v, fe))) => r matches Some(Ok(e)) && e == ext.spec_merge(fe)
                    && final(self).deep_view() == v,
                Some(Err(f)) => r matches Some(Err(g)) && g == f,
                None => r is None && final(self).deep_view() == old(self).deep_view(),
            },
            r matches Some(Ok(e)) ==> (old(self).deep_view().within(ext)
                ==> final(self).deep_view().within(e)),
    {
        match &entries[j].key {
            None => None,
            Some(k) => {
                let key = k.value.as_str();
                let fe = entry_extent(&entries[j]);
                if str_eq(key, "contributors") {
                    match contributors(entries, j, next) {
                        Ok((x, le)) => {
                            let e = ext.merge(&le);
                            proof {
                                lemma_merge_covers(ext, le);
                                if old(self).deep_view().within(ext) {
                                    old(self).deep_view().lemma_widen(ext, e);
                                    lemma_list_widen(x.deep_view(), le, e);
                                }
                            }
                            self.contributors = x;
                            Some(Ok(e))
                        },
                        Err(f) => Some(Err(f)),
                    }
                } else if str_eq(key, "categories") {
                    match list(entries, j, next) {
                        Ok((x, le)) => {
                            let e = ext.merge(&le);
                            proof {
                                lemma_merge_covers(ext, le);
                                if old(self).deep_view().within(ext) {
                                    old(self).deep_view().lemma_widen(ext, e);
                                    lemma_list_widen(x.deep_view(), le, e);
                                }
                            }
                            self.categories = x;
                            Some(Ok(e))
                        },
                        Err(f) => Some(Err(f)),
                    }
                } else if str_eq(key, "keywords") {
                    match list(entries, j, next) {
                        Ok((x, le)) => {
                            let e = ext.merge(&le);
                            proof {
                                lemma_merge_covers(ext, le);
                                if old(self).deep_view().within(ext) {
                                    old(self).deep_view().lemma_widen(ext, e);
                                    lemma_list_widen(x.deep_view(), le, e);
                                }
                            }
                            self.keywords = x;
                            Some(Ok(e))
                        },
                        Err(f) => Some(Err(f)),
                    }
                } else if str_eq(key, "see_also") {
                    match list(entries, j, next) {
                        Ok((x, le)) => {
                            let e = ext.merge(&le);
                            proof {
                                lemma_merge_covers(ext, le);
                                if old(self).deep_view().within(ext) {
                                    old(self).deep_view().lemma_widen(ext, e);
                                    lemma_list_widen(x.deep_view(), le, e);
                                }
                            }
                            self.see_also = x;
                            Some(Ok(e))
                        },
                        Err(f) => Some(Err(f)),
                    }
                } else if str_eq(key, "annotations") {
                    match nested::<AnnotationsAst>(entries, j, next) {
                        Ok((x, le)) => {
                            let e = ext.merge(&le);
                            proof {
                                lemma_merge_covers(ext, le);
                                if old(self).deep_view().within(ext) {
                                    old(self).deep_view().lemma_widen(ext, e);
                                    lemma_covers_order(e, le, x.span);
                                }
                            }
                            self.annotations = Some(x);
                            Some(Ok(e))
                        },
                        Err(f) => Some(Err(f)),
                    }
                } else {
                    None
                }
            },
        }
    }

}

impl Node for SchemaAst {
    open spec fn spec_create(name: Seq<char>) -> SchemaAstView {
        SchemaAstView::empty()
    }

    open spec fn spec_within(v: SchemaAstView, outer: Span) -> bool {
        v.within(outer)
    }

    open spec fn spec_field(acc: SchemaAstView, entries: Seq<EntryView>, j: int, next: int) -> Result<
        (SchemaAstView, Span),
        ParseFault,
    > {
        if let Some(r) = Self::spec_field_0(acc, entries, j, next) {
            r
        } else if let Some(r) = Self::spec_field_1(acc, entries, j, next) {
            r
        } else if let Some(r) = Self::spec_field_2(acc, entries, j, next) {
            r
        } else {
            Ok((acc, spec_entry_extent(entries[j])))
        }
    }

    proof fn lemma_create_within(name: Seq<char>, outer: Span) {
    }

    proof fn lemma_widen(v: SchemaAstView, a: Span, b: Span) {
        v.lemma_widen(a, b);
    }

    fn create(name: String) -> (r: Self) {
        SchemaAst::new()
    }

    #[verifier::rlimit(60)]
    fn set_field(&mut self, entries: &Vec<Entry>, j: usize, next: usize, ext: Span) -> (r: Result<
        Span,
        ParseFault,
    >) {
        match self.set_field_0(entries, j, next, ext) {
            Some(r) => {
                return r;
            },
            None => {},
        }
        match self.set_field_1(entries, j, next, ext) {
            Some(r) => {
                return r;
            },
            None => {},
        }
        match self.set_field_2(entries, j, next, ext) {
            Some(r) => {
                return r;
            },
            None => {},
        }
        let fe = entry_extent(&entries[j]);
        let e = ext.merge(&fe);
        proof {
            lemma_merge_covers(ext, fe);
            if old(self).deep_view().within(ext) {
                old(self).deep_view().lemma_widen(ext, e);
            }
        }
        Ok(e)
    }
}

/// Whether an entry is the outermost container of a document in the braced
/// dialect: it has no key, no value, and is no element of a list.
pub open spec fn spec_is_root(e: EntryView) -> bool {
    e.key is None && e.value is None && !e.item
}

/// The grammar parser: from source text to the syntax tree.
#[derive(Debug, Clone, Copy, PartialEq, Eq, Structural)]
pub struct LinkMLParser;

impl LinkMLParser {
    /// The syntax tree that the entries of a document build: the keys of the
    /// outermost mapping are the fields of the schema.
    pub open spec fn spec_build(entries: Seq<EntryView>) -> Result<SchemaAstView, ParseFault> {
        let from = if entries.len() > 0 && spec_is_root(entries[0]) {
            1int
        } else {
            0int
        };
        match spec_children::<SchemaAst>(
            SchemaAstView::empty(),
            entries,
            from,
            entries.len() as int,
            Span { start: 0, end: 0, line: 1, column: 1 },
        ) {
            Ok((v, e)) => Ok(SchemaAstView { document_type: Some(DocumentType::Schema), ..v }),
            Err(f) => Err(f),
        }
    }

    /// The syntax tree that a source text is parsed into.
    pub open spec fn spec_parse(text: Seq<char>) -> Result<SchemaAstView, ParseFault> {
        match spec_read_document(text) {
            Ok(entries) => Self::spec_build(entries),
            Err(f) => Err(f),
        }
    }

    /// Builds the syntax tree from the entries of a document.
    pub fn build(entries: &Vec<Entry>) -> (r: Result<SchemaAst, ParseFault>)
        ensures
            match Self::spec_build(entries.deep_view()) {
                Ok(v) => r matches Ok(ast) && ast.deep_view() == v && exists|outer: Span|
                    v.within(outer),
                Err(f) => r matches Err(g) && g == f,
            },
    {
        let from: usize = if entries.len() > 0 && entries[0].key.is_none()
            && entries[0].value.is_none() && !entries[0].item {
            1
        } else {
            0
        };
        let mut schema = SchemaAst::new();
        let zero = Span { start: 0, end: 0, line: 1, column: 1 };
        match fill(&mut schema, entries, from, entries.len(), zero) {
            Err(f) => Err(f),
            Ok(ext) => {
                let ghost filled = schema.deep_view();
                schema.document_type = Some(DocumentType::Schema);
                proof {
                    assert(filled.within(ext));
                    assert(schema.deep_view().within(ext));
                }
                Ok(schema)
            },
        }
    }

    /// Parses a schema from source text in either dialect. The tree holds
    /// what was written: whether the required fields are there is checked
    /// when the tree is promoted.
    pub fn parse_schema(input: &str) -> (r: Result<SchemaAst, LinkMLError>)
        ensures
            match Self::spec_parse(input@) {
                Ok(v) => r matches Ok(ast) && ast.deep_view() == v && exists|outer: Span|
                    v.within(outer),
                Err(f) => r matches Err(LinkMLError::ParseError { message, fault }) && fault
                    == Some(f) && message@ == spec_fault_message(f.kind),
            },
    {
        match read_document(input) {
            Err(f) => {
                Err(LinkMLError::ParseError { message: fault_message(f.kind), fault: Some(f) })
            },
            Ok(entries) => match Self::build(&entries) {
                Err(f) => Err(
                    LinkMLError::ParseError { message: fault_message(f.kind), fault: Some(f) },
                ),
                Ok(ast) => Ok(ast),
            },
        }
    }

    /// The value of a scalar as it stands in the source: white space cut at
    /// both ends, then double quotes, then single quotes.
    pub fn parse_string_value(s: &str) -> (r: String)
        ensures
            r@ == spec_string_value(s@),
    {
        string_value(s)
    }
}


} // verus!
