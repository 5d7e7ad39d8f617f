//! Writing a canonical schema out in the indented dialect.
//!
//! What is written is read back to the schema it was written from: strings
//! stand between quotes with their escapes, block descriptions stand as
//! blocks, and what a schema does not hold is left out.

use crate::ast::{Description, DescriptionView, RangeType};
use crate::ordered::OrderedMap;
use crate::text::{find_char, push_chars, spec_find_char, str_to_chars};
use crate::document::spec_quoted;
use crate::parser::{spec_digits, spec_is_digit, spec_parse_i64};
use crate::error::ParseErrorKind;
use crate::typedb_helper::{
    escape_string, spec_escape_from, spec_escape_string, spec_escaped_char,
};
use crate::types::{
    AnnotationValue, AnnotationValueView, ClassDefinition, ClassDefinitionView,
    ConditionalRequirement, ConditionalRequirementView, Contributor, ContributorView,
    EnumDefinition, EnumDefinitionView, PermissibleValue, PermissibleValueView, PrefixDefinition,
    PrefixDefinitionView, RecursionOptions, RecursionOptionsView, Rule, RuleView, SchemaDefinition,
    SchemaDefinitionView, SlotDefinition, SlotDefinitionView, StructuredPattern,
    StructuredPatternView, SubsetDefinition, SubsetDefinitionView, TypeDefinition,
    TypeDefinitionView, UniqueKey, UniqueKeyView, Value, ValueView,
};
use vstd::prelude::*;
use vstd::string::*;

verus! {

/// One line of a document: its indentation and what stands after it.
#[derive(Debug)]
pub struct Line {
    /// The number of spaces before the text.
    pub indent: usize,
    /// The text of the line.
    pub text: String,
}

/// What a [`Line`] holds, as mathematical values.
pub struct LineView {
    pub indent: usize,
    pub text: Seq<char>,
}

impl DeepView for Line {
    type V = LineView;

    open spec fn deep_view(&self) -> LineView {
        LineView { indent: self.indent, text: self.text@ }
    }
}

/// The indentation of what is nested in a line with the indentation
/// `indent`: two more spaces.
pub open spec fn spec_deeper(indent: usize) -> usize {
    if indent > usize::MAX - 2 {
        indent
    } else {
        (indent + 2) as usize
    }
}

/// The indentation of what is nested in a line.
pub fn deeper(indent: usize) -> (r: usize)
    ensures
        r == spec_deeper(indent),
{
    if indent > usize::MAX - 2 {
        indent
    } else {
        indent + 2
    }
}

/// A string between double quotes, with its escapes.
pub open spec fn spec_quote(s: Seq<char>) -> Seq<char> {
    "\""@ + spec_escape_string(s) + "\""@
}

/// A string between double quotes, with its escapes.
pub fn quote(s: &str) -> (r: String)
    ensures
        r@ == spec_quote(s@),
{
    let mut out = String::from_str("\"");
    out.append(escape_string(s).as_str());
    out.append("\"");
    out
}

/// Appends a line.
fn push_line(out: &mut Vec<Line>, indent: usize, text: String)
    ensures
        final(out).deep_view() == old(out).deep_view().push(LineView { indent, text: text@ }),
{
    out.push(Line { indent, text });
    assert(out.deep_view() =~= old(out).deep_view().push(LineView { indent, text: text@ }));
}

/// `acc` with the line `key:`, which opens what is nested under the key.
pub open spec fn spec_open(acc: Seq<LineView>, indent: usize, key: Seq<char>) -> Seq<LineView> {
    acc.push(LineView { indent, text: key + ":"@ })
}

/// `acc` with the line `key: value`.
pub open spec fn spec_pair(acc: Seq<LineView>, indent: usize, key: Seq<char>, value: Seq<char>)
    -> Seq<LineView> {
    acc.push(LineView { indent, text: key + ": "@ + value })
}

/// Appends the line `key:`.
fn open_line(out: &mut Vec<Line>, indent: usize, key: &str)
    ensures
        final(out).deep_view() == spec_open(old(out).deep_view(), indent, key@),
{
    let mut text = String::from_str(key);
    text.append(":");
    push_line(out, indent, text);
}

/// Appends the line `key: value`.
fn pair_line(out: &mut Vec<Line>, indent: usize, key: &str, value: &str)
    ensures
        final(out).deep_view() == spec_pair(old(out).deep_view(), indent, key@, value@),
{
    let mut text = String::from_str(key);
    text.append(": ");
    text.append(value);
    push_line(out, indent, text);
}

/// `acc` with the line of a string under `key`.
pub open spec fn spec_text(acc: Seq<LineView>, indent: usize, key: Seq<char>, s: Seq<char>)
    -> Seq<LineView> {
    spec_pair(acc, indent, key, spec_quote(s))
}

/// `acc` with the line of an optional string under `key`.
pub open spec fn spec_opt_text(
    acc: Seq<LineView>,
    indent: usize,
    key: Seq<char>,
    s: Option<Seq<char>>,
) -> Seq<LineView> {
    match s {
        Some(x) => spec_text(acc, indent, key, x),
        None => acc,
    }
}

/// Appends the line of a string under `key`.
fn text_line(out: &mut Vec<Line>, indent: usize, key: &str, s: &str)
    ensures
        final(out).deep_view() == spec_text(old(out).deep_view(), indent, key@, s@),
{
    pair_line(out, indent, key, quote(s).as_str());
}

/// Appends the line of an optional string under `key`.
fn opt_text_line(out: &mut Vec<Line>, indent: usize, key: &str, s: &Option<String>)
    ensures
        final(out).deep_view() == spec_opt_text(old(out).deep_view(), indent, key@, s.deep_view()),
{
    match s {
        Some(x) => text_line(out, indent, key, x.as_str()),
        None => {},
    }
}

/// How a truth value is written.
pub open spec fn spec_bool_text(b: bool) -> Seq<char> {
    if b {
        "true"@
    } else {
        "false"@
    }
}

/// `acc` with the line of an optional truth value under `key`.
pub open spec fn spec_opt_bool(acc: Seq<LineView>, indent: usize, key: Seq<char>, b: Option<bool>)
    -> Seq<LineView> {
    match b {
        Some(x) => spec_pair(acc, indent, key, spec_bool_text(x)),
        None => acc,
    }
}

/// Appends the line of a truth value under `key`.
fn bool_line(out: &mut Vec<Line>, indent: usize, key: &str, b: bool)
    ensures
        final(out).deep_view() == spec_pair(old(out).deep_view(), indent, key@, spec_bool_text(b)),
{
    if b {
        pair_line(out, indent, key, "true");
    } else {
        pair_line(out, indent, key, "false");
    }
}

/// Appends the line of an optional truth value under `key`.
fn opt_bool_line(out: &mut Vec<Line>, indent: usize, key: &str, b: &Option<bool>)
    ensures
        final(out).deep_view() == spec_opt_bool(old(out).deep_view(), indent, key@, *b),
{
    match b {
        Some(x) => bool_line(out, indent, key, *x),
        None => {},
    }
}

/// The character of a decimal digit.
pub open spec fn spec_digit_char(d: int) -> char {
    if d == 0 {
        '0'
    } else if d == 1 {
        '1'
    } else if d == 2 {
        '2'
    } else if d == 3 {
        '3'
    } else if d == 4 {
        '4'
    } else if d == 5 {
        '5'
    } else if d == 6 {
        '6'
    } else if d == 7 {
        '7'
    } else if d == 8 {
        '8'
    } else {
        '9'
    }
}

/// The decimal digits of a natural number, after which `acc` follows.
pub open spec fn spec_digits_of(n: nat, acc: Seq<char>) -> Seq<char>
    decreases n,
{
    let digit = seq![spec_digit_char((n % 10) as int)];
    if n < 10 {
        digit + acc
    } else {
        spec_digits_of(n / 10, digit + acc)
    }
}

/// The decimal form of a whole number.
pub open spec fn spec_int_text(n: int) -> Seq<char> {
    if n < 0 {
        "-"@ + spec_digits_of((-n) as nat, Seq::empty())
    } else {
        spec_digits_of(n as nat, Seq::empty())
    }
}

/// The character of a decimal digit.
fn digit_char(d: u64) -> (c: char)
    requires
        d < 10,
    ensures
        c == spec_digit_char(d as int),
{
    if d == 0 {
        '0'
    } else if d == 1 {
        '1'
    } else if d == 2 {
        '2'
    } else if d == 3 {
        '3'
    } else if d == 4 {
        '4'
    } else if d == 5 {
        '5'
    } else if d == 6 {
        '6'
    } else if d == 7 {
        '7'
    } else if d == 8 {
        '8'
    } else {
        '9'
    }
}

/// The decimal form of a whole number.
pub fn int_text(n: i64) -> (r: String)
    ensures
        r@ == spec_int_text(n as int),
{
    let negative = n < 0;
    let mut rest: u64 = if negative {
        if n == i64::MIN {
            0x8000_0000_0000_0000u64
        } else {
            (-n) as u64
        }
    } else {
        n as u64
    };
    let ghost whole = rest as nat;
    let mut digits: Vec<char> = Vec::new();
    assert(digits@.reverse() =~= Seq::empty());
    loop
        invariant_except_break
            spec_digits_of(whole, Seq::empty()) == spec_digits_of(rest as nat, digits@.reverse()),
        ensures
            spec_digits_of(whole, Seq::empty()) == digits@.reverse(),
        decreases rest,
    {
        let d = rest % 10;
        let c = digit_char(d);
        let ghost before = digits@;
        digits.push(c);
        assert(digits@.reverse() =~= seq![c] + before.reverse());
        if rest < 10 {
            break;
        }
        rest = rest / 10;
    }
    let mut out = String::new();
    if negative {
        out.push('-');
    }
    let ghost head = out@;
    let mut i: usize = digits.len();
    while i > 0
        invariant
            i <= digits.len(),
            out@ == head + digits@.reverse().take(digits.len() - i),
        decreases i,
    {
        i -= 1;
        out.push(digits[i]);
        assert(digits@.reverse().take(digits.len() - i) =~= digits@.reverse().take(
            digits.len() - i - 1,
        ).push(digits@[i as int]));
    }
    proof {
        assert(digits@.reverse().take(digits.len() as int) =~= digits@.reverse());
        reveal_strlit("-");
        assert(head =~= if negative {
            "-"@
        } else {
            Seq::<char>::empty()
        });
    }
    out
}

/// `acc` with the line of an optional whole number under `key`.
pub open spec fn spec_opt_int(acc: Seq<LineView>, indent: usize, key: Seq<char>, n: Option<i64>)
    -> Seq<LineView> {
    match n {
        Some(x) => spec_pair(acc, indent, key, spec_int_text(x as int)),
        None => acc,
    }
}

/// Appends the line of an optional whole number under `key`.
fn opt_int_line(out: &mut Vec<Line>, indent: usize, key: &str, n: &Option<i64>)
    ensures
        final(out).deep_view() == spec_opt_int(old(out).deep_view(), indent, key@, *n),
{
    match n {
        Some(x) => pair_line(out, indent, key, int_text(*x).as_str()),
        None => {},
    }
}

/// How a bound is written: a string between quotes, a number as it is.
pub open spec fn spec_value_text(v: ValueView) -> Seq<char> {
    match v {
        ValueView::Text(s) => spec_quote(s),
        ValueView::Number(s) => s,
        ValueView::Integer(n) => spec_int_text(n as int),
    }
}

/// `acc` with the line of an optional bound under `key`.
pub open spec fn spec_opt_value(
    acc: Seq<LineView>,
    indent: usize,
    key: Seq<char>,
    v: Option<ValueView>,
) -> Seq<LineView> {
    match v {
        Some(x) => spec_pair(acc, indent, key, spec_value_text(x)),
        None => acc,
    }
}

/// Appends the line of an optional bound under `key`.
fn opt_value_line(out: &mut Vec<Line>, indent: usize, key: &str, v: &Option<Value>)
    ensures
        final(out).deep_view() == spec_opt_value(old(out).deep_view(), indent, key@, v.deep_view()),
{
    match v {
        Some(Value::Text(s)) => pair_line(out, indent, key, quote(s.as_str()).as_str()),
        Some(Value::Number(s)) => pair_line(out, indent, key, s.as_str()),
        Some(Value::Integer(n)) => pair_line(out, indent, key, int_text(*n).as_str()),
        None => {},
    }
}

/// `acc` with the line of an optional range type under `key`.
pub open spec fn spec_opt_range_type(
    acc: Seq<LineView>,
    indent: usize,
    key: Seq<char>,
    t: Option<RangeType>,
) -> Seq<LineView> {
    match t {
        Some(RangeType::Class) => spec_pair(acc, indent, key, "class"@),
        Some(RangeType::Instance) => spec_pair(acc, indent, key, "instance"@),
        None => acc,
    }
}

/// Appends the line of an optional range type under `key`.
fn opt_range_type_line(out: &mut Vec<Line>, indent: usize, key: &str, t: &Option<RangeType>)
    ensures
        final(out).deep_view() == spec_opt_range_type(old(out).deep_view(), indent, key@, *t),
{
    match t {
        Some(RangeType::Class) => pair_line(out, indent, key, "class"),
        Some(RangeType::Instance) => pair_line(out, indent, key, "instance"),
        None => {},
    }
}

/// `acc` with the lines of a text, one for each of its lines from `s[i]` on.
pub open spec fn spec_block_lines(acc: Seq<LineView>, indent: usize, s: Seq<char>, i: int) -> Seq<
    LineView,
>
    decreases s.len() - i,
{
    if !(0 <= i <= s.len()) {
        acc
    } else {
        let e = spec_find_char(s, i, '\n');
        if !(i <= e <= s.len()) {
            acc
        } else if e >= s.len() {
            acc.push(LineView { indent, text: s.subrange(i, e) })
        } else {
            spec_block_lines(
                acc.push(LineView { indent, text: s.subrange(i, e) }),
                indent,
                s,
                e + 1,
            )
        }
    }
}

/// Appends the lines of a text.
#[verifier::loop_isolation(false)]
fn block_lines(out: &mut Vec<Line>, indent: usize, s: &str)
    ensures
        final(out).deep_view() == spec_block_lines(old(out).deep_view(), indent, s@, 0),
{
    let v = str_to_chars(s);
    let mut i: usize = 0;
    loop
        invariant
            i <= v.len(),
            spec_block_lines(old(out).deep_view(), indent, v@, 0) == spec_block_lines(
                out.deep_view(),
                indent,
                v@,
                i as int,
            ),
        decreases v.len() - i,
    {
        let e = find_char(&v, i, '\n');
        let mut text = String::new();
        push_chars(&mut text, &v, i, e);
        assert(text@ =~= v@.subrange(i as int, e as int));
        push_line(out, indent, text);
        if e >= v.len() {
            return;
        }
        i = e + 1;
    }
}

/// `acc` with an optional description under `key`: a description on one line
/// as a string, a block as a block under `|`.
pub open spec fn spec_opt_description(
    acc: Seq<LineView>,
    indent: usize,
    key: Seq<char>,
    d: Option<DescriptionView>,
) -> Seq<LineView> {
    match d {
        Some(DescriptionView::Inline(s)) => spec_text(acc, indent, key, s),
        Some(DescriptionView::Block(s)) => spec_block_lines(
            spec_pair(acc, indent, key, "|"@),
            spec_deeper(indent),
            s,
            0,
        ),
        None => acc,
    }
}

/// Appends an optional description under `key`.
fn opt_description_lines(out: &mut Vec<Line>, indent: usize, key: &str, d: &Option<Description>)
    ensures
        final(out).deep_view() == spec_opt_description(
            old(out).deep_view(),
            indent,
            key@,
            d.deep_view(),
        ),
{
    match d {
        Some(Description::Inline(s)) => text_line(out, indent, key, s.as_str()),
        Some(Description::Block(s)) => {
            pair_line(out, indent, key, "|");
            block_lines(out, deeper(indent), s.as_str());
        },
        None => {},
    }
}

/// `acc` with one line `- item` for each string of the list from the `i`-th
/// on.
pub open spec fn spec_items(acc: Seq<LineView>, indent: usize, list: Seq<Seq<char>>, i: int)
    -> Seq<LineView>
    decreases list.len() - i,
{
    if !(0 <= i < list.len()) {
        acc
    } else {
        spec_items(
            acc.push(LineView { indent, text: "- "@ + spec_quote(list[i]) }),
            indent,
            list,
            i + 1,
        )
    }
}

/// `acc` with a list of strings under `key`; nothing for an empty list.
pub open spec fn spec_list(acc: Seq<LineView>, indent: usize, key: Seq<char>, list: Seq<Seq<char>>)
    -> Seq<LineView> {
    if list.len() == 0 {
        acc
    } else {
        spec_items(spec_open(acc, indent, key), spec_deeper(indent), list, 0)
    }
}

/// Appends a list of strings under `key`.
fn list_lines(out: &mut Vec<Line>, indent: usize, key: &str, list: &Vec<String>)
    ensures
        final(out).deep_view() == spec_list(old(out).deep_view(), indent, key@, list.deep_view()),
{
    if list.len() == 0 {
        return;
    }
    open_line(out, indent, key);
    let ghost start = out.deep_view();
    let inner = deeper(indent);
    let mut i: usize = 0;
    while i < list.len()
        invariant
            i <= list.len(),
            spec_items(start, inner, list.deep_view(), 0) == spec_items(
                out.deep_view(),
                inner,
                list.deep_view(),
                i as int,
            ),
        decreases list.len() - i,
    {
        let mut text = String::from_str("- ");
        text.append(quote(list[i].as_str()).as_str());
        push_line(out, inner, text);
        i += 1;
    }
}

/// `acc` with one line `name: value` for each pair of strings from the
/// `i`-th on, names and values between quotes.
pub open spec fn spec_string_pairs(
    acc: Seq<LineView>,
    indent: usize,
    pairs: Seq<(Seq<char>, Seq<char>)>,
    i: int,
) -> Seq<LineView>
    decreases pairs.len() - i,
{
    if !(0 <= i < pairs.len()) {
        acc
    } else {
        spec_string_pairs(
            spec_text(acc, indent, spec_quote(pairs[i].0), pairs[i].1),
            indent,
            pairs,
            i + 1,
        )
    }
}

/// `acc` with a mapping of strings under `key`; nothing for an empty one.
pub open spec fn spec_string_map(
    acc: Seq<LineView>,
    indent: usize,
    key: Seq<char>,
    pairs: Seq<(Seq<char>, Seq<char>)>,
) -> Seq<LineView> {
    if pairs.len() == 0 {
        acc
    } else {
        spec_string_pairs(spec_open(acc, indent, key), spec_deeper(indent), pairs, 0)
    }
}

/// Appends a mapping of strings under `key`.
fn string_map_lines(out: &mut Vec<Line>, indent: usize, key: &str, m: &OrderedMap<String>)
    ensures
        final(out).deep_view() == spec_string_map(
            old(out).deep_view(),
            indent,
            key@,
            m.deep_view(),
        ),
{
    let n = m.len();
    if n == 0 {
        return;
    }
    open_line(out, indent, key);
    let ghost start = out.deep_view();
    let inner = deeper(indent);
    let mut i: usize = 0;
    while i < n
        invariant
            i <= n,
            n == m.keys().len(),
            m.well_formed(),
            spec_string_pairs(start, inner, m.deep_view(), 0) == spec_string_pairs(
                out.deep_view(),
                inner,
                m.deep_view(),
                i as int,
            ),
        decreases n - i,
    {
        match m.get_index(i) {
            Some((k, v)) => {
                text_line(out, inner, quote(k.as_str()).as_str(), v.as_str());
            },
            None => {},
        }
        i += 1;
    }
}

/// The reference that a prefix stands for.
pub open spec fn spec_prefix_reference(p: PrefixDefinitionView) -> Seq<char> {
    match p {
        PrefixDefinitionView::Simple(uri) => uri,
        PrefixDefinitionView::Complex { prefix_prefix, prefix_reference } => match prefix_reference {
            Some(r) => r,
            None => prefix_prefix,
        },
    }
}

/// `acc` with one line for each prefix from the `i`-th on.
pub open spec fn spec_prefix_pairs(
    acc: Seq<LineView>,
    indent: usize,
    pairs: Seq<(Seq<char>, PrefixDefinitionView)>,
    i: int,
) -> Seq<LineView>
    decreases pairs.len() - i,
{
    if !(0 <= i < pairs.len()) {
        acc
    } else {
        spec_prefix_pairs(
            spec_text(acc, indent, spec_quote(pairs[i].0), spec_prefix_reference(pairs[i].1)),
            indent,
            pairs,
            i + 1,
        )
    }
}

/// `acc` with the prefixes under `key`; nothing where there is none.
pub open spec fn spec_prefixes(
    acc: Seq<LineView>,
    indent: usize,
    key: Seq<char>,
    pairs: Seq<(Seq<char>, PrefixDefinitionView)>,
) -> Seq<LineView> {
    if pairs.len() == 0 {
        acc
    } else {
        spec_prefix_pairs(spec_open(acc, indent, key), spec_deeper(indent), pairs, 0)
    }
}

/// Appends the prefixes under `key`.
fn prefixes_lines(out: &mut Vec<Line>, indent: usize, key: &str, m: &OrderedMap<PrefixDefinition>)
    ensures
        final(out).deep_view() == spec_prefixes(old(out).deep_view(), indent, key@, m.deep_view()),
{
    let n = m.len();
    if n == 0 {
        return;
    }
    open_line(out, indent, key);
    let ghost start = out.deep_view();
    let inner = deeper(indent);
    let mut i: usize = 0;
    while i < n
        invariant
            i <= n,
            n == m.keys().len(),
            m.well_formed(),
            spec_prefix_pairs(start, inner, m.deep_view(), 0) == spec_prefix_pairs(
                out.deep_view(),
                inner,
                m.deep_view(),
                i as int,
            ),
        decreases n - i,
    {
        match m.get_index(i) {
            Some((k, v)) => {
                let name = quote(k.as_str());
                match v {
                    PrefixDefinition::Simple(uri) => text_line(
                        out,
                        inner,
                        name.as_str(),
                        uri.as_str(),
                    ),
                    PrefixDefinition::Complex { prefix_prefix, prefix_reference } => {
                        match prefix_reference {
                            Some(r) => text_line(out, inner, name.as_str(), r.as_str()),
                            None => text_line(out, inner, name.as_str(), prefix_prefix.as_str()),
                        }
                    },
                }
            },
            None => {},
        }
        i += 1;
    }
}

/// `acc` with one annotation under its tag.
pub open spec fn spec_annotation(
    acc: Seq<LineView>,
    indent: usize,
    tag: Seq<char>,
    v: AnnotationValueView,
) -> Seq<LineView> {
    match v {
        AnnotationValueView::Bool(b) => spec_pair(acc, indent, spec_quote(tag), spec_bool_text(b)),
        AnnotationValueView::Number(s) => spec_pair(acc, indent, spec_quote(tag), s),
        AnnotationValueView::Text(s) => spec_text(acc, indent, spec_quote(tag), s),
        AnnotationValueView::Block(s) => spec_block_lines(
            spec_pair(acc, indent, spec_quote(tag), "|"@),
            spec_deeper(indent),
            s,
            0,
        ),
        AnnotationValueView::List(l) => spec_items(
            spec_open(acc, indent, spec_quote(tag)),
            spec_deeper(indent),
            l,
            0,
        ),
    }
}

/// `acc` with the annotations from the `i`-th on.
pub open spec fn spec_annotation_pairs(
    acc: Seq<LineView>,
    indent: usize,
    pairs: Seq<(Seq<char>, AnnotationValueView)>,
    i: int,
) -> Seq<LineView>
    decreases pairs.len() - i,
{
    if !(0 <= i < pairs.len()) {
        acc
    } else {
        spec_annotation_pairs(
            spec_annotation(acc, indent, pairs[i].0, pairs[i].1),
            indent,
            pairs,
            i + 1,
        )
    }
}

/// `acc` with the annotations under `key`; nothing where there are none.
pub open spec fn spec_annotations(
    acc: Seq<LineView>,
    indent: usize,
    key: Seq<char>,
    a: Option<Seq<(Seq<char>, AnnotationValueView)>>,
) -> Seq<LineView> {
    match a {
        Some(pairs) => spec_annotation_pairs(
            spec_open(acc, indent, key),
            spec_deeper(indent),
            pairs,
            0,
        ),
        None => acc,
    }
}

/// Appends one annotation under its tag.
fn annotation_lines(out: &mut Vec<Line>, indent: usize, tag: &str, v: &AnnotationValue)
    ensures
        final(out).deep_view() == spec_annotation(
            old(out).deep_view(),
            indent,
            tag@,
            v.deep_view(),
        ),
{
    let name = quote(tag);
    match v {
        AnnotationValue::Bool(b) => bool_line(out, indent, name.as_str(), *b),
        AnnotationValue::Number(s) => pair_line(out, indent, name.as_str(), s.as_str()),
        AnnotationValue::Text(s) => text_line(out, indent, name.as_str(), s.as_str()),
        AnnotationValue::Block(s) => {
            pair_line(out, indent, name.as_str(), "|");
            block_lines(out, deeper(indent), s.as_str());
        },
        AnnotationValue::List(l) => {
            open_line(out, indent, name.as_str());
            let ghost start = out.deep_view();
            let inner = deeper(indent);
            let mut i: usize = 0;
            while i < l.len()
                invariant
                    i <= l.len(),
                    spec_items(start, inner, l.deep_view(), 0) == spec_items(
                        out.deep_view(),
                        inner,
                        l.deep_view(),
                        i as int,
                    ),
                decreases l.len() - i,
            {
                let mut text = String::from_str("- ");
                text.append(quote(l[i].as_str()).as_str());
                push_line(out, inner, text);
                i += 1;
            }
        },
    }
}

/// Appends the annotations under `key`.
fn annotations_lines(
    out: &mut Vec<Line>,
    indent: usize,
    key: &str,
    a: &Option<OrderedMap<AnnotationValue>>,
)
    ensures
        final(out).deep_view() == spec_annotations(
            old(out).deep_view(),
            indent,
            key@,
            a.deep_view(),
        ),
{
    match a {
        None => {},
        Some(m) => {
            open_line(out, indent, key);
            let ghost start = out.deep_view();
            let inner = deeper(indent);
            let n = m.len();
            let mut i: usize = 0;
            while i < n
                invariant
                    i <= n,
                    n == m.keys().len(),
                    m.well_formed(),
                    spec_annotation_pairs(start, inner, m.deep_view(), 0) == spec_annotation_pairs(
                        out.deep_view(),
                        inner,
                        m.deep_view(),
                        i as int,
                    ),
                decreases n - i,
            {
                match m.get_index(i) {
                    Some((k, v)) => {
                        annotation_lines(out, inner, k.as_str(), v);
                    },
                    None => {},
                }
                i += 1;
            }
        },
    }
}

/// A part of a schema that is written as the lines of a mapping.
pub trait Emit: DeepView {
    /// `acc` with the lines of the fields of `v` at the indentation
    /// `indent`.
    spec fn spec_emit(acc: Seq<LineView>, indent: usize, v: Self::V) -> Seq<LineView>;

    /// Appends the lines of the fields of `self`.
    fn emit(&self, out: &mut Vec<Line>, indent: usize)
        ensures
            final(out).deep_view() == Self::spec_emit(
                old(out).deep_view(),
                indent,
                self.deep_view(),
            ),
    ;
}

/// `acc` with the nodes of a mapping from the `i`-th on: the name of each as
/// a key, and its fields nested under it.
pub open spec fn spec_node_pairs<T: Emit>(
    acc: Seq<LineView>,
    indent: usize,
    pairs: Seq<(Seq<char>, T::V)>,
    i: int,
) -> Seq<LineView>
    decreases pairs.len() - i,
{
    if !(0 <= i < pairs.len()) {
        acc
    } else {
        spec_node_pairs::<T>(
            T::spec_emit(
                spec_open(acc, indent, spec_quote(pairs[i].0)),
                spec_deeper(indent),
                pairs[i].1,
            ),
            indent,
            pairs,
            i + 1,
        )
    }
}

/// `acc` with a mapping of nodes under `key`; nothing for an empty one.
pub open spec fn spec_nodes<T: Emit>(
    acc: Seq<LineView>,
    indent: usize,
    key: Seq<char>,
    pairs: Seq<(Seq<char>, T::V)>,
) -> Seq<LineView> {
    if pairs.len() == 0 {
        acc
    } else {
        spec_node_pairs::<T>(spec_open(acc, indent, key), spec_deeper(indent), pairs, 0)
    }
}

/// Appends a mapping of nodes under `key`.
fn nodes_lines<T: Emit>(out: &mut Vec<Line>, indent: usize, key: &str, m: &OrderedMap<T>)
    ensures
        final(out).deep_view() == spec_nodes::<T>(
            old(out).deep_view(),
            indent,
            key@,
            m.deep_view(),
        ),
{
    let n = m.len();
    if n == 0 {
        return;
    }
    open_line(out, indent, key);
    let ghost start = out.deep_view();
    let inner = deeper(indent);
    let mut i: usize = 0;
    while i < n
        invariant
            i <= n,
            n == m.keys().len(),
            m.well_formed(),
            spec_node_pairs::<T>(start, inner, m.deep_view(), 0) == spec_node_pairs::<T>(
                out.deep_view(),
                inner,
                m.deep_view(),
                i as int,
            ),
        decreases n - i,
    {
        match m.get_index(i) {
            Some((k, v)) => {
                open_line(out, inner, quote(k.as_str()).as_str());
                v.emit(out, deeper(inner));
            },
            None => {},
        }
        i += 1;
    }
}

/// `acc` with the nodes of a list from the `i`-th on: a dash for each, and
/// its fields nested under the dash.
pub open spec fn spec_node_items<T: Emit>(
    acc: Seq<LineView>,
    indent: usize,
    list: Seq<T::V>,
    i: int,
) -> Seq<LineView>
    decreases list.len() - i,
{
    if !(0 <= i < list.len()) {
        acc
    } else {
        spec_node_items::<T>(
            T::spec_emit(
                acc.push(LineView { indent, text: "-"@ }),
                spec_deeper(indent),
                list[i],
            ),
            indent,
            list,
            i + 1,
        )
    }
}

/// `acc` with a list of nodes under `key`; nothing for an empty list.
pub open spec fn spec_node_list<T: Emit>(
    acc: Seq<LineView>,
    indent: usize,
    key: Seq<char>,
    list: Seq<T::V>,
) -> Seq<LineView> {
    if list.len() == 0 {
        acc
    } else {
        spec_node_items::<T>(spec_open(acc, indent, key), spec_deeper(indent), list, 0)
    }
}

/// Appends a list of nodes under `key`.
fn node_list_lines<T: Emit>(out: &mut Vec<Line>, indent: usize, key: &str, list: &Vec<T>)
    ensures
        final(out).deep_view() == spec_node_list::<T>(
            old(out).deep_view(),
            indent,
            key@,
            list.deep_view(),
        ),
{
    if list.len() == 0 {
        return;
    }
    open_line(out, indent, key);
    let ghost start = out.deep_view();
    let inner = deeper(indent);
    let mut i: usize = 0;
    while i < list.len()
        invariant
            i <= list.len(),
            spec_node_items::<T>(start, inner, list.deep_view(), 0) == spec_node_items::<T>(
                out.deep_view(),
                inner,
                list.deep_view(),
                i as int,
            ),
        decreases list.len() - i,
    {
        push_line(out, inner, String::from_str("-"));
        list[i].emit(out, deeper(inner));
        i += 1;
    }
}

/// `acc` with an optional node under `key`.
pub open spec fn spec_nested<T: Emit>(
    acc: Seq<LineView>,
    indent: usize,
    key: Seq<char>,
    v: Option<T::V>,
) -> Seq<LineView> {
    match v {
        Some(x) => T::spec_emit(spec_open(acc, indent, key), spec_deeper(indent), x),
        None => acc,
    }
}

/// Appends an optional node under `key`.
fn nested_lines<T: Emit>(out: &mut Vec<Line>, indent: usize, key: &str, v: &Option<T>)
    ensures
        final(out).deep_view() == spec_nested::<T>(
            old(out).deep_view(),
            indent,
            key@,
            v.deep_view(),
        ),
{
    match v {
        Some(x) => {
            open_line(out, indent, key);
            x.emit(out, deeper(indent));
        },
        None => {},
    }
}

/// The names of the contributors.
pub open spec fn spec_contributor_names(list: Seq<ContributorView>) -> Seq<Seq<char>> {
    Seq::new(list.len(), |i: int| list[i].name)
}

/// Appends the names of the contributors under `key`.
fn contributors_lines(out: &mut Vec<Line>, indent: usize, key: &str, list: &Vec<Contributor>)
    ensures
        final(out).deep_view() == spec_list(
            old(out).deep_view(),
            indent,
            key@,
            spec_contributor_names(list.deep_view()),
        ),
{
    let mut names: Vec<String> = Vec::new();
    let mut i: usize = 0;
    while i < list.len()
        invariant
            i <= list.len(),
            names.len() == i,
            forall|k: int| 0 <= k < i ==> (#[trigger] names[k])@ == list[k].name@,
        decreases list.len() - i,
    {
        names.push(list[i].name.clone());
        i += 1;
    }
    assert(names.deep_view() =~= spec_contributor_names(list.deep_view()));
    list_lines(out, indent, key, &names);
}

impl Emit for PermissibleValue {
    open spec fn spec_emit(acc: Seq<LineView>, indent: usize, v: PermissibleValueView) -> Seq<
        LineView,
    > {
        match v {
            PermissibleValueView::Simple(name) => acc,
            PermissibleValueView::Complex { text, description, meaning } => spec_opt_text(
                spec_opt_text(acc, indent, "description"@, description),
                indent,
                "meaning"@,
                meaning,
            ),
        }
    }

    fn emit(&self, out: &mut Vec<Line>, indent: usize) {
        match self {
            PermissibleValue::Simple(_) => {},
            PermissibleValue::Complex { text, description, meaning } => {
                opt_text_line(out, indent, "description", description);
                opt_text_line(out, indent, "meaning", meaning);
            },
        }
    }
}

impl Emit for StructuredPattern {
    open spec fn spec_emit(
        acc: Seq<LineView>,
        indent: usize,
        v: StructuredPatternView,
    ) -> Seq<LineView> {
        let acc = spec_text(acc, indent, "syntax"@, v.syntax);
        let acc = spec_pair(acc, indent, "interpolated"@, spec_bool_text(v.interpolated));
        acc
    }

    fn emit(&self, out: &mut Vec<Line>, indent: usize) {
        text_line(out, indent, "syntax", self.syntax.as_str());
        bool_line(out, indent, "interpolated", self.interpolated);
    }
}

impl Emit for RecursionOptions {
    open spec fn spec_emit(
        acc: Seq<LineView>,
        indent: usize,
        v: RecursionOptionsView,
    ) -> Seq<LineView> {
        let acc = spec_pair(acc, indent, "use_box"@, spec_bool_text(v.use_box));
        let acc = spec_opt_int(acc, indent, "max_depth"@, v.max_depth);
        acc
    }

    fn emit(&self, out: &mut Vec<Line>, indent: usize) {
        bool_line(out, indent, "use_box", self.use_box);
        opt_int_line(out, indent, "max_depth", &self.max_depth);
    }
}

impl Emit for UniqueKey {
    open spec fn spec_emit(acc: Seq<LineView>, indent: usize, v: UniqueKeyView) -> Seq<LineView> {
        let acc = spec_list(acc, indent, "unique_key_slots"@, v.unique_key_slots);
        acc
    }

    fn emit(&self, out: &mut Vec<Line>, indent: usize) {
        list_lines(out, indent, "unique_key_slots", &self.unique_key_slots);
    }
}

impl Emit for ConditionalRequirement {
    open spec fn spec_emit(
        acc: Seq<LineView>,
        indent: usize,
        v: ConditionalRequirementView,
    ) -> Seq<LineView> {
        let acc = spec_text(acc, indent, "condition"@, v.condition);
        let acc = spec_list(acc, indent, "then_required"@, v.then_required);
        acc
    }

    fn emit(&self, out: &mut Vec<Line>, indent: usize) {
        text_line(out, indent, "condition", self.condition.as_str());
        list_lines(out, indent, "then_required", &self.then_required);
    }
}

impl Emit for Rule {
    open spec fn spec_emit(acc: Seq<LineView>, indent: usize, v: RuleView) -> Seq<LineView> {
        let acc = spec_string_map(acc, indent, "preconditions"@, v.preconditions);
        let acc = spec_string_map(acc, indent, "postconditions"@, v.postconditions);
        acc
    }

    fn emit(&self, out: &mut Vec<Line>, indent: usize) {
        string_map_lines(out, indent, "preconditions", &self.preconditions);
        string_map_lines(out, indent, "postconditions", &self.postconditions);
    }
}

impl Emit for SubsetDefinition {
    open spec fn spec_emit(
        acc: Seq<LineView>,
        indent: usize,
        v: SubsetDefinitionView,
    ) -> Seq<LineView> {
        let acc = spec_opt_description(acc, indent, "description"@, v.description);
        let acc = spec_annotations(acc, indent, "annotations"@, v.annotations);
        acc
    }

    fn emit(&self, out: &mut Vec<Line>, indent: usize) {
        opt_description_lines(out, indent, "description", &self.description);
        annotations_lines(out, indent, "annotations", &self.annotations);
    }
}

impl Emit for EnumDefinition {
    open spec fn spec_emit(
        acc: Seq<LineView>,
        indent: usize,
        v: EnumDefinitionView,
    ) -> Seq<LineView> {
        let acc = spec_opt_description(acc, indent, "description"@, v.description);
        let acc = spec_nodes::<PermissibleValue>(
            acc,
            indent,
            "permissible_values"@,
            v.permissible_values,
        );
        let acc = spec_opt_text(acc, indent, "code_set"@, v.code_set);
        let acc = spec_opt_text(acc, indent, "code_set_tag"@, v.code_set_tag);
        let acc = spec_opt_text(acc, indent, "code_set_version"@, v.code_set_version);
        let acc = spec_annotations(acc, indent, "annotations"@, v.annotations);
        acc
    }

    fn emit(&self, out: &mut Vec<Line>, indent: usize) {
        opt_description_lines(out, indent, "description", &self.description);
        nodes_lines(out, indent, "permissible_values", &self.permissible_values);
        opt_text_line(out, indent, "code_set", &self.code_set);
        opt_text_line(out, indent, "code_set_tag", &self.code_set_tag);
        opt_text_line(out, indent, "code_set_version", &self.code_set_version);
        annotations_lines(out, indent, "annotations", &self.annotations);
    }
}

impl Emit for TypeDefinition {
    open spec fn spec_emit(
        acc: Seq<LineView>,
        indent: usize,
        v: TypeDefinitionView,
    ) -> Seq<LineView> {
        let acc = spec_opt_description(acc, indent, "description"@, v.description);
        let acc = spec_opt_text(acc, indent, "typeof"@, v.typeof_);
        let acc = spec_opt_text(acc, indent, "base"@, v.base);
        let acc = spec_opt_text(acc, indent, "uri"@, v.uri);
        let acc = spec_opt_text(acc, indent, "pattern"@, v.pattern);
        let acc = spec_opt_value(acc, indent, "minimum_value"@, v.minimum_value);
        let acc = spec_opt_value(acc, indent, "maximum_value"@, v.maximum_value);
        let acc = spec_annotations(acc, indent, "annotations"@, v.annotations);
        acc
    }

    fn emit(&self, out: &mut Vec<Line>, indent: usize) {
        opt_description_lines(out, indent, "description", &self.description);
        opt_text_line(out, indent, "typeof", &self.typeof_);
        opt_text_line(out, indent, "base", &self.base);
        opt_text_line(out, indent, "uri", &self.uri);
        opt_text_line(out, indent, "pattern", &self.pattern);
        opt_value_line(out, indent, "minimum_value", &self.minimum_value);
        opt_value_line(out, indent, "maximum_value", &self.maximum_value);
        annotations_lines(out, indent, "annotations", &self.annotations);
    }
}

impl SlotDefinition {
    /// `acc` with the lines of one group of the fields of `v`.
    pub open spec fn spec_emit_0(
        acc: Seq<LineView>,
        indent: usize,
        v: SlotDefinitionView,
    ) -> Seq<LineView> {
        let acc = spec_opt_description(acc, indent, "description"@, v.description);
        let acc = spec_opt_text(acc, indent, "range"@, v.range);
        let acc = spec_opt_range_type(acc, indent, "range_type"@, v.range_type);
        let acc = spec_list(acc, indent, "range_properties"@, v.range_properties);
        let acc = spec_opt_bool(acc, indent, "required"@, v.required);
        let acc = spec_opt_bool(acc, indent, "multivalued"@, v.multivalued);
        let acc = spec_opt_bool(acc, indent, "identifier"@, v.identifier);
        let acc = spec_opt_text(acc, indent, "pattern"@, v.pattern);
        acc
    }

    /// Appends the lines of one group of the fields of `self`.
    fn emit_0(&self, out: &mut Vec<Line>, indent: usize)
        ensures
            final(out).deep_view() == Self::spec_emit_0(
                old(out).deep_view(),
                indent,
                self.deep_view(),
            ),
    {
        opt_description_lines(out, indent, "description", &self.description);
        opt_text_line(out, indent, "range", &self.range);
        opt_range_type_line(out, indent, "range_type", &self.range_type);
        list_lines(out, indent, "range_properties", &self.range_properties);
        opt_bool_line(out, indent, "required", &self.required);
        opt_bool_line(out, indent, "multivalued", &self.multivalued);
        opt_bool_line(out, indent, "identifier", &self.identifier);
        opt_text_line(out, indent, "pattern", &self.pattern);
    }

    /// `acc` with the lines of one group of the fields of `v`.
    pub open spec fn spec_emit_1(
        acc: Seq<LineView>,
        indent: usize,
        v: SlotDefinitionView,
    ) -> Seq<LineView> {
        let acc = spec_nested::<StructuredPattern>(
            acc,
            indent,
            "structured_pattern"@,
            v.structured_pattern,
        );
        let acc = spec_opt_value(acc, indent, "minimum_value"@, v.minimum_value);
        let acc = spec_opt_value(acc, indent, "maximum_value"@, v.maximum_value);
        let acc = spec_opt_int(acc, indent, "minimum_cardinality"@, v.minimum_cardinality);
        let acc = spec_opt_int(acc, indent, "maximum_cardinality"@, v.maximum_cardinality);
        let acc = spec_opt_text(acc, indent, "is_a"@, v.is_a);
        let acc = spec_list(acc, indent, "mixins"@, v.mixins);
        let acc = spec_opt_text(acc, indent, "slot_uri"@, v.slot_uri);
        acc
    }

    /// Appends the lines of one group of the fields of `self`.
    fn emit_1(&self, out: &mut Vec<Line>, indent: usize)
        ensures
            final(out).deep_view() == Self::spec_emit_1(
                old(out).deep_view(),
                indent,
                self.deep_view(),
            ),
    {
        nested_lines(out, indent, "structured_pattern", &self.structured_pattern);
        opt_value_line(out, indent, "minimum_value", &self.minimum_value);
        opt_value_line(out, indent, "maximum_value", &self.maximum_value);
        opt_int_line(out, indent, "minimum_cardinality", &self.minimum_cardinality);
        opt_int_line(out, indent, "maximum_cardinality", &self.maximum_cardinality);
        opt_text_line(out, indent, "is_a", &self.is_a);
        list_lines(out, indent, "mixins", &self.mixins);
        opt_text_line(out, indent, "slot_uri", &self.slot_uri);
    }

    /// `acc` with the lines of one group of the fields of `v`.
    pub open spec fn spec_emit_2(
        acc: Seq<LineView>,
        indent: usize,
        v: SlotDefinitionView,
    ) -> Seq<LineView> {
        let acc = spec_opt_text(acc, indent, "domain"@, v.domain);
        let acc = spec_opt_text(acc, indent, "inverse"@, v.inverse);
        let acc = spec_opt_bool(acc, indent, "symmetric"@, v.symmetric);
        let acc = spec_opt_bool(acc, indent, "asymmetric"@, v.asymmetric);
        let acc = spec_opt_bool(acc, indent, "reflexive"@, v.reflexive);
        let acc = spec_opt_bool(acc, indent, "irreflexive"@, v.irreflexive);
        let acc = spec_opt_bool(acc, indent, "locally_reflexive"@, v.locally_reflexive);
        let acc = spec_opt_bool(acc, indent, "transitive"@, v.transitive);
        acc
    }

    /// Appends the lines of one group of the fields of `self`.
    fn emit_2(&self, out: &mut Vec<Line>, indent: usize)
        ensures
            final(out).deep_view() == Self::spec_emit_2(
                old(out).deep_view(),
                indent,
                self.deep_view(),
            ),
    {
        opt_text_line(out, indent, "domain", &self.domain);
        opt_text_line(out, indent, "inverse", &self.inverse);
        opt_bool_line(out, indent, "symmetric", &self.symmetric);
        opt_bool_line(out, indent, "asymmetric", &self.asymmetric);
        opt_bool_line(out, indent, "reflexive", &self.reflexive);
        opt_bool_line(out, indent, "irreflexive", &self.irreflexive);
        opt_bool_line(out, indent, "locally_reflexive", &self.locally_reflexive);
        opt_bool_line(out, indent, "transitive", &self.transitive);
    }

    /// `acc` with the lines of one group of the fields of `v`.
    pub open spec fn spec_emit_3(
        acc: Seq<LineView>,
        indent: usize,
        v: SlotDefinitionView,
    ) -> Seq<LineView> {
        let acc = spec_opt_text(acc, indent, "ifabsent"@, v.ifabsent);
        let acc = spec_opt_text(acc, indent, "equals_string"@, v.equals_string);
        let acc = spec_opt_text(acc, indent, "equals_number"@, v.equals_number);
        let acc = spec_list(acc, indent, "aliases"@, v.aliases);
        let acc = spec_list(acc, indent, "see_also"@, v.see_also);
        let acc = spec_list(acc, indent, "imports"@, v.imports);
        let acc = spec_annotations(acc, indent, "annotations"@, v.annotations);
        acc
    }

    /// Appends the lines of one group of the fields of `self`.
    fn emit_3(&self, out: &mut Vec<Line>, indent: usize)
        ensures
            final(out).deep_view() == Self::spec_emit_3(
                old(out).deep_view(),
                indent,
                self.deep_view(),
            ),
    {
        opt_text_line(out, indent, "ifabsent", &self.ifabsent);
        opt_text_line(out, indent, "equals_string", &self.equals_string);
        opt_text_line(out, indent, "equals_number", &self.equals_number);
        list_lines(out, indent, "aliases", &self.aliases);
        list_lines(out, indent, "see_also", &self.see_also);
        list_lines(out, indent, "imports", &self.imports);
        annotations_lines(out, indent, "annotations", &self.annotations);
    }

}

impl Emit for SlotDefinition {
    open spec fn spec_emit(
        acc: Seq<LineView>,
        indent: usize,
        v: SlotDefinitionView,
    ) -> Seq<LineView> {
        let acc = Self::spec_emit_0(acc, indent, v);
        let acc = Self::spec_emit_1(acc, indent, v);
        let acc = Self::spec_emit_2(acc, indent, v);
        let acc = Self::spec_emit_3(acc, indent, v);
        acc
    }

    fn emit(&self, out: &mut Vec<Line>, indent: usize) {
        self.emit_0(out, indent);
        self.emit_1(out, indent);
        self.emit_2(out, indent);
        self.emit_3(out, indent);
    }
}

impl ClassDefinition {
    /// `acc` with the lines of one group of the fields of `v`.
    pub open spec fn spec_emit_0(
        acc: Seq<LineView>,
        indent: usize,
        v: ClassDefinitionView,
    ) -> Seq<LineView> {
        let acc = spec_opt_description(acc, indent, "description"@, v.description);
        let acc = spec_opt_text(acc, indent, "is_a"@, v.is_a);
        let acc = spec_opt_bool(acc, indent, "abstract"@, v.abstract_);
        let acc = spec_opt_bool(acc, indent, "mixin"@, v.mixin);
        let acc = spec_opt_bool(acc, indent, "tree_root"@, v.tree_root);
        let acc = spec_opt_text(acc, indent, "class_uri"@, v.class_uri);
        let acc = spec_list(acc, indent, "mixins"@, v.mixins);
        let acc = spec_list(acc, indent, "slots"@, v.slots);
        acc
    }

    /// Appends the lines of one group of the fields of `self`.
    fn emit_0(&self, out: &mut Vec<Line>, indent: usize)
        ensures
            final(out).deep_view() == Self::spec_emit_0(
                old(out).deep_view(),
                indent,
                self.deep_view(),
            ),
    {
        opt_description_lines(out, indent, "description", &self.description);
        opt_text_line(out, indent, "is_a", &self.is_a);
        opt_bool_line(out, indent, "abstract", &self.abstract_);
        opt_bool_line(out, indent, "mixin", &self.mixin);
        opt_bool_line(out, indent, "tree_root", &self.tree_root);
        opt_text_line(out, indent, "class_uri", &self.class_uri);
        list_lines(out, indent, "mixins", &self.mixins);
        list_lines(out, indent, "slots", &self.slots);
    }

    /// `acc` with the lines of one group of the fields of `v`.
    pub open spec fn spec_emit_1(
        acc: Seq<LineView>,
        indent: usize,
        v: ClassDefinitionView,
    ) -> Seq<LineView> {
        let acc = spec_nodes::<SlotDefinition>(acc, indent, "slot_usage"@, v.slot_usage);
        let acc = spec_nodes::<SlotDefinition>(acc, indent, "attributes"@, v.attributes);
        let acc = spec_list(acc, indent, "subclass_of"@, v.subclass_of);
        let acc = spec_node_list::<Rule>(acc, indent, "rules"@, v.rules);
        let acc = spec_nodes::<ConditionalRequirement>(acc, indent, "if_required"@, v.if_required);
        let acc = spec_nodes::<UniqueKey>(acc, indent, "unique_keys"@, v.unique_keys);
        let acc = spec_nested::<RecursionOptions>(
            acc,
            indent,
            "recursion_options"@,
            v.recursion_options,
        );
        let acc = spec_list(acc, indent, "aliases"@, v.aliases);
        acc
    }

    /// Appends the lines of one group of the fields of `self`.
    fn emit_1(&self, out: &mut Vec<Line>, indent: usize)
        ensures
            final(out).deep_view() == Self::spec_emit_1(
                old(out).deep_view(),
                indent,
                self.deep_view(),
            ),
    {
        nodes_lines(out, indent, "slot_usage", &self.slot_usage);
        nodes_lines(out, indent, "attributes", &self.attributes);
        list_lines(out, indent, "subclass_of", &self.subclass_of);
        node_list_lines(out, indent, "rules", &self.rules);
        nodes_lines(out, indent, "if_required", &self.if_required);
        nodes_lines(out, indent, "unique_keys", &self.unique_keys);
        nested_lines(out, indent, "recursion_options", &self.recursion_options);
        list_lines(out, indent, "aliases", &self.aliases);
    }

    /// `acc` with the lines of one group of the fields of `v`.
    pub open spec fn spec_emit_2(
        acc: Seq<LineView>,
        indent: usize,
        v: ClassDefinitionView,
    ) -> Seq<LineView> {
        let acc = spec_list(acc, indent, "see_also"@, v.see_also);
        let acc = spec_list(acc, indent, "id_prefixes"@, v.id_prefixes);
        let acc = spec_list(acc, indent, "broad_mappings"@, v.broad_mappings);
        let acc = spec_list(acc, indent, "exact_mappings"@, v.exact_mappings);
        let acc = spec_list(acc, indent, "narrow_mappings"@, v.narrow_mappings);
        let acc = spec_list(acc, indent, "related_mappings"@, v.related_mappings);
        let acc = spec_list(acc, indent, "close_mappings"@, v.close_mappings);
        let acc = spec_annotations(acc, indent, "annotations"@, v.annotations);
        acc
    }

    /// Appends the lines of one group of the fields of `self`.
    fn emit_2(&self, out: &mut Vec<Line>, indent: usize)
        ensures
            final(out).deep_view() == Self::spec_emit_2(
                old(out).deep_view(),
                indent,
                self.deep_view(),
            ),
    {
        list_lines(out, indent, "see_also", &self.see_also);
        list_lines(out, indent, "id_prefixes", &self.id_prefixes);
        list_lines(out, indent, "broad_mappings", &self.broad_mappings);
        list_lines(out, indent, "exact_mappings", &self.exact_mappings);
        list_lines(out, indent, "narrow_mappings", &self.narrow_mappings);
        list_lines(out, indent, "related_mappings", &self.related_mappings);
        list_lines(out, indent, "close_mappings", &self.close_mappings);
        annotations_lines(out, indent, "annotations", &self.annotations);
    }

}

impl Emit for ClassDefinition {
    open spec fn spec_emit(
        acc: Seq<LineView>,
        indent: usize,
        v: ClassDefinitionView,
    ) -> Seq<LineView> {
        let acc = Self::spec_emit_0(acc, indent, v);
        let acc = Self::spec_emit_1(acc, indent, v);
        let acc = Self::spec_emit_2(acc, indent, v);
        acc
    }

    fn emit(&self, out: &mut Vec<Line>, indent: usize) {
        self.emit_0(out, indent);
        self.emit_1(out, indent);
        self.emit_2(out, indent);
    }
}

impl SchemaDefinition {
    /// `acc` with the lines of one group of the fields of `v`.
    pub open spec fn spec_emit_0(
        acc: Seq<LineView>,
        indent: usize,
        v: SchemaDefinitionView,
    ) -> Seq<LineView> {
        let acc = spec_text(acc, indent, "id"@, v.id);
        let acc = spec_text(acc, indent, "name"@, v.name);
        let acc = spec_opt_text(acc, indent, "title"@, v.title);
        let acc = spec_opt_description(acc, indent, "description"@, v.description);
        let acc = spec_opt_text(acc, indent, "version"@, v.version);
        let acc = spec_opt_text(acc, indent, "license"@, v.license);
        let acc = spec_opt_text(acc, indent, "created_on"@, v.created_on);
        let acc = spec_opt_text(acc, indent, "last_updated_on"@, v.last_updated_on);
        acc
    }

    /// Appends the lines of one group of the fields of `self`.
    fn emit_0(&self, out: &mut Vec<Line>, indent: usize)
        ensures
            final(out).deep_view() == Self::spec_emit_0(
                old(out).deep_view(),
                indent,
                self.deep_view(),
            ),
    {
        text_line(out, indent, "id", self.id.as_str());
        text_line(out, indent, "name", self.name.as_str());
        opt_text_line(out, indent, "title", &self.title);
        opt_description_lines(out, indent, "description", &self.description);
        opt_text_line(out, indent, "version", &self.version);
        opt_text_line(out, indent, "license", &self.license);
        opt_text_line(out, indent, "created_on", &self.created_on);
        opt_text_line(out, indent, "last_updated_on", &self.last_updated_on);
    }

    /// `acc` with the lines of one group of the fields of `v`.
    pub open spec fn spec_emit_1(
        acc: Seq<LineView>,
        indent: usize,
        v: SchemaDefinitionView,
    ) -> Seq<LineView> {
        let acc = spec_opt_text(acc, indent, "default_prefix"@, v.default_prefix);
        let acc = spec_opt_text(acc, indent, "default_range"@, v.default_range);
        let acc = spec_opt_text(acc, indent, "metamodel_version"@, v.metamodel_version);
        let acc = spec_opt_text(acc, indent, "source_file"@, v.source_file);
        let acc = spec_opt_text(acc, indent, "generation_date"@, v.generation_date);
        let acc = spec_opt_text(acc, indent, "status"@, v.status);
        let acc = spec_prefixes(acc, indent, "prefixes"@, v.prefixes);
        let acc = spec_list(acc, indent, "imports"@, v.imports);
        acc
    }

    /// Appends the lines of one group of the fields of `self`.
    fn emit_1(&self, out: &mut Vec<Line>, indent: usize)
        ensures
            final(out).deep_view() == Self::spec_emit_1(
                old(out).deep_view(),
                indent,
                self.deep_view(),
            ),
    {
        opt_text_line(out, indent, "default_prefix", &self.default_prefix);
        opt_text_line(out, indent, "default_range", &self.default_range);
        opt_text_line(out, indent, "metamodel_version", &self.metamodel_version);
        opt_text_line(out, indent, "source_file", &self.source_file);
        opt_text_line(out, indent, "generation_date", &self.generation_date);
        opt_text_line(out, indent, "status", &self.status);
        prefixes_lines(out, indent, "prefixes", &self.prefixes);
        list_lines(out, indent, "imports", &self.imports);
    }

    /// `acc` with the lines of one group of the fields of `v`.
    pub open spec fn spec_emit_2(
        acc: Seq<LineView>,
        indent: usize,
        v: SchemaDefinitionView,
    ) -> Seq<LineView> {
        let acc = spec_string_map(acc, indent, "settings"@, v.settings);
        let acc = spec_nodes::<ClassDefinition>(acc, indent, "classes"@, v.classes);
        let acc = spec_nodes::<SlotDefinition>(acc, indent, "slots"@, v.slots);
        let acc = spec_nodes::<TypeDefinition>(acc, indent, "types"@, v.types);
        let acc = spec_nodes::<EnumDefinition>(acc, indent, "enums"@, v.enums);
        let acc = spec_nodes::<SubsetDefinition>(acc, indent, "subsets"@, v.subsets);
        let acc = spec_list(acc, indent, "contributors"@, spec_contributor_names(v.contributors));
        let acc = spec_list(acc, indent, "categories"@, v.categories);
        acc
    }

    /// Appends the lines of one group of the fields of `self`.
    fn emit_2(&self, out: &mut Vec<Line>, indent: usize)
        ensures
            final(out).deep_view() == Self::spec_emit_2(
                old(out).deep_view(),
                indent,
                self.deep_view(),
            ),
    {
        string_map_lines(out, indent, "settings", &self.settings);
        nodes_lines(out, indent, "classes", &self.classes);
        nodes_lines(out, indent, "slots", &self.slots);
        nodes_lines(out, indent, "types", &self.types);
        nodes_lines(out, indent, "enums", &self.enums);
        nodes_lines(out, indent, "subsets", &self.subsets);
        contributors_lines(out, indent, "contributors", &self.contributors);
        list_lines(out, indent, "categories", &self.categories);
    }

    /// `acc` with the lines of one group of the fields of `v`.
    pub open spec fn spec_emit_3(
        acc: Seq<LineView>,
        indent: usize,
        v: SchemaDefinitionView,
    ) -> Seq<LineView> {
        let acc = spec_list(acc, indent, "keywords"@, v.keywords);
        let acc = spec_list(acc, indent, "see_also"@, v.see_also);
        let acc = spec_annotations(acc, indent, "annotations"@, v.annotations);
        acc
    }

    /// Appends the lines of one group of the fields of `self`.
    fn emit_3(&self, out: &mut Vec<Line>, indent: usize)
        ensures
            final(out).deep_view() == Self::spec_emit_3(
                old(out).deep_view(),
                indent,
                self.deep_view(),
            ),
    {
        list_lines(out, indent, "keywords", &self.keywords);
        list_lines(out, indent, "see_also", &self.see_also);
        annotations_lines(out, indent, "annotations", &self.annotations);
    }

}

impl Emit for SchemaDefinition {
    open spec fn spec_emit(
        acc: Seq<LineView>,
        indent: usize,
        v: SchemaDefinitionView,
    ) -> Seq<LineView> {
        let acc = Self::spec_emit_0(acc, indent, v);
        let acc = Self::spec_emit_1(acc, indent, v);
        let acc = Self::spec_emit_2(acc, indent, v);
        let acc = Self::spec_emit_3(acc, indent, v);
        acc
    }

    fn emit(&self, out: &mut Vec<Line>, indent: usize) {
        self.emit_0(out, indent);
        self.emit_1(out, indent);
        self.emit_2(out, indent);
        self.emit_3(out, indent);
    }
}

/// The text of the lines from the `i`-th on, after `acc`: each line is its
/// indentation in spaces, its text and a line feed.
pub open spec fn spec_render(lines: Seq<LineView>, i: int, acc: Seq<char>) -> Seq<char>
    decreases lines.len() - i,
{
    if !(0 <= i < lines.len()) {
        acc
    } else {
        spec_render(
            lines,
            i + 1,
            acc + Seq::new(lines[i].indent as nat, |k: int| ' ') + lines[i].text + "\n"@,
        )
    }
}

/// The text of the lines.
pub fn render(lines: &Vec<Line>) -> (r: String)
    ensures
        r@ == spec_render(lines.deep_view(), 0, Seq::empty()),
{
    let mut out = String::new();
    let mut i: usize = 0;
    while i < lines.len()
        invariant
            i <= lines.len(),
            spec_render(lines.deep_view(), 0, Seq::empty()) == spec_render(
                lines.deep_view(),
                i as int,
                out@,
            ),
        decreases lines.len() - i,
    {
        let ghost before = out@;
        let line = &lines[i];
        let mut k: usize = 0;
        while k < line.indent
            invariant
                k <= line.indent,
                out@ == before + Seq::new(k as nat, |j: int| ' '),
            decreases line.indent - k,
        {
            out.push(' ');
            k += 1;
            assert(out@ =~= before + Seq::new(k as nat, |j: int| ' '));
        }
        out.append(line.text.as_str());
        out.append("\n");
        assert(out@ =~= before + Seq::new(line.indent as nat, |j: int| ' ') + line.text@ + "\n"@);
        i += 1;
    }
    out
}

/// The text that a schema is written out as.
pub open spec fn spec_emit_schema(v: SchemaDefinitionView) -> Seq<char> {
    spec_render(SchemaDefinition::spec_emit(Seq::empty(), 0, v), 0, Seq::empty())
}

/// Writes a schema out in the indented dialect.
pub fn emit_schema(schema: &SchemaDefinition) -> (r: String)
    ensures
        r@ == spec_emit_schema(schema.deep_view()),
{
    let mut lines: Vec<Line> = Vec::new();
    assert(lines.deep_view() =~= Seq::empty());
    schema.emit(&mut lines, 0);
    render(&lines)
}

/// The escapes of `s[i..]` after `acc` are `acc` followed by the escapes of
/// `s[i..]`.
pub proof fn lemma_escape_append(s: Seq<char>, i: int, acc: Seq<char>)
    requires
        0 <= i <= s.len(),
    ensures
        spec_escape_from(s, i, acc) == acc + spec_escape_from(s, i, Seq::empty()),
    decreases s.len() - i,
{
    if i < s.len() {
        let e = spec_escaped_char(s[i]);
        lemma_escape_append(s, i + 1, acc + e);
        lemma_escape_append(s, i + 1, Seq::empty() + e);
        assert(acc + e + spec_escape_from(s, i + 1, Seq::empty()) =~= acc + (Seq::empty() + e
            + spec_escape_from(s, i + 1, Seq::empty())));
    } else {
        assert(acc + Seq::<char>::empty() =~= acc);
    }
}

/// Where the escapes of `s[i..]`, a double quote and `rest` stand from
/// `text[p]` on, reading a double-quoted scalar from there gives `s[i..]`
/// after what was read before, and ends after the quote.
pub proof fn lemma_reads_back(
    text: Seq<char>,
    p: int,
    s: Seq<char>,
    i: int,
    acc: Seq<char>,
    rest: Seq<char>,
)
    requires
        0 <= i <= s.len(),
        0 <= p <= text.len(),
        text.skip(p) == spec_escape_from(s, i, Seq::empty()) + seq!['"'] + rest,
    ensures
        spec_quoted(text, p, '"', acc) == Ok::<(Seq<char>, int), (ParseErrorKind, int)>(
            (acc + s.skip(i), text.len() - rest.len()),
        ),
    decreases s.len() - i,
{
    let tail = text.skip(p);
    assert(tail.len() == text.len() - p);
    if i >= s.len() {
        assert(tail.len() == spec_escape_from(s, i, Seq::empty()).len() + 1 + rest.len());
        assert(tail[0] == '"');
        assert(text[p] == tail[0]);
        assert(acc + s.skip(i) =~= acc);
        assert(tail.len() == 1 + rest.len());
    } else {
        let c = s[i];
        let e = spec_escaped_char(c);
        lemma_escape_append(s, i + 1, Seq::empty() + e);
        let after = spec_escape_from(s, i + 1, Seq::empty());
        assert(spec_escape_from(s, i, Seq::empty()) == Seq::empty() + e + after);
        let then = after + seq!['"'] + rest;
        assert(tail =~= e + then);
        assert(tail.len() == e.len() + then.len());
        assert(text[p] == tail[0]);
        assert(acc.push(c) + s.skip(i + 1) =~= acc + s.skip(i));
        if e.len() == 2 {
            assert(text[p + 1] == tail[1]);
            assert(text.skip(p + 2) =~= tail.skip(2));
            assert(tail.skip(2) =~= then);
            lemma_reads_back(text, p + 2, s, i + 1, acc.push(c), rest);
        } else {
            assert(text.skip(p + 1) =~= tail.skip(1));
            assert(tail.skip(1) =~= then);
            lemma_reads_back(text, p + 1, s, i + 1, acc.push(c), rest);
        }
    }
}

/// A string that is written between quotes is read back as it was: reading
/// the double-quoted scalar that `quote` writes gives the string, whatever
/// follows the closing quote.
pub proof fn law_quote_reads_back(s: Seq<char>, rest: Seq<char>)
    ensures
        spec_quoted(spec_quote(s) + rest, 1, '"', Seq::empty()) == Ok::<
            (Seq<char>, int),
            (ParseErrorKind, int),
        >((s, spec_quote(s).len() as int)),
{
    reveal_strlit("\"");
    let text = spec_quote(s) + rest;
    assert(text.skip(1) =~= spec_escape_from(s, 0, Seq::empty()) + seq!['"'] + rest);
    lemma_reads_back(text, 1, s, 0, Seq::empty(), rest);
    assert(Seq::<char>::empty() + s.skip(0) =~= s);
}

/// The number that results when the digits of `n` are read after the number
/// `a`.
pub open spec fn spec_read_after(a: int, n: nat) -> int
    decreases n,
{
    if n < 10 {
        a * 10 + n
    } else {
        spec_read_after(a, n / 10) * 10 + n % 10
    }
}

/// Reading the digits of a number from nothing gives the number.
pub proof fn lemma_read_after_zero(n: nat)
    ensures
        spec_read_after(0, n) == n,
    decreases n,
{
    if n >= 10 {
        lemma_read_after_zero(n / 10);
    }
}

/// Reading more digits does not make a number smaller.
pub proof fn lemma_read_after_grows(a: int, n: nat)
    requires
        0 <= a,
    ensures
        spec_read_after(a, n) >= a,
        spec_read_after(a, n) >= 0,
    decreases n,
{
    if n >= 10 {
        lemma_read_after_grows(a, n / 10);
    }
}

/// What follows the digits of a number follows them as it is.
pub proof fn lemma_digits_suffix(n: nat, acc: Seq<char>)
    ensures
        spec_digits_of(n, acc) == spec_digits_of(n, Seq::empty()) + acc,
    decreases n,
{
    let digit = seq![spec_digit_char((n % 10) as int)];
    if n < 10 {
        assert(digit + acc =~= digit + Seq::empty() + acc);
    } else {
        lemma_digits_suffix(n / 10, digit + acc);
        lemma_digits_suffix(n / 10, digit + Seq::empty());
        assert(spec_digits_of(n / 10, Seq::empty()) + (digit + acc) =~= spec_digits_of(
            n / 10,
            Seq::empty(),
        ) + (digit + Seq::empty()) + acc);
    }
}

/// The digits that are written for a number are read as that number: where
/// they stand in a text after `pre` and before `suf`, reading from their
/// first digit with the number `a` read so far arrives at their end with the
/// number that the digits make of `a`.
pub proof fn lemma_digits_read(pre: Seq<char>, n: nat, suf: Seq<char>, a: int)
    requires
        0 <= a,
        spec_read_after(a, n) <= i64::MAX + 1,
    ensures
        spec_digits_of(n, suf).len() >= suf.len() + 1,
        spec_digits(pre + spec_digits_of(n, suf), pre.len() as int, a) == spec_digits(
            pre + spec_digits_of(n, suf),
            (pre + spec_digits_of(n, suf)).len() - suf.len(),
            spec_read_after(a, n),
        ),
    decreases n,
{
    let d = spec_digit_char((n % 10) as int);
    assert(spec_is_digit(d) && d as u32 - '0' as u32 == n % 10);
    let text = pre + spec_digits_of(n, suf);
    if n < 10 {
        assert(spec_digits_of(n, suf) =~= seq![d] + suf);
        assert(text[pre.len() as int] == d);
        assert(text.len() - suf.len() == pre.len() + 1);
    } else {
        let longer = seq![d] + suf;
        lemma_read_after_grows(a, n / 10);
        lemma_digits_read(pre, n / 10, longer, a);
        let at = text.len() - longer.len();
        assert(spec_digits_of(n, suf) == spec_digits_of(n / 10, longer));
        lemma_digits_suffix(n / 10, longer);
        assert(text =~= pre + spec_digits_of(n / 10, Seq::empty()) + longer);
        assert(text[at] == longer[0]);
        assert(text.len() - suf.len() == at + 1);
    }
}

/// A whole number that is written out is read back as it was.
pub proof fn law_int_reads_back(n: i64)
    ensures
        spec_parse_i64(spec_int_text(n as int)) == Some(n),
{
    reveal_strlit("-");
    let none = Seq::<char>::empty();
    if n < 0 {
        let m = (-(n as int)) as nat;
        lemma_read_after_zero(m);
        lemma_digits_read("-"@, m, none, 0);
        let text = "-"@ + spec_digits_of(m, none);
        assert(text[0] == '-');
        assert(spec_digits(text, text.len() as int, m as int) == Some(m as int));
    } else {
        let m = n as nat;
        lemma_read_after_zero(m);
        lemma_digits_read(none, m, none, 0);
        let text = spec_digits_of(m, none);
        assert(none + text =~= text);
        assert(text[0] != '-' && text[0] != '+') by {
            lemma_first_is_digit(m, none);
        }
        assert(spec_digits(text, text.len() as int, m as int) == Some(m as int));
    }
}

/// What is written for a number begins with a digit.
pub proof fn lemma_first_is_digit(n: nat, acc: Seq<char>)
    ensures
        spec_digits_of(n, acc).len() > 0,
        spec_is_digit(spec_digits_of(n, acc)[0]),
    decreases n,
{
    let d = spec_digit_char((n % 10) as int);
    assert(spec_is_digit(d));
    if n >= 10 {
        lemma_first_is_digit(n / 10, seq![d] + acc);
    }
}

} // verus!
