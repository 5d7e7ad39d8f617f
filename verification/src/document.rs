//! Reading source text into a flat list of entries.
//!
//! Both dialects are read into the same form: one entry for each key, list
//! item and container, with its depth of nesting. In the indented dialect the
//! depth comes from the indentation; in the braced dialect from the brackets.

use crate::error::{ParseErrorKind, ParseFault};
use crate::model::DeepValue;
use crate::span::{Span, Spanned};
use crate::text::{
    chars_to_string, cut_whitespace, find_char, is_whitespace, lemma_skip_whitespace_bounds,
    push_chars, skip_char, skip_whitespace, spec_cut_whitespace, spec_find_char, spec_is_whitespace,
    spec_skip_char, spec_skip_whitespace, spec_utf8_width, str_to_chars, utf8_width,
};
use vstd::prelude::*;

verus! {

/// How a scalar was written.
#[derive(Debug, Clone, Copy, PartialEq, Eq, Structural)]
pub enum ScalarStyle {
    /// Without quotes.
    Plain,
    /// Between single or double quotes.
    Quoted,
    /// As a block of lines under a `|` or `>`.
    Block,
}

impl DeepView for ScalarStyle {
    type V = ScalarStyle;

    open spec fn deep_view(&self) -> ScalarStyle {
        *self
    }
}

impl DeepValue for ScalarStyle {
    fn deep_clone(&self) -> (r: Self) {
        *self
    }

    fn deep_eq(&self, other: &Self) -> (r: bool) {
        *self == *other
    }
}

/// One key, list item or container of a document.
#[derive(Debug)]
pub struct Entry {
    /// How deeply the entry is nested. Entries that follow with a greater depth lie inside it.
    pub depth: usize,
    /// Whether the entry is an element of a list.
    pub item: bool,
    /// The key, where the entry has one.
    pub key: Option<Spanned<String>>,
    /// The scalar value, where the entry has one.
    pub value: Option<Spanned<String>>,
    /// How the value was written.
    pub style: ScalarStyle,
    /// Where the entry stands, without what is nested in it.
    pub span: Span,
}

/// What a [`Entry`] holds, as mathematical values.
pub struct EntryView {
    pub depth: usize,
    pub item: bool,
    pub key: Option<Spanned<Seq<char>>>,
    pub value: Option<Spanned<Seq<char>>>,
    pub style: ScalarStyle,
    pub span: Span,
}

impl DeepView for Entry {
    type V = EntryView;

    open spec fn deep_view(&self) -> EntryView {
        EntryView {
            depth: self.depth.deep_view(),
            item: self.item.deep_view(),
            key: self.key.deep_view(),
            value: self.value.deep_view(),
            style: self.style.deep_view(),
            span: self.span.deep_view(),
        }
    }
}

impl DeepValue for Entry {
    fn deep_clone(&self) -> (r: Self) {
        Entry {
            depth: self.depth.deep_clone(),
            item: self.item.deep_clone(),
            key: self.key.deep_clone(),
            value: self.value.deep_clone(),
            style: self.style.deep_clone(),
            span: self.span.deep_clone(),
        }
    }

    fn deep_eq(&self, other: &Self) -> (r: bool) {
        self.depth.deep_eq(&other.depth)
            && self.item.deep_eq(&other.item)
            && self.key.deep_eq(&other.key)
            && self.value.deep_eq(&other.value)
            && self.style.deep_eq(&other.style)
            && self.span.deep_eq(&other.span)
    }
}

/// Where a character stands: the byte offset, the line and the column.
#[derive(Debug, Clone, Copy, PartialEq, Eq, Structural)]
pub struct Position {
    /// Bytes before the character.
    pub byte: usize,
    /// The line, counted from 1.
    pub line: usize,
    /// The column in characters, counted from 1.
    pub column: usize,
}

/// The number of bytes that the first `i` characters take in UTF-8.
pub open spec fn spec_byte(text: Seq<char>, i: int) -> int
    decreases i,
{
    if 0 < i <= text.len() {
        spec_byte(text, i - 1) + spec_utf8_width(text[i - 1])
    } else {
        0
    }
}

/// The line on which character `i` stands: one more than the number of line
/// feeds before it.
pub open spec fn spec_line(text: Seq<char>, i: int) -> int
    decreases i,
{
    if 0 < i <= text.len() {
        spec_line(text, i - 1) + if text[i - 1] == '\n' {
            1int
        } else {
            0int
        }
    } else {
        1
    }
}

/// The column in which character `i` stands: one more than the number of
/// characters between it and the line feed before it.
pub open spec fn spec_column(text: Seq<char>, i: int) -> int
    decreases i,
{
    if 0 < i <= text.len() {
        if text[i - 1] == '\n' {
            1
        } else {
            spec_column(text, i - 1) + 1
        }
    } else {
        1
    }
}

/// Every position in `text` can be counted in machine integers.
pub open spec fn spec_fits(text: Seq<char>) -> bool {
    text.len() < usize::MAX && spec_byte(text, text.len() as int) <= usize::MAX
}

/// The position of character `i` of `text`.
pub open spec fn spec_position(text: Seq<char>, i: int) -> Position {
    Position {
        byte: spec_byte(text, i) as usize,
        line: spec_line(text, i) as usize,
        column: spec_column(text, i) as usize,
    }
}

/// The span of the characters `text[from..to]`.
pub open spec fn spec_span(text: Seq<char>, from: int, to: int) -> Span {
    Span {
        start: spec_byte(text, from) as usize,
        end: spec_byte(text, to) as usize,
        line: spec_line(text, from) as usize,
        column: spec_column(text, from) as usize,
    }
}

/// The fault of kind `kind` at the characters `text[from..to]`.
pub open spec fn spec_fault(text: Seq<char>, kind: ParseErrorKind, from: int, to: int)
    -> ParseFault {
    ParseFault::at(kind, spec_span(text, from, to))
}

/// Positions grow with the index.
pub proof fn lemma_positions_grow(text: Seq<char>, i: int, j: int)
    requires
        0 <= i <= j <= text.len(),
    ensures
        0 <= spec_byte(text, i) <= spec_byte(text, j),
        i <= spec_byte(text, i),
        1 <= spec_line(text, i) <= spec_line(text, j) <= j + 1,
        1 <= spec_column(text, i) <= i + 1,
        spec_line(text, i) == spec_line(text, j) ==> spec_column(text, i) <= spec_column(text, j),
    decreases j,
{
    if i < j {
        lemma_positions_grow(text, i, j - 1);
    } else if i > 0 {
        lemma_positions_grow(text, i - 1, i - 1);
    }
}

/// A text with the table of the positions of its characters.
pub struct Source {
    /// The characters.
    pub chars: Vec<char>,
    /// The position of each character, and of the end of the text.
    pub table: Vec<Position>,
}

impl Source {
    /// The table holds the position of every character and of the end.
    pub open spec fn well_formed(&self) -> bool {
        &&& spec_fits(self.chars@)
        &&& self.table.len() == self.chars.len() + 1
        &&& forall|i: int|
            0 <= i <= self.chars.len() ==> #[trigger] self.table[i] == spec_position(
                self.chars@,
                i,
            )
    }

    /// Counts the positions of the characters of `chars`, or returns the
    /// characters back if the text is too long for that.
    pub fn new(chars: Vec<char>) -> (r: Result<Source, Vec<char>>)
        ensures
            match r {
                Ok(src) => src.well_formed() && src.chars@ == chars@,
                Err(v) => !spec_fits(chars@) && v@ == chars@,
            },
    {
        if chars.len() == usize::MAX {
            return Err(chars);
        }
        let mut table: Vec<Position> = Vec::new();
        let mut at = Position { byte: 0, line: 1, column: 1 };
        table.push(at);
        let mut i: usize = 0;
        while i < chars.len()
            invariant
                i <= chars.len() < usize::MAX,
                table.len() == i + 1,
                at == spec_position(chars@, i as int),
                spec_byte(chars@, i as int) <= usize::MAX,
                forall|j: int| 0 <= j <= i ==> #[trigger] table[j] == spec_position(chars@, j),
            decreases chars.len() - i,
        {
            let c = chars[i];
            let w = utf8_width(c);
            proof {
                lemma_positions_grow(chars@, i as int, i as int);
                lemma_positions_grow(chars@, i + 1, chars.len() as int);
            }
            if at.byte > usize::MAX - w {
                return Err(chars);
            }
            at = if c == '\n' {
                Position { byte: at.byte + w, line: at.line + 1, column: 1 }
            } else {
                Position { byte: at.byte + w, line: at.line, column: at.column + 1 }
            };
            table.push(at);
            i += 1;
        }
        Ok(Source { chars, table })
    }

    /// The span of the characters `from..to`.
    pub fn span(&self, from: usize, to: usize) -> (s: Span)
        requires
            self.well_formed(),
            from <= to <= self.chars.len(),
        ensures
            s == spec_span(self.chars@, from as int, to as int),
    {
        let a = self.table[from];
        let b = self.table[to];
        Span { start: a.byte, end: b.byte, line: a.line, column: a.column }
    }

    /// The fault of kind `kind` at the characters `from..to`.
    pub fn fault(&self, kind: ParseErrorKind, from: usize, to: usize) -> (f: ParseFault)
        requires
            self.well_formed(),
            from <= to <= self.chars.len(),
        ensures
            f == spec_fault(self.chars@, kind, from as int, to as int),
    {
        ParseFault::new(kind, self.span(from, to))
    }

    /// The characters `from..to` with the span they stand at.
    pub fn slice(&self, from: usize, to: usize) -> (s: Spanned<String>)
        requires
            self.well_formed(),
            from <= to <= self.chars.len(),
        ensures
            s.deep_view() == spec_slice(self.chars@, from as int, to as int),
    {
        Spanned { value: chars_to_string(&self.chars, from, to), span: self.span(from, to) }
    }
}

/// The characters `text[from..to]` with the span they stand at.
pub open spec fn spec_slice(text: Seq<char>, from: int, to: int) -> Spanned<Seq<char>> {
    Spanned { value: text.subrange(from, to), span: spec_span(text, from, to) }
}

/// The places at which a plain scalar ends.
#[derive(Debug, Clone, Copy, PartialEq, Eq, Structural)]
pub enum Marker {
    /// A colon that is followed by a space or ends the region: it ends a key.
    KeyColon,
    /// A `#` that begins the region or follows a space: it begins a comment.
    Comment,
    /// Inside brackets: a comma, a closing bracket, a line feed, or a colon
    /// that is followed by white space or ends the text.
    FlowStop,
}

/// Whether the marker `m` stands at `text[i]`, in a region that begins at
/// `from` and ends before `to`.
pub open spec fn spec_is_marker(text: Seq<char>, i: int, from: int, to: int, m: Marker) -> bool {
    match m {
        Marker::KeyColon => text[i] == ':' && (i + 1 >= to || text[i + 1] == ' '),
        Marker::Comment => text[i] == '#' && (i <= from || text[i - 1] == ' '),
        Marker::FlowStop => text[i] == ',' || text[i] == ']' || text[i] == '}' || text[i] == '\n'
            || (text[i] == ':' && (i + 1 >= to || spec_is_whitespace(text[i + 1]))),
    }
}

/// The index of the first marker `m` in `text[p..to]`, or `to`.
pub open spec fn spec_find_marker(text: Seq<char>, p: int, from: int, to: int, m: Marker) -> int
    decreases to - p,
{
    if 0 <= from <= p < to <= text.len() && !spec_is_marker(text, p, from, to, m) {
        spec_find_marker(text, p + 1, from, to, m)
    } else {
        p
    }
}

/// Whether the marker `m` stands at `v[i]`.
fn is_marker(v: &Vec<char>, i: usize, from: usize, to: usize, m: Marker) -> (r: bool)
    requires
        from <= i < to <= v.len(),
    ensures
        r == spec_is_marker(v@, i as int, from as int, to as int, m),
{
    let c = v[i];
    match m {
        Marker::KeyColon => c == ':' && (i + 1 >= to || v[i + 1] == ' '),
        Marker::Comment => c == '#' && (i <= from || v[i - 1] == ' '),
        Marker::FlowStop => c == ',' || c == ']' || c == '}' || c == '\n' || (c == ':' && (i + 1
            >= to || is_whitespace(v[i + 1]))),
    }
}

/// The index of the first marker `m` in `v[from..to]`, or `to`.
pub fn find_marker(v: &Vec<char>, from: usize, to: usize, m: Marker) -> (r: usize)
    requires
        from <= to <= v.len(),
    ensures
        r == spec_find_marker(v@, from as int, from as int, to as int, m),
        from <= r <= to,
{
    let mut i: usize = from;
    while i < to && !is_marker(v, i, from, to, m)
        invariant
            from <= i <= to <= v.len(),
            spec_find_marker(v@, from as int, from as int, to as int, m) == spec_find_marker(
                v@,
                i as int,
                from as int,
                to as int,
                m,
            ),
        decreases to - i,
    {
        i += 1;
    }
    i
}

/// The character that a backslash and `c` stand for in a double-quoted
/// string, if they form an escape.
pub open spec fn spec_escape(c: char) -> Option<char> {
    if c == 'n' {
        Some('\n')
    } else if c == 't' {
        Some('\t')
    } else if c == 'r' {
        Some('\r')
    } else if c == '0' {
        Some('\0')
    } else if c == '"' || c == '\\' || c == '/' || c == '\'' {
        Some(c)
    } else {
        None
    }
}

/// The character that a backslash and `c` stand for, if they form an escape.
fn escape(c: char) -> (r: Option<char>)
    ensures
        r == spec_escape(c),
{
    if c == 'n' {
        Some('\n')
    } else if c == 't' {
        Some('\t')
    } else if c == 'r' {
        Some('\r')
    } else if c == '0' {
        Some('\0')
    } else if c == '"' || c == '\\' || c == '/' || c == '\'' {
        Some(c)
    } else {
        None
    }
}

/// The rest of a quoted scalar. The opening quote `q` stands before
/// `text[p]`, and `acc` holds what was read of the scalar so far. The result is
/// the content with the index after the closing quote, or what is wrong and
/// where. Between double quotes a backslash escapes the next character;
/// between single quotes two single quotes stand for one.
pub open spec fn spec_quoted(text: Seq<char>, p: int, q: char, acc: Seq<char>) -> Result<
    (Seq<char>, int),
    (ParseErrorKind, int),
>
    decreases text.len() - p,
{
    if !(0 <= p < text.len()) || text[p] == '\n' {
        Err((ParseErrorKind::UnterminatedString, p))
    } else if text[p] == q {
        if q == '\'' && p + 1 < text.len() && text[p + 1] == '\'' {
            spec_quoted(text, p + 2, q, acc.push('\''))
        } else {
            Ok((acc, p + 1))
        }
    } else if q == '"' && text[p] == '\\' {
        if p + 1 < text.len() {
            match spec_escape(text[p + 1]) {
                Some(c) => spec_quoted(text, p + 2, q, acc.push(c)),
                None => Err((ParseErrorKind::InvalidEscape, p)),
            }
        } else {
            Err((ParseErrorKind::UnterminatedString, p))
        }
    } else {
        spec_quoted(text, p + 1, q, acc.push(text[p]))
    }
}

pub proof fn lemma_quoted_bounds(text: Seq<char>, p: int, q: char, acc: Seq<char>)
    requires
        0 <= p <= text.len(),
    ensures
        match spec_quoted(text, p, q, acc) {
            Ok((content, end)) => p < end <= text.len(),
            Err((kind, at)) => p <= at <= text.len(),
        },
    decreases text.len() - p,
{
    if !(0 <= p < text.len()) || text[p] == '\n' {
    } else if text[p] == q {
        if q == '\'' && p + 1 < text.len() && text[p + 1] == '\'' {
            lemma_quoted_bounds(text, p + 2, q, acc.push('\''));
        }
    } else if q == '"' && text[p] == '\\' {
        if p + 1 < text.len() {
            match spec_escape(text[p + 1]) {
                Some(c) => lemma_quoted_bounds(text, p + 2, q, acc.push(c)),
                None => {},
            }
        }
    } else {
        lemma_quoted_bounds(text, p + 1, q, acc.push(text[p]));
    }
}

/// Reads the rest of a quoted scalar whose opening quote `q` stands before
/// `v[from]`.
pub fn read_quoted(v: &Vec<char>, from: usize, q: char) -> (r: Result<
    (String, usize),
    (ParseErrorKind, usize),
>)
    requires
        from <= v.len(),
    ensures
        match spec_quoted(v@, from as int, q, Seq::empty()) {
            Ok((content, end)) => r matches Ok((s, e)) && s@ == content && e == end && from < e
                <= v.len(),
            Err((kind, at)) => r matches Err((k, a)) && k == kind && a == at && from <= a
                <= v.len(),
        },
{
    let mut out = String::new();
    let mut p: usize = from;
    proof {
        lemma_quoted_bounds(v@, from as int, q, Seq::empty());
    }
    loop
        invariant
            from <= p <= v.len(),
            spec_quoted(v@, from as int, q, Seq::empty()) == spec_quoted(v@, p as int, q, out@),
            match spec_quoted(v@, from as int, q, Seq::empty()) {
                Ok((content, end)) => from < end <= v.len(),
                Err((kind, at)) => from <= at <= v.len(),
            },
        decreases v.len() - p,
    {
        if p >= v.len() || v[p] == '\n' {
            return Err((ParseErrorKind::UnterminatedString, p));
        }
        let c = v[p];
        if c == q {
            if q == '\'' && p + 1 < v.len() && v[p + 1] == '\'' {
                out.push('\'');
                p += 2;
            } else {
                return Ok((out, p + 1));
            }
        } else if q == '"' && c == '\\' {
            if p + 1 < v.len() {
                match escape(v[p + 1]) {
                    Some(x) => {
                        out.push(x);
                        p += 2;
                    },
                    None => {
                        return Err((ParseErrorKind::InvalidEscape, p));
                    },
                }
            } else {
                return Err((ParseErrorKind::UnterminatedString, p));
            }
        } else {
            out.push(c);
            p += 1;
        }
    }
}

/// Appends `e` to `out`.
pub fn push_entry(out: &mut Vec<Entry>, e: Entry)
    ensures
        final(out).deep_view() == old(out).deep_view().push(e.deep_view()),
        final(out)@ == old(out)@.push(e),
{
    out.push(e);
    assert(out.deep_view() =~= old(out).deep_view().push(e.deep_view()));
}


/// The index at which the line after the one that ends at `e` begins.
pub open spec fn spec_line_next(text: Seq<char>, e: int) -> int {
    if e < text.len() {
        e + 1
    } else {
        e
    }
}

/// An entry, from its parts.
pub open spec fn spec_entry(
    depth: int,
    item: bool,
    key: Option<Spanned<Seq<char>>>,
    value: Option<Spanned<Seq<char>>>,
    style: ScalarStyle,
    span: Span,
) -> EntryView {
    EntryView { depth: depth as usize, item, key, value, style, span }
}

/// The lines of a block scalar, from the line that begins at `p`. The block
/// holds the lines that are blank or indented by more than `indent`. The
/// first line that is not blank fixes the indentation `bi` that is cut from
/// each line. The result is the content, the index at which the block ends,
/// and the range of characters from its first to its last written line.
pub open spec fn spec_block(
    text: Seq<char>,
    p: int,
    indent: int,
    started: bool,
    bi: int,
    acc: Seq<char>,
    from: int,
    to: int,
) -> (Seq<char>, int, int, int)
    decreases text.len() - p,
{
    if !(0 <= p < text.len()) {
        (acc, p, from, to)
    } else {
        let e = spec_find_char(text, p, '\n');
        let a = spec_skip_char(text, p, e, ' ');
        let b = spec_cut_whitespace(text, a, e);
        let next = spec_line_next(text, e);
        if !(p <= a <= b <= e < next || (p <= a <= b <= e && e == text.len() && next == e)) {
            (acc, p, from, to)
        } else if a == b {
            spec_block(
                text,
                next,
                indent,
                started,
                bi,
                if started {
                    acc.push('\n')
                } else {
                    acc
                },
                from,
                to,
            )
        } else if a - p <= indent {
            (acc, p, from, to)
        } else {
            let start = if started && a - p > bi && bi >= 0 {
                p + bi
            } else {
                a
            };
            let joined = if started {
                acc.push('\n')
            } else {
                acc
            };
            spec_block(
                text,
                next,
                indent,
                true,
                if started {
                    bi
                } else {
                    a - p
                },
                joined + text.subrange(start, b),
                if started {
                    from
                } else {
                    a
                },
                b,
            )
        }
    }
}

/// Reads the lines of a block scalar that begins at the line at `p`.
fn read_block(src: &Source, begin: usize, indent: usize, h: usize) -> (r: (String, usize, usize, usize))
    requires
        src.well_formed(),
        begin <= src.chars.len(),
        h <= src.chars.len(),
    ensures
        (r.0@, r.1 as int, r.2 as int, r.3 as int) == spec_block(
            src.chars@,
            begin as int,
            indent as int,
            false,
            0,
            Seq::empty(),
            h as int,
            h as int,
        ),
        begin <= r.1 <= src.chars.len(),
        r.2 <= r.3 <= src.chars.len(),
{
    let v = &src.chars;
    let mut acc = String::new();
    let mut p: usize = begin;
    let mut started = false;
    let mut bi: usize = 0;
    let mut from: usize = h;
    let mut to: usize = h;
    while p < v.len()
        invariant
            begin <= p <= v.len(),
            from <= to <= v.len(),
            started ==> to <= p,
            v == &src.chars,
            spec_block(
                v@,
                begin as int,
                indent as int,
                false,
                0,
                Seq::empty(),
                h as int,
                h as int,
            ) == spec_block(
                v@,
                p as int,
                indent as int,
                started,
                bi as int,
                acc@,
                from as int,
                to as int,
            ),
        decreases v.len() - p,
    {
        let e = find_char(v, p, '\n');
        let a = skip_char(v, p, e, ' ');
        let b = cut_whitespace(v, a, e);
        let next = if e < v.len() {
            e + 1
        } else {
            e
        };
        if a == b {
            if started {
                acc.push('\n');
            }
            p = next;
        } else if a - p <= indent {
            return (acc, p, from, to);
        } else {
            let start = if started && a - p > bi {
                p + bi
            } else {
                a
            };
            if started {
                acc.push('\n');
            } else {
                bi = a - p;
                from = a;
                started = true;
            }
            push_chars(&mut acc, v, start, b);
            to = b;
            p = next;
        }
    }
    (acc, p, from, to)
}

/// `s` without the white space at its end.
pub open spec fn spec_trim_end(s: Seq<char>) -> Seq<char> {
    s.subrange(0, spec_cut_whitespace(s, 0, s.len() as int))
}

/// `s` without the white space at its end.
fn trim_end(s: &str) -> (r: String)
    ensures
        r@ == spec_trim_end(s@),
{
    let v = str_to_chars(s);
    let to = cut_whitespace(&v, 0, v.len());
    chars_to_string(&v, 0, to)
}

/// What the reader expects next between brackets.
#[derive(Debug, Clone, Copy, PartialEq, Eq, Structural)]
pub enum FlowMode {
    /// A key of a mapping, or the end of the mapping.
    Key,
    /// A value.
    Value,
    /// A comma or a closing bracket.
    After,
}

/// The state of the reader between brackets.
pub struct Flow {
    /// The brackets that are open, outermost first: `true` for `{`.
    pub stack: Vec<bool>,
    /// What is expected next.
    pub mode: FlowMode,
    /// The key whose value is expected.
    pub pending: Option<Spanned<String>>,
    /// Whether the outermost container is itself an element of a list.
    pub root_item: bool,
}

/// What a [`Flow`] holds, as mathematical values.
pub struct FlowView {
    pub stack: Seq<bool>,
    pub mode: FlowMode,
    pub pending: Option<Spanned<Seq<char>>>,
    pub root_item: bool,
}

impl DeepView for Flow {
    type V = FlowView;

    open spec fn deep_view(&self) -> FlowView {
        FlowView {
            stack: self.stack@,
            mode: self.mode,
            pending: self.pending.deep_view(),
            root_item: self.root_item,
        }
    }
}

/// One step between brackets, from `text[p]`: white space is skipped, then
/// one bracket, comma, key or scalar is read. `open_at` is where the
/// outermost bracket stands and `base` the depth of its entry. The result is
/// the index to go on from, the next state, the entry that the step adds, and
/// whether the outermost bracket was closed.
pub open spec fn spec_flow_step(text: Seq<char>, p: int, open_at: int, base: int, st: FlowView)
    -> Result<(int, FlowView, Option<EntryView>, bool), ParseFault> {
    let len = text.len() as int;
    let s = spec_skip_whitespace(text, p, len);
    let depth = base + st.stack.len();
    let top = st.stack.len() > 0 && st.stack.last();
    let in_list = if st.stack.len() > 0 {
        !st.stack.last()
    } else {
        st.root_item
    };
    if !(0 <= open_at < len) || !(0 <= s < len) {
        Err(spec_fault(text, ParseErrorKind::UnterminatedFlow, open_at, open_at))
    } else if depth + 1 > usize::MAX {
        Err(spec_fault(text, ParseErrorKind::InputTooLarge, s, s + 1))
    } else if st.mode == FlowMode::After || (st.stack.len() > 0 && ((text[s] == '}' && top
        && st.mode == FlowMode::Key) || (text[s] == ']' && !top && st.mode == FlowMode::Value))) {
        if text[s] == ',' && st.stack.len() > 0 && st.mode == FlowMode::After {
            Ok(
                (
                    s + 1,
                    FlowView {
                        mode: if top {
                            FlowMode::Key
                        } else {
                            FlowMode::Value
                        },
                        ..st
                    },
                    None,
                    false,
                ),
            )
        } else if st.stack.len() > 0 && ((text[s] == '}' && top) || (text[s] == ']' && !top)) {
            Ok(
                (
                    s + 1,
                    FlowView { stack: st.stack.drop_last(), mode: FlowMode::After, ..st },
                    None,
                    st.stack.len() == 1,
                ),
            )
        } else {
            Err(spec_fault(text, ParseErrorKind::UnexpectedCharacter, s, s + 1))
        }
    } else if st.mode == FlowMode::Key {
        if text[s] == '"' || text[s] == '\'' {
            match spec_quoted(text, s + 1, text[s], Seq::empty()) {
                Err((kind, at)) => Err(spec_fault(text, kind, s, at)),
                Ok((content, close)) => {
                    let t = spec_skip_whitespace(text, close, len);
                    if s < close <= t < len && text[t] == ':' {
                        Ok(
                            (
                                t + 1,
                                FlowView {
                                    mode: FlowMode::Value,
                                    pending: Some(
                                        Spanned { value: content, span: spec_span(text, s, close) },
                                    ),
                                    ..st
                                },
                                None,
                                false,
                            ),
                        )
                    } else {
                        Err(spec_fault(text, ParseErrorKind::ExpectedValue, s, s + 1))
                    }
                },
            }
        } else {
            let k = spec_find_marker(text, s, s, len, Marker::FlowStop);
            if s < k < len && text[k] == ':' {
                Ok(
                    (
                        k + 1,
                        FlowView {
                            mode: FlowMode::Value,
                            pending: Some(spec_slice(text, s, spec_cut_whitespace(text, s, k))),
                            ..st
                        },
                        None,
                        false,
                    ),
                )
            } else {
                Err(spec_fault(text, ParseErrorKind::ExpectedKey, s, s + 1))
            }
        }
    } else {
        if text[s] == '{' || text[s] == '[' {
            Ok(
                (
                    s + 1,
                    FlowView {
                        stack: st.stack.push(text[s] == '{'),
                        mode: if text[s] == '{' {
                            FlowMode::Key
                        } else {
                            FlowMode::Value
                        },
                        pending: None,
                        ..st
                    },
                    Some(
                        spec_entry(
                            depth,
                            in_list,
                            st.pending,
                            None,
                            ScalarStyle::Plain,
                            spec_span(text, s, s + 1),
                        ),
                    ),
                    false,
                ),
            )
        } else if text[s] == '"' || text[s] == '\'' {
            match spec_quoted(text, s + 1, text[s], Seq::empty()) {
                Err((kind, at)) => Err(spec_fault(text, kind, s, at)),
                Ok((content, close)) => Ok(
                    (
                        close,
                        FlowView { mode: FlowMode::After, pending: None, ..st },
                        Some(
                            spec_entry(
                                depth,
                                in_list,
                                st.pending,
                                Some(Spanned { value: content, span: spec_span(text, s, close) }),
                                ScalarStyle::Quoted,
                                spec_span(text, s, close),
                            ),
                        ),
                        false,
                    ),
                ),
            }
        } else {
            let k = spec_find_marker(text, s, s, len, Marker::FlowStop);
            let e = spec_cut_whitespace(text, s, k);
            if s < e <= k {
                Ok(
                    (
                        k,
                        FlowView { mode: FlowMode::After, pending: None, ..st },
                        Some(
                            spec_entry(
                                depth,
                                in_list,
                                st.pending,
                                Some(spec_slice(text, s, e)),
                                ScalarStyle::Plain,
                                spec_span(text, s, e),
                            ),
                        ),
                        false,
                    ),
                )
            } else {
                Err(spec_fault(text, ParseErrorKind::UnexpectedCharacter, s, s + 1))
            }
        }
    }
}

/// What is read between brackets from `text[p]` until the outermost bracket
/// is closed: the index after that bracket and `acc` with the entries added.
pub open spec fn spec_flow(
    text: Seq<char>,
    p: int,
    open_at: int,
    base: int,
    st: FlowView,
    acc: Seq<EntryView>,
) -> Result<(int, Seq<EntryView>), ParseFault>
    decreases text.len() - p,
{
    match spec_flow_step(text, p, open_at, base, st) {
        Err(e) => Err(e),
        Ok((next, st2, emit, done)) => {
            let acc2 = match emit {
                Some(e) => acc.push(e),
                None => acc,
            };
            if done || !(p < next <= text.len()) {
                Ok((next, acc2))
            } else {
                spec_flow(text, next, open_at, base, st2, acc2)
            }
        },
    }
}

/// Takes the key that waits for its value.
fn take_pending(st: &mut Flow) -> (r: Option<Spanned<String>>)
    ensures
        r == old(st).pending,
        final(st).pending is None,
        final(st).stack == old(st).stack,
        final(st).mode == old(st).mode,
        final(st).root_item == old(st).root_item,
{
    let mut key: Option<Spanned<String>> = None;
    std::mem::swap(&mut key, &mut st.pending);
    key
}

/// One step between brackets.
fn flow_step(src: &Source, p: usize, open_at: usize, base: usize, st: &mut Flow, out: &mut Vec<
    Entry,
>) -> (r: Result<(usize, bool), ParseFault>)
    requires
        src.well_formed(),
        p <= src.chars.len(),
        open_at < src.chars.len(),
    ensures
        match spec_flow_step(
            src.chars@,
            p as int,
            open_at as int,
            base as int,
            old(st).deep_view(),
        ) {
            Err(e) => r == Err::<(usize, bool), ParseFault>(e),
            Ok((next, st2, emit, done)) => {
                &&& r == Ok::<(usize, bool), ParseFault>((next as usize, done))
                &&& p < next <= src.chars.len()
                &&& final(st).deep_view() == st2
                &&& final(out).deep_view() == match emit {
                    Some(e) => old(out).deep_view().push(e),
                    None => old(out).deep_view(),
                }
            },
        },
{
    let v = &src.chars;
    let len = v.len();
    let s = skip_whitespace(v, p, len);
    if s >= len {
        return Err(src.fault(ParseErrorKind::UnterminatedFlow, open_at, open_at));
    }
    let n = st.stack.len();
    if base >= usize::MAX - n {
        return Err(src.fault(ParseErrorKind::InputTooLarge, s, s + 1));
    }
    let depth = base + n;
    let top = n > 0 && st.stack[n - 1];
    let in_list = if n > 0 {
        !st.stack[n - 1]
    } else {
        st.root_item
    };
    let c = v[s];
    let ghost before = st.deep_view();
    if st.mode == FlowMode::After || (n > 0 && ((c == '}' && top && st.mode == FlowMode::Key) || (c
        == ']' && !top && st.mode == FlowMode::Value))) {
        if c == ',' && n > 0 && st.mode == FlowMode::After {
            st.mode = if top {
                FlowMode::Key
            } else {
                FlowMode::Value
            };
            Ok((s + 1, false))
        } else if n > 0 && ((c == '}' && top) || (c == ']' && !top)) {
            st.stack.pop();
            st.mode = FlowMode::After;
            assert(st.stack@ =~= before.stack.drop_last());
            Ok((s + 1, n == 1))
        } else {
            Err(src.fault(ParseErrorKind::UnexpectedCharacter, s, s + 1))
        }
    } else if st.mode == FlowMode::Key {
        if c == '"' || c == '\'' {
            match read_quoted(v, s + 1, c) {
                Err((kind, at)) => Err(src.fault(kind, s, at)),
                Ok((content, close)) => {
                    let t = skip_whitespace(v, close, len);
                    if t < len && v[t] == ':' {
                        st.mode = FlowMode::Value;
                        st.pending = Some(Spanned { value: content, span: src.span(s, close) });
                        Ok((t + 1, false))
                    } else {
                        Err(src.fault(ParseErrorKind::ExpectedValue, s, s + 1))
                    }
                },
            }
        } else {
            let k = find_marker(v, s, len, Marker::FlowStop);
            if s < k && k < len && v[k] == ':' {
                let e = cut_whitespace(v, s, k);
                st.mode = FlowMode::Value;
                st.pending = Some(src.slice(s, e));
                Ok((k + 1, false))
            } else {
                Err(src.fault(ParseErrorKind::ExpectedKey, s, s + 1))
            }
        }
    } else {
        if c == '{' || c == '[' {
            let key = take_pending(st);
            st.stack.push(c == '{');
            st.mode = if c == '{' {
                FlowMode::Key
            } else {
                FlowMode::Value
            };
            assert(st.stack@ =~= before.stack.push(c == '{'));
            push_entry(
                out,
                Entry {
                    depth,
                    item: in_list,
                    key,
                    value: None,
                    style: ScalarStyle::Plain,
                    span: src.span(s, s + 1),
                },
            );
            Ok((s + 1, false))
        } else if c == '"' || c == '\'' {
            match read_quoted(v, s + 1, c) {
                Err((kind, at)) => Err(src.fault(kind, s, at)),
                Ok((content, close)) => {
                    let key = take_pending(st);
                    st.mode = FlowMode::After;
                    let span = src.span(s, close);
                    push_entry(
                        out,
                        Entry {
                            depth,
                            item: in_list,
                            key,
                            value: Some(Spanned { value: content, span }),
                            style: ScalarStyle::Quoted,
                            span,
                        },
                    );
                    Ok((close, false))
                },
            }
        } else {
            let k = find_marker(v, s, len, Marker::FlowStop);
            let e = cut_whitespace(v, s, k);
            if s < e {
                let key = take_pending(st);
                st.mode = FlowMode::After;
                push_entry(
                    out,
                    Entry {
                        depth,
                        item: in_list,
                        key,
                        value: Some(src.slice(s, e)),
                        style: ScalarStyle::Plain,
                        span: src.span(s, e),
                    },
                );
                Ok((k, false))
            } else {
                Err(src.fault(ParseErrorKind::UnexpectedCharacter, s, s + 1))
            }
        }
    }
}

/// Reads what stands between brackets from the bracket at `open_at`.
#[verifier::loop_isolation(false)]
fn read_flow(
    src: &Source,
    open_at: usize,
    base: usize,
    key: Option<Spanned<String>>,
    item: bool,
    out: &mut Vec<Entry>,
) -> (r: Result<usize, ParseFault>)
    requires
        src.well_formed(),
        open_at < src.chars.len(),
    ensures
        match spec_flow(
            src.chars@,
            open_at as int,
            open_at as int,
            base as int,
            FlowView {
                stack: Seq::empty(),
                mode: FlowMode::Value,
                pending: key.deep_view(),
                root_item: item,
            },
            old(out).deep_view(),
        ) {
            Err(e) => r == Err::<usize, ParseFault>(e),
            Ok((next, acc)) => {
                &&& r matches Ok(n)
                &&& n == next
                &&& open_at < next <= src.chars.len()
                &&& final(out).deep_view() == acc
            },
        },
{
    let ghost start = FlowView {
        stack: Seq::empty(),
        mode: FlowMode::Value,
        pending: key.deep_view(),
        root_item: item,
    };
    let mut st = Flow { stack: Vec::new(), mode: FlowMode::Value, pending: key, root_item: item };
    let mut p: usize = open_at;
    assert(st.deep_view().stack =~= start.stack);
    loop
        invariant
            src.well_formed(),
            open_at <= p < src.chars.len(),
            spec_flow(
                src.chars@,
                open_at as int,
                open_at as int,
                base as int,
                start,
                old(out).deep_view(),
            ) == spec_flow(
                src.chars@,
                p as int,
                open_at as int,
                base as int,
                st.deep_view(),
                out.deep_view(),
            ),
        decreases src.chars.len() - p,
    {
        match flow_step(src, p, open_at, base, &mut st, out) {
            Err(e) => {
                return Err(e);
            },
            Ok((next, done)) => {
                if done || next >= src.chars.len() {
                    if !done {
                        let ghost st2 = st.deep_view();
                        let ghost acc2 = out.deep_view();
                        assert(spec_flow_step(
                            src.chars@,
                            next as int,
                            open_at as int,
                            base as int,
                            st2,
                        ) is Err) by {
                            lemma_skip_whitespace_bounds(
                                src.chars@,
                                next as int,
                                src.chars.len() as int,
                            );
                        }
                        return Err(
                            src.fault(ParseErrorKind::UnterminatedFlow, open_at, open_at),
                        );
                    }
                    return Ok(next);
                }
                p = next;
            },
        }
    }
}


/// What may follow a value that ends before `text[q]`: the rest of the line
/// must be blank or a comment. The result is the index at which the next
/// line begins.
pub open spec fn spec_rest(text: Seq<char>, q: int) -> Result<int, ParseFault> {
    let e = spec_find_char(text, q, '\n');
    let t = spec_skip_whitespace(text, q, e);
    if t >= e || text[t] == '#' {
        Ok(spec_line_next(text, e))
    } else {
        Err(spec_fault(text, ParseErrorKind::UnexpectedCharacter, t, t + 1))
    }
}

/// Checks the rest of the line after a value that ends before `q`.
fn read_rest(src: &Source, q: usize) -> (r: Result<usize, ParseFault>)
    requires
        src.well_formed(),
        q <= src.chars.len(),
    ensures
        r == match spec_rest(src.chars@, q as int) {
            Ok(n) => Ok::<usize, ParseFault>(n as usize),
            Err(f) => Err::<usize, ParseFault>(f),
        },
        r matches Ok(n) ==> q <= n <= src.chars.len() && n == spec_rest(src.chars@, q as int)->Ok_0,
{
    let v = &src.chars;
    let e = find_char(v, q, '\n');
    let t = skip_whitespace(v, q, e);
    if t >= e || v[t] == '#' {
        if e < v.len() {
            Ok(e + 1)
        } else {
            Ok(e)
        }
    } else {
        Err(src.fault(ParseErrorKind::UnexpectedCharacter, t, t + 1))
    }
}

/// What the value of an entry reads as. The entry begins at `text[es]` on the
/// line that begins at `text[p]`; its value is looked for from `text[v0]`
/// to the end `b` of what is written on the line, which ends at `text[e]`.
/// The result is the index at which the next line begins and `acc` with the
/// entries added.
#[verifier::opaque]
pub open spec fn spec_read_value(
    text: Seq<char>,
    key: Option<Spanned<Seq<char>>>,
    item: bool,
    depth: int,
    p: int,
    es: int,
    v0: int,
    b: int,
    e: int,
    acc: Seq<EntryView>,
) -> Result<(int, Seq<EntryView>), ParseFault> {
    let v = spec_skip_char(text, v0, b, ' ');
    let next = spec_line_next(text, e);
    if v >= b || text[v] == '#' {
        Ok(
            (
                next,
                acc.push(
                    spec_entry(depth, item, key, None, ScalarStyle::Plain, spec_span(text, es, v0)),
                ),
            ),
        )
    } else if text[v] == '|' || text[v] == '>' {
        let block = spec_block(text, next, es - p, false, 0, Seq::empty(), v, v);
        Ok(
            (
                block.1,
                acc.push(
                    spec_entry(
                        depth,
                        item,
                        key,
                        Some(
                            Spanned {
                                value: spec_trim_end(block.0),
                                span: spec_span(text, block.2, block.3),
                            },
                        ),
                        ScalarStyle::Block,
                        spec_span(text, es, v + 1),
                    ),
                ),
            ),
        )
    } else if text[v] == '"' || text[v] == '\'' {
        match spec_quoted(text, v + 1, text[v], Seq::empty()) {
            Err((kind, at)) => Err(spec_fault(text, kind, v, at)),
            Ok((content, close)) => match spec_rest(text, close) {
                Err(f) => Err(f),
                Ok(n) => Ok(
                    (
                        n,
                        acc.push(
                            spec_entry(
                                depth,
                                item,
                                key,
                                Some(Spanned { value: content, span: spec_span(text, v, close) }),
                                ScalarStyle::Quoted,
                                spec_span(text, es, close),
                            ),
                        ),
                    ),
                ),
            },
        }
    } else if text[v] == '[' || text[v] == '{' {
        match spec_flow(
            text,
            v,
            v,
            depth,
            FlowView { stack: Seq::empty(), mode: FlowMode::Value, pending: key, root_item: item },
            acc,
        ) {
            Err(f) => Err(f),
            Ok((q, acc2)) => match spec_rest(text, q) {
                Err(f) => Err(f),
                Ok(n) => Ok((n, acc2)),
            },
        }
    } else {
        let h = spec_find_marker(text, v, v, b, Marker::Comment);
        let b2 = spec_cut_whitespace(text, v, h);
        Ok(
            (
                next,
                acc.push(
                    spec_entry(
                        depth,
                        item,
                        key,
                        Some(spec_slice(text, v, b2)),
                        ScalarStyle::Plain,
                        spec_span(text, es, b2),
                    ),
                ),
            ),
        )
    }
}

/// Reads the value of an entry.
fn read_value(
    src: &Source,
    key: Option<Spanned<String>>,
    item: bool,
    depth: usize,
    p: usize,
    es: usize,
    v0: usize,
    b: usize,
    e: usize,
    out: &mut Vec<Entry>,
) -> (r: Result<usize, ParseFault>)
    requires
        src.well_formed(),
        p <= es <= v0 <= b <= src.chars.len(),
        p <= e <= src.chars.len(),
        p < src.chars.len(),
    ensures
        match spec_read_value(
            src.chars@,
            key.deep_view(),
            item,
            depth as int,
            p as int,
            es as int,
            v0 as int,
            b as int,
            e as int,
            old(out).deep_view(),
        ) {
            Err(f) => r == Err::<usize, ParseFault>(f),
            Ok((next, acc)) => {
                &&& r matches Ok(n)
                &&& n == next
                &&& p < next <= src.chars.len()
                &&& final(out).deep_view() == acc
            },
        },
{
    reveal(spec_read_value);
    let t = &src.chars;
    let v = skip_char(t, v0, b, ' ');
    let next = if e < t.len() {
        e + 1
    } else {
        e
    };
    if v >= b || t[v] == '#' {
        push_entry(
            out,
            Entry {
                depth,
                item,
                key,
                value: None,
                style: ScalarStyle::Plain,
                span: src.span(es, v0),
            },
        );
        Ok(next)
    } else if t[v] == '|' || t[v] == '>' {
        let block = read_block(src, next, es - p, v);
        let content = trim_end(block.0.as_str());
        push_entry(
            out,
            Entry {
                depth,
                item,
                key,
                value: Some(Spanned { value: content, span: src.span(block.2, block.3) }),
                style: ScalarStyle::Block,
                span: src.span(es, v + 1),
            },
        );
        Ok(block.1)
    } else if t[v] == '"' || t[v] == '\'' {
        match read_quoted(t, v + 1, t[v]) {
            Err((kind, at)) => Err(src.fault(kind, v, at)),
            Ok((content, close)) => match read_rest(src, close) {
                Err(f) => Err(f),
                Ok(n) => {
                    push_entry(
                        out,
                        Entry {
                            depth,
                            item,
                            key,
                            value: Some(Spanned { value: content, span: src.span(v, close) }),
                            style: ScalarStyle::Quoted,
                            span: src.span(es, close),
                        },
                    );
                    Ok(n)
                },
            },
        }
    } else if t[v] == '[' || t[v] == '{' {
        match read_flow(src, v, depth, key, item, out) {
            Err(f) => Err(f),
            Ok(q) => match read_rest(src, q) {
                Err(f) => Err(f),
                Ok(n) => Ok(n),
            },
        }
    } else {
        let h = find_marker(t, v, b, Marker::Comment);
        let b2 = cut_whitespace(t, v, h);
        push_entry(
            out,
            Entry {
                depth,
                item,
                key,
                value: Some(src.slice(v, b2)),
                style: ScalarStyle::Plain,
                span: src.span(es, b2),
            },
        );
        Ok(next)
    }
}

/// What a line that holds an entry reads as. The line begins at `text[p]`,
/// what is written on it stands in `text[a..b]`, and it ends at `text[e]`. A
/// leading dash makes the entry an element of a list. The depth of the entry
/// is twice its indentation, and one more for an element of a list.
pub open spec fn spec_read_entry(
    text: Seq<char>,
    p: int,
    a: int,
    b: int,
    e: int,
    acc: Seq<EntryView>,
) -> Result<(int, Seq<EntryView>), ParseFault> {
    let item = text[a] == '-' && (a + 1 >= b || text[a + 1] == ' ');
    let c = if item {
        spec_skip_char(text, a + 1, b, ' ')
    } else {
        a
    };
    let depth = 2 * (a - p) + if item {
        1int
    } else {
        0int
    };
    let next = spec_line_next(text, e);
    if 2 * (a - p) + 2 > usize::MAX {
        Err(spec_fault(text, ParseErrorKind::InputTooLarge, a, b))
    } else if c >= b {
        Ok(
            (
                next,
                acc.push(
                    spec_entry(depth, true, None, None, ScalarStyle::Plain, spec_span(text, a, b)),
                ),
            ),
        )
    } else if text[c] == '"' || text[c] == '\'' {
        match spec_quoted(text, c + 1, text[c], Seq::empty()) {
            Err((kind, at)) => Err(spec_fault(text, kind, c, at)),
            Ok((content, close)) => {
                let lim = if close <= b {
                    b
                } else {
                    close
                };
                let d = spec_skip_char(text, close, lim, ' ');
                let quoted = Spanned { value: content, span: spec_span(text, c, close) };
                if d < lim && text[d] == ':' && (d + 1 >= lim || text[d + 1] == ' ') {
                    spec_read_value(text, Some(quoted), item, depth, p, a, d + 1, lim, e, acc)
                } else if item {
                    match spec_rest(text, close) {
                        Err(f) => Err(f),
                        Ok(n) => Ok(
                            (
                                n,
                                acc.push(
                                    spec_entry(
                                        depth,
                                        true,
                                        None,
                                        Some(quoted),
                                        ScalarStyle::Quoted,
                                        spec_span(text, a, close),
                                    ),
                                ),
                            ),
                        ),
                    }
                } else {
                    Err(spec_fault(text, ParseErrorKind::ExpectedKey, c, close))
                }
            },
        }
    } else if text[c] == '[' || text[c] == '{' {
        spec_read_value(text, None, item, depth, p, a, c, b, e, acc)
    } else {
        let h = spec_find_marker(text, c, c, b, Marker::Comment);
        let b2 = spec_cut_whitespace(text, c, h);
        let k = spec_find_marker(text, c, c, b2, Marker::KeyColon);
        if c < k < b2 {
            spec_read_value(
                text,
                Some(spec_slice(text, c, spec_cut_whitespace(text, c, k))),
                item,
                depth,
                p,
                a,
                k + 1,
                b,
                e,
                acc,
            )
        } else if item && k >= b2 {
            Ok(
                (
                    next,
                    acc.push(
                        spec_entry(
                            depth,
                            true,
                            None,
                            Some(spec_slice(text, c, b2)),
                            ScalarStyle::Plain,
                            spec_span(text, a, b2),
                        ),
                    ),
                ),
            )
        } else {
            Err(spec_fault(text, ParseErrorKind::ExpectedKey, c, b2))
        }
    }
}

/// Reads a line that holds an entry.
fn read_entry(src: &Source, p: usize, a: usize, b: usize, e: usize, out: &mut Vec<Entry>) -> (r:
    Result<usize, ParseFault>)
    requires
        src.well_formed(),
        p <= a < b <= e <= src.chars.len(),
    ensures
        match spec_read_entry(
            src.chars@,
            p as int,
            a as int,
            b as int,
            e as int,
            old(out).deep_view(),
        ) {
            Err(f) => r == Err::<usize, ParseFault>(f),
            Ok((next, acc)) => {
                &&& r matches Ok(n)
                &&& n == next
                &&& p < next <= src.chars.len()
                &&& final(out).deep_view() == acc
            },
        },
{
    let t = &src.chars;
    let item = t[a] == '-' && (a + 1 >= b || t[a + 1] == ' ');
    let c = if item {
        skip_char(t, a + 1, b, ' ')
    } else {
        a
    };
    let next = if e < t.len() {
        e + 1
    } else {
        e
    };
    if a - p > (usize::MAX - 2) / 2 {
        return Err(src.fault(ParseErrorKind::InputTooLarge, a, b));
    }
    let depth = 2 * (a - p) + if item {
        1
    } else {
        0
    };
    if c >= b {
        push_entry(
            out,
            Entry {
                depth,
                item: true,
                key: None,
                value: None,
                style: ScalarStyle::Plain,
                span: src.span(a, b),
            },
        );
        Ok(next)
    } else if t[c] == '"' || t[c] == '\'' {
        match read_quoted(t, c + 1, t[c]) {
            Err((kind, at)) => Err(src.fault(kind, c, at)),
            Ok((content, close)) => {
                let lim = if close <= b {
                    b
                } else {
                    close
                };
                let d = skip_char(t, close, lim, ' ');
                let quoted = Spanned { value: content, span: src.span(c, close) };
                if d < lim && t[d] == ':' && (d + 1 >= lim || t[d + 1] == ' ') {
                    read_value(src, Some(quoted), item, depth, p, a, d + 1, lim, e, out)
                } else if item {
                    match read_rest(src, close) {
                        Err(f) => Err(f),
                        Ok(n) => {
                            push_entry(
                                out,
                                Entry {
                                    depth,
                                    item: true,
                                    key: None,
                                    value: Some(quoted),
                                    style: ScalarStyle::Quoted,
                                    span: src.span(a, close),
                                },
                            );
                            Ok(n)
                        },
                    }
                } else {
                    Err(src.fault(ParseErrorKind::ExpectedKey, c, close))
                }
            },
        }
    } else if t[c] == '[' || t[c] == '{' {
        read_value(src, None, item, depth, p, a, c, b, e, out)
    } else {
        let h = find_marker(t, c, b, Marker::Comment);
        let b2 = cut_whitespace(t, c, h);
        let k = find_marker(t, c, b2, Marker::KeyColon);
        if c < k && k < b2 {
            let kend = cut_whitespace(t, c, k);
            read_value(src, Some(src.slice(c, kend)), item, depth, p, a, k + 1, b, e, out)
        } else if item && k >= b2 {
            push_entry(
                out,
                Entry {
                    depth,
                    item: true,
                    key: None,
                    value: Some(src.slice(c, b2)),
                    style: ScalarStyle::Plain,
                    span: src.span(a, b2),
                },
            );
            Ok(next)
        } else {
            Err(src.fault(ParseErrorKind::ExpectedKey, c, b2))
        }
    }
}

/// What the line that begins at `text[p]` reads as. Blank lines, comments
/// and the marker `---` add nothing. A line must not be indented with a tab.
pub open spec fn spec_read_line(text: Seq<char>, p: int, acc: Seq<EntryView>) -> Result<
    (int, Seq<EntryView>),
    ParseFault,
> {
    let e = spec_find_char(text, p, '\n');
    let a = spec_skip_char(text, p, e, ' ');
    let b = spec_cut_whitespace(text, a, e);
    let next = spec_line_next(text, e);
    if a >= b {
        Ok((next, acc))
    } else if text[a] == '#' {
        Ok((next, acc))
    } else if text[a] == '\t' {
        Err(spec_fault(text, ParseErrorKind::TabInIndentation, a, a + 1))
    } else if b - a == 3 && text[a] == '-' && text[a + 1] == '-' && text[a + 2] == '-' {
        Ok((next, acc))
    } else {
        spec_read_entry(text, p, a, b, e, acc)
    }
}

/// Reads the line that begins at `p`.
fn read_line(src: &Source, p: usize, out: &mut Vec<Entry>) -> (r: Result<usize, ParseFault>)
    requires
        src.well_formed(),
        p < src.chars.len(),
    ensures
        match spec_read_line(src.chars@, p as int, old(out).deep_view()) {
            Err(f) => r == Err::<usize, ParseFault>(f),
            Ok((next, acc)) => {
                &&& r matches Ok(n)
                &&& n == next
                &&& p < next <= src.chars.len()
                &&& final(out).deep_view() == acc
            },
        },
{
    let t = &src.chars;
    let e = find_char(t, p, '\n');
    let a = skip_char(t, p, e, ' ');
    let b = cut_whitespace(t, a, e);
    let next = if e < t.len() {
        e + 1
    } else {
        e
    };
    if a >= b {
        Ok(next)
    } else if t[a] == '#' {
        Ok(next)
    } else if t[a] == '\t' {
        Err(src.fault(ParseErrorKind::TabInIndentation, a, a + 1))
    } else if b - a == 3 && t[a] == '-' && t[a + 1] == '-' && t[a + 2] == '-' {
        Ok(next)
    } else {
        read_entry(src, p, a, b, e, out)
    }
}

/// What the lines from `text[p]` on read as.
pub open spec fn spec_read_lines(text: Seq<char>, p: int, acc: Seq<EntryView>) -> Result<
    Seq<EntryView>,
    ParseFault,
>
    decreases text.len() - p,
{
    if !(0 <= p < text.len()) {
        Ok(acc)
    } else {
        match spec_read_line(text, p, acc) {
            Err(f) => Err(f),
            Ok((next, acc2)) => if p < next <= text.len() {
                spec_read_lines(text, next, acc2)
            } else {
                Ok(acc2)
            },
        }
    }
}

/// The entries that `text` reads as, in the order in which they are written.
pub open spec fn spec_read_document(text: Seq<char>) -> Result<Seq<EntryView>, ParseFault> {
    if !spec_fits(text) {
        Err(
            ParseFault::at(
                ParseErrorKind::InputTooLarge,
                Span { start: 0, end: 0, line: 1, column: 1 },
            ),
        )
    } else {
        spec_read_lines(text, 0, Seq::empty())
    }
}

/// Reads `chars` into entries. A text in either dialect is accepted: lines
/// of keys and list items nested by indentation, and mappings and lists
/// between brackets.
#[verifier::loop_isolation(false)]
pub fn read_chars(chars: Vec<char>) -> (r: Result<(Source, Vec<Entry>), ParseFault>)
    ensures
        match spec_read_document(chars@) {
            Ok(entries) => r matches Ok((src, v)) && v.deep_view() == entries && src.well_formed()
                && src.chars@ == chars@,
            Err(f) => r matches Err(g) && g == f,
        },
{
    let src = match Source::new(chars) {
        Ok(src) => src,
        Err(_) => {
            return Err(
                ParseFault::new(
                    ParseErrorKind::InputTooLarge,
                    Span { start: 0, end: 0, line: 1, column: 1 },
                ),
            );
        },
    };
    let mut out: Vec<Entry> = Vec::new();
    let mut p: usize = 0;
    assert(out.deep_view() =~= Seq::empty());
    while p < src.chars.len()
        invariant
            p <= src.chars.len(),
            spec_read_lines(src.chars@, 0, Seq::empty()) == spec_read_lines(
                src.chars@,
                p as int,
                out.deep_view(),
            ),
        decreases src.chars.len() - p,
    {
        match read_line(&src, p, &mut out) {
            Err(f) => {
                return Err(f);
            },
            Ok(next) => {
                p = next;
            },
        }
    }
    Ok((src, out))
}

/// Reads `input` into entries.
pub fn read_document(input: &str) -> (r: Result<Vec<Entry>, ParseFault>)
    ensures
        match spec_read_document(input@) {
            Ok(entries) => r matches Ok(v) && v.deep_view() == entries,
            Err(f) => r matches Err(g) && g == f,
        },
{
    match read_chars(str_to_chars(input)) {
        Ok((_, v)) => Ok(v),
        Err(f) => Err(f),
    }
}

/// The two dialects in which a document can be written.
#[derive(Debug, Clone, Copy, PartialEq, Eq, Structural)]
pub enum Dialect {
    /// Keys and list items on lines, nested by indentation.
    Indented,
    /// Mappings and lists between brackets.
    Braced,
}

/// The dialect that a text is written in, by its first character that is
/// not white space: a bracket begins the braced dialect.
pub open spec fn spec_sniff(text: Seq<char>) -> Dialect {
    let s = spec_skip_whitespace(text, 0, text.len() as int);
    if 0 <= s < text.len() && (text[s] == '{' || text[s] == '[') {
        Dialect::Braced
    } else {
        Dialect::Indented
    }
}

/// The dialect that `input` is written in, by its content.
pub fn sniff_dialect(input: &str) -> (d: Dialect)
    ensures
        d == spec_sniff(input@),
{
    let v = str_to_chars(input);
    let s = skip_whitespace(&v, 0, v.len());
    if s < v.len() && (v[s] == '{' || v[s] == '[') {
        Dialect::Braced
    } else {
        Dialect::Indented
    }
}

} // verus!
