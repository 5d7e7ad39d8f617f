//! Source positions.

use vstd::prelude::*;

verus! {

/// A region of source text: the byte range `[start, end)` and the 1-indexed
/// line and column of its first character.
#[derive(Debug, Clone, Copy, PartialEq, Eq, Structural)]
pub struct Span {
    /// Byte offset of the first character.
    pub start: usize,
    /// Byte offset one past the last character.
    pub end: usize,
    /// Line of the first character, counted from 1.
    pub line: usize,
    /// Column of the first character, counted from 1.
    pub column: usize,
}

impl DeepView for Span {
    type V = Span;

    open spec fn deep_view(&self) -> Span {
        *self
    }
}

impl Span {
    /// The byte range is not reversed and the position is 1-indexed.
    pub open spec fn well_formed(self) -> bool {
        &&& self.start <= self.end
        &&& self.line >= 1
        &&& self.column >= 1
    }

    /// `self` starts at or before the position at which `other` starts.
    pub open spec fn starts_no_later(self, other: Span) -> bool {
        self.line < other.line || (self.line == other.line && self.column <= other.column)
    }

    /// The byte range of `other` lies inside that of `self`, and `self` does
    /// not start after `other`.
    pub open spec fn covers(self, other: Span) -> bool {
        &&& self.start <= other.start
        &&& other.end <= self.end
        &&& self.starts_no_later(other)
    }

    /// The smallest region that holds both: the least start, the greatest
    /// end, and the earlier of the two `(line, column)` positions.
    pub open spec fn spec_merge(self, other: Span) -> Span {
        Span {
            start: if self.start <= other.start { self.start } else { other.start },
            end: if self.end >= other.end { self.end } else { other.end },
            line: if self.starts_no_later(other) { self.line } else { other.line },
            column: if self.starts_no_later(other) { self.column } else { other.column },
        }
    }

    /// Creates a span from its four coordinates.
    pub fn new(start: usize, end: usize, line: usize, column: usize) -> (s: Span)
        ensures
            s == (Span { start, end, line, column }),
    {
        Span { start, end, line, column }
    }

    /// The smallest span that holds both `self` and `other`.
    pub fn merge(&self, other: &Span) -> (m: Span)
        ensures
            m == self.spec_merge(*other),
    {
        let first = self.line < other.line || (self.line == other.line && self.column
            <= other.column);
        Span {
            start: if self.start <= other.start { self.start } else { other.start },
            end: if self.end >= other.end { self.end } else { other.end },
            line: if first { self.line } else { other.line },
            column: if first { self.column } else { other.column },
        }
    }
}

/// A merged span covers both of its parts and is well formed when they are.
pub proof fn lemma_merge_covers(a: Span, b: Span)
    ensures
        a.spec_merge(b).covers(a),
        a.spec_merge(b).covers(b),
        a.well_formed() && b.well_formed() ==> a.spec_merge(b).well_formed(),
{
}

/// Merging is commutative, associative and idempotent.
pub proof fn law_merge_algebra(a: Span, b: Span, c: Span)
    ensures
        a.spec_merge(b) == b.spec_merge(a),
        a.spec_merge(b).spec_merge(c) == a.spec_merge(b.spec_merge(c)),
        a.spec_merge(a) == a,
{
}

/// Covering is reflexive and transitive.
pub proof fn lemma_covers_order(a: Span, b: Span, c: Span)
    ensures
        a.covers(a),
        a.covers(b) && b.covers(c) ==> a.covers(c),
{
}

/// A value together with the region of source text it was read from.
#[derive(Debug, Clone, PartialEq)]
pub struct Spanned<T> {
    /// The value.
    pub value: T,
    /// Where it stands in the source.
    pub span: Span,
}

impl<T: DeepView> DeepView for Spanned<T> {
    type V = Spanned<T::V>;

    open spec fn deep_view(&self) -> Spanned<T::V> {
        Spanned { value: self.value.deep_view(), span: self.span }
    }
}

/// Every span in the list lies inside `outer`.
pub open spec fn spec_list_within<T>(list: Seq<Spanned<T>>, outer: Span) -> bool {
    forall|i: int| 0 <= i < list.len() ==> outer.covers((#[trigger] list[i]).span)
}

/// The span of the value, if there is one, lies inside `outer`.
pub open spec fn spec_opt_within<T>(x: Option<Spanned<T>>, outer: Span) -> bool {
    x matches Some(s) ==> outer.covers(s.span)
}

/// The span of every value of the mapping lies inside `outer`.
pub open spec fn spec_pairs_within<T>(pairs: Seq<(Seq<char>, Spanned<T>)>, outer: Span) -> bool {
    forall|i: int| 0 <= i < pairs.len() ==> outer.covers((#[trigger] pairs[i]).1.span)
}

/// Spans that lie inside a span lie inside every span that covers it.
pub proof fn lemma_list_widen<T>(list: Seq<Spanned<T>>, a: Span, b: Span)
    requires
        spec_list_within(list, a),
        b.covers(a),
    ensures
        spec_list_within(list, b),
{
    assert forall|i: int| 0 <= i < list.len() implies b.covers((#[trigger] list[i]).span) by {
        lemma_covers_order(b, a, list[i].span);
    }
}

/// Spans that lie inside a span lie inside every span that covers it.
pub proof fn lemma_pairs_widen<T>(pairs: Seq<(Seq<char>, Spanned<T>)>, a: Span, b: Span)
    requires
        spec_pairs_within(pairs, a),
        b.covers(a),
    ensures
        spec_pairs_within(pairs, b),
{
    assert forall|i: int| 0 <= i < pairs.len() implies b.covers((#[trigger] pairs[i]).1.span) by {
        lemma_covers_order(b, a, pairs[i].1.span);
    }
}

impl<T> Spanned<T> {
    /// Pairs `value` with `span`.
    pub fn new(value: T, span: Span) -> (s: Spanned<T>)
        ensures
            s.value == value,
            s.span == span,
    {
        Spanned { value, span }
    }
}

} // verus!
