//! Source spans and values tagged with the span they were read from.

use vstd::prelude::*;
use crate::text::chars_of;

verus! {

/// A half-open range `[start, end)` of character offsets into a source.
#[derive(Copy, Clone, Debug, PartialEq, Eq, Hash, Structural)]
pub struct Span {
    /// Offset of the first character covered.
    pub start: usize,
    /// Offset one past the last character covered.
    pub end: usize,
}

/// The smallest span that covers both `a` and `b`.
pub open spec fn spec_merge(a: Span, b: Span) -> Span {
    Span {
        start: if a.start <= b.start { a.start } else { b.start },
        end: if a.end >= b.end { a.end } else { b.end },
    }
}

/// Whether `outer` covers every offset that `inner` covers.
pub open spec fn covers(outer: Span, inner: Span) -> bool {
    outer.start <= inner.start && inner.end <= outer.end
}

impl Span {
    /// The span `[start, end)`.
    pub fn new(start: usize, end: usize) -> (r: Span)
        ensures
            r == (Span { start, end }),
    {
        Span { start, end }
    }

    /// The span of the single character at `pos`.
    pub fn single(pos: usize) -> (r: Span)
        requires
            pos < usize::MAX,
        ensures
            r == (Span { start: pos, end: (pos + 1) as usize }),
    {
        Span { start: pos, end: pos + 1 }
    }

    /// A span `[start, end)` in the same source as `self`.
    pub fn get_span(&self, start: usize, end: usize) -> (r: Span)
        ensures
            r == (Span { start, end }),
    {
        Span { start, end }
    }

    /// The smallest span covering both `self` and `other`.
    pub fn merge(self, other: Span) -> (r: Span)
        ensures
            r == spec_merge(self, other),
    {
        Span {
            start: if self.start <= other.start { self.start } else { other.start },
            end: if self.end >= other.end { self.end } else { other.end },
        }
    }
}

/// Merging covers both spans, and any span covering both covers the merge.
pub proof fn lemma_merge_covers(a: Span, b: Span, c: Span)
    ensures
        covers(spec_merge(a, b), a),
        covers(spec_merge(a, b), b),
        covers(c, a) && covers(c, b) ==> covers(c, spec_merge(a, b)),
{
}

/// Merging is commutative, associative and idempotent.
pub proof fn lemma_merge_algebra(a: Span, b: Span, c: Span)
    ensures
        spec_merge(a, b) == spec_merge(b, a),
        spec_merge(spec_merge(a, b), c) == spec_merge(a, spec_merge(b, c)),
        spec_merge(a, a) == a,
{
}

/// A value together with the span of source it was read from.
#[derive(Clone, Debug, PartialEq, Eq, Hash)]
pub struct Spanned<T>(pub T, pub Span);

impl<T> Spanned<T> {
    /// The inner value.
    pub fn value(&self) -> (r: &T)
        ensures
            *r == self.0,
    {
        &self.0
    }

    /// The span of the value.
    pub fn span(&self) -> (r: Span)
        ensures
            r == self.1,
    {
        self.1
    }

    /// The inner value, taking ownership.
    pub fn into_value(self) -> (r: T)
        ensures
            r == self.0,
    {
        self.0
    }
}

/// A source to be read: its characters.
pub struct Provider {
    content: Vec<char>,
}

impl View for Provider {
    type V = Seq<char>;

    closed spec fn view(&self) -> Seq<char> {
        self.content@
    }
}

impl Provider {
    /// The source made of the characters of `src`.
    pub fn new(src: &str) -> (r: Provider)
        ensures
            r@ == src@,
    {
        Provider { content: chars_of(src) }
    }

    /// The characters of the source.
    pub fn content(&self) -> (r: &Vec<char>)
        ensures
            r@ == self@,
    {
        &self.content
    }

    /// The empty span at the end of the source.
    pub fn eof(&self) -> (r: Span)
        ensures
            r == (Span { start: self@.len() as usize, end: self@.len() as usize }),
    {
        Span { start: self.content.len(), end: self.content.len() }
    }
}

} // verus!
