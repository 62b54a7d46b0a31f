//! Source locations: a half-open byte-offset range attached to every tree
//! node and every diagnostic.

use vstd::prelude::*;

verus! {

/// A half-open byte-offset range into the source text.
///
/// Well-formed spans satisfy `lo <= hi`; a span with `lo == hi` is a
/// zero-width point, used by diagnostics that mean "insert here".
#[derive(Clone, Copy, Debug, PartialEq, Eq, Structural)]
pub struct Span {
    pub lo: u32,
    pub hi: u32,
}

impl Span {
    /// The span invariant: the range is not inverted.
    pub open spec fn wf(self) -> bool {
        self.lo <= self.hi
    }

    pub fn new(lo: u32, hi: u32) -> (span: Span)
        requires
            lo <= hi,
        ensures
            span == (Span { lo, hi }),
            span.wf(),
    {
        Span { lo, hi }
    }

    /// The smallest span covering both `a` and `b`.
    pub open spec fn merged(a: Span, b: Span) -> Span {
        Span {
            lo: if a.lo <= b.lo {
                a.lo
            } else {
                b.lo
            },
            hi: if a.hi >= b.hi {
                a.hi
            } else {
                b.hi
            },
        }
    }

    pub fn merge(a: &Span, b: &Span) -> (span: Span)
        ensures
            span == Span::merged(*a, *b),
    {
        Span {
            lo: if a.lo <= b.lo {
                a.lo
            } else {
                b.lo
            },
            hi: if a.hi >= b.hi {
                a.hi
            } else {
                b.hi
            },
        }
    }

    /// A zero-width span pointing just past this span.
    pub fn end_point(&self) -> (span: Span)
        ensures
            span == (Span { lo: self.hi, hi: self.hi }),
            span.wf(),
    {
        Span { lo: self.hi, hi: self.hi }
    }
}

/// Merging picks the least low offset and the greatest high offset.
pub proof fn lemma_merge_covers(a: Span, b: Span)
    ensures
        Span::merged(a, b).lo as int == vstd::math::min(a.lo as int, b.lo as int),
        Span::merged(a, b).hi as int == vstd::math::max(a.hi as int, b.hi as int),
        a.wf() && b.wf() ==> Span::merged(a, b).wf(),
{
}

/// Merging is commutative: the order of the two spans does not matter.
pub proof fn lemma_merge_commutative(a: Span, b: Span)
    ensures
        Span::merged(a, b) == Span::merged(b, a),
{
}

/// Merging is associative: a fold over many spans covers them all,
/// however the merges are grouped.
pub proof fn lemma_merge_associative(a: Span, b: Span, c: Span)
    ensures
        Span::merged(Span::merged(a, b), c) == Span::merged(a, Span::merged(b, c)),
{
}

/// A value of any kind together with the span it was written at.
#[derive(Clone, Copy, Debug)]
pub struct Spanned<T> {
    pub node: T,
    pub span: Span,
}

impl<T> Spanned<T> {
    pub fn new(node: T, span: Span) -> (spanned: Spanned<T>)
        ensures
            spanned == (Spanned { node, span }),
    {
        Spanned { node, span }
    }
}

} // verus!
