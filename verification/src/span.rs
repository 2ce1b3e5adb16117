//! Source locations, and what replacing the text at one does to the rest.

use vstd::prelude::*;

verus! {

/// A half-open range `lo..hi` of offsets into one source text.
#[derive(Clone, Copy, Debug, PartialEq, Eq, Structural)]
pub struct Span {
    pub lo: u32,
    pub hi: u32,
}

impl Span {
    /// The range is not inverted.
    pub open spec fn wf(self) -> bool {
        self.lo <= self.hi
    }

    /// The range lies within a text of `len` units.
    pub open spec fn fits(self, len: nat) -> bool {
        self.wf() && self.hi <= len
    }

    /// The range ends where `later` begins, or before.
    pub open spec fn precedes(self, later: Span) -> bool {
        self.hi <= later.lo
    }

    /// The part of `source` that the range covers.
    pub open spec fn text<A>(self, source: Seq<A>) -> Seq<A> {
        source.subrange(self.lo as int, self.hi as int)
    }

    /// The range between the offsets `a` and `b`, in whichever order they
    /// are given.
    pub fn new(a: u32, b: u32) -> (span: Span)
        ensures
            span.wf(),
            a <= b ==> span.lo == a && span.hi == b,
            b < a ==> span.lo == b && span.hi == a,
    {
        if a <= b {
            Span { lo: a, hi: b }
        } else {
            Span { lo: b, hi: a }
        }
    }
}

/// `source` with the text at `span` given way to `with`.
pub open spec fn replace<A>(source: Seq<A>, span: Span, with: Seq<A>) -> Seq<A> {
    source.subrange(0, span.lo as int) + with + source.subrange(
        span.hi as int,
        source.len() as int,
    )
}

/// Replacing the text at `span` leaves the text at any range before it as it
/// was, and where it was.
pub proof fn lemma_replace_keeps_text_before<A>(
    source: Seq<A>,
    span: Span,
    with: Seq<A>,
    kept: Span,
)
    requires
        span.fits(source.len()),
        kept.wf(),
        kept.precedes(span),
    ensures
        kept.text(replace(source, span, with)) == kept.text(source),
{
}

/// Replacing the text at `span` leaves the text at any range after it as it
/// was, moved by the difference in length between the new text and the old.
pub proof fn lemma_replace_moves_text_after<A>(
    source: Seq<A>,
    span: Span,
    with: Seq<A>,
    kept: Span,
)
    requires
        span.fits(source.len()),
        kept.fits(source.len()),
        span.precedes(kept),
    ensures
        replace(source, span, with).subrange(
            kept.lo + with.len() - (span.hi - span.lo),
            kept.hi + with.len() - (span.hi - span.lo),
        ) == kept.text(source),
{
}

} // verus!
