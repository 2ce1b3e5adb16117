//! The rule against `filter(..).flat_map(..)` on an iterator.

use vstd::prelude::*;
use crate::span::Span;

verus! {

/// Advice on a piece of code, without a replacement for it.
#[derive(Debug)]
pub struct Advice {
    pub span: Span,
    pub message: String,
    pub help: String,
}

/// The mathematical value of an [`Advice`].
pub struct AdviceView {
    pub span: Span,
    pub message: Seq<char>,
    pub help: Seq<char>,
}

impl View for Advice {
    type V = AdviceView;

    open spec fn view(&self) -> AdviceView {
        AdviceView { span: self.span, message: self.message@, help: self.help@ }
    }
}

impl DeepView for Advice {
    type V = AdviceView;

    open spec fn deep_view(&self) -> AdviceView {
        self@
    }
}

/// The advice on a chain `filter(..).flat_map(..)` at `span`, if it draws any:
/// it does where the chain is called on an `Iterator`.
pub open spec fn check_spec(span: Span, on_iterator: bool) -> Option<AdviceView> {
    if on_iterator {
        Some(
            AdviceView {
                span,
                message: "called `filter(..).flat_map(..)` on an `Iterator`"@,
                help: "this is more succinctly expressed by calling `.flat_map(..)` and filtering by returning `iter::empty()`"@,
            },
        )
    } else {
        None
    }
}

/// Checks a chain `filter(..).flat_map(..)` found at `span`. `on_iterator`
/// says whether the call was resolved to a method of the trait `Iterator`.
pub fn check(span: Span, on_iterator: bool) -> (advice: Option<Advice>)
    ensures
        advice.deep_view() == check_spec(span, on_iterator),
        advice is Some <==> on_iterator,
{
    if on_iterator {
        Some(
            Advice {
                span,
                message: "called `filter(..).flat_map(..)` on an `Iterator`".to_owned(),
                help: "this is more succinctly expressed by calling `.flat_map(..)` and filtering by returning `iter::empty()`".to_owned(),
            },
        )
    } else {
        None
    }
}

} // verus!
