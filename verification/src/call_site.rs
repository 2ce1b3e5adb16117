//! Nodes of the typed syntax tree, as plain values.

use vstd::prelude::*;
use crate::span::Span;
use crate::types::{TypeContext, TypeContextView};

verus! {

/// A name as written in the source, with its location.
#[derive(Debug)]
pub struct Ident {
    pub name: String,
    pub span: Span,
}

/// The mathematical value of an [`Ident`].
pub struct IdentView {
    pub name: Seq<char>,
    pub span: Span,
}

impl View for Ident {
    type V = IdentView;

    open spec fn view(&self) -> IdentView {
        IdentView { name: self.name@, span: self.span }
    }
}

/// A sub-expression of a call: its location and its source text, where the
/// text can be rendered.
#[derive(Debug)]
pub struct Operand {
    pub span: Span,
    pub snippet: Option<String>,
}

/// The mathematical value of an [`Operand`].
pub struct OperandView {
    pub span: Span,
    pub snippet: Option<Seq<char>>,
}

impl View for Operand {
    type V = OperandView;

    open spec fn view(&self) -> OperandView {
        OperandView { span: self.span, snippet: self.snippet.deep_view() }
    }
}

impl DeepView for Operand {
    type V = OperandView;

    open spec fn deep_view(&self) -> OperandView {
        self@
    }
}

/// One method call `receiver.method(arguments)`.
///
/// `args` lists the operands in source order, the receiver first. `target`
/// is the definition path of the method that the call was resolved to, its
/// last segment being the method's own name; it is `None` where the call has
/// no single resolved target.
#[derive(Debug)]
pub struct CallSite {
    pub span: Span,
    pub method: Ident,
    pub args: Vec<Operand>,
    pub target: Option<Vec<String>>,
}

/// The mathematical value of a [`CallSite`].
pub struct CallSiteView {
    pub span: Span,
    pub method: IdentView,
    pub args: Seq<OperandView>,
    pub target: Option<Seq<Seq<char>>>,
}

impl View for CallSite {
    type V = CallSiteView;

    open spec fn view(&self) -> CallSiteView {
        CallSiteView {
            span: self.span,
            method: self.method@,
            args: self.args.deep_view(),
            target: self.target.deep_view(),
        }
    }
}

impl CallSiteView {
    /// The source text of the receiver: that of the first operand, if there
    /// is one and it can be rendered.
    pub open spec fn receiver_text(self) -> Option<Seq<char>> {
        if self.args.len() > 0 {
            self.args[0].snippet
        } else {
            None
        }
    }

    /// A resolved target is a definition of the method that the call names.
    pub open spec fn resolves_by_name(self) -> bool {
        self.target matches Some(path) ==> path.len() > 0 && path.last() == self.method.name
    }

    /// The call is written `receiver.method(arguments)` within a source text
    /// of `len` units: the receiver ends before the method's name begins, and
    /// every other operand begins after the name ends.
    pub open spec fn laid_out(self, len: nat) -> bool {
        &&& self.method.span.fits(len)
        &&& forall|i: int| 0 <= i < self.args.len() ==> (#[trigger] self.args[i]).span.fits(len)
        &&& self.args.len() > 0 ==> self.args[0].span.precedes(self.method.span)
        &&& forall|i: int|
            1 <= i < self.args.len() ==> self.method.span.precedes((#[trigger] self.args[i]).span)
    }
}

impl CallSite {
    /// The source text of the receiver, or `None` where the call has no
    /// operand at all or its first operand cannot be rendered.
    pub fn receiver_text(&self) -> (text: Option<&String>)
        ensures
            text.deep_view() == self@.receiver_text(),
    {
        if self.args.len() == 0 {
            return None;
        }
        self.args[0].snippet.as_ref()
    }
}

/// An expression node as the tree walk meets it: a method call, with what
/// type inference found for it, or anything else.
#[derive(Debug)]
pub enum Expr {
    /// A method call and the types that were inferred for it.
    MethodCall { site: CallSite, context: TypeContext },
    /// Any node that is no method call.
    Other,
}

/// The mathematical value of an [`Expr`].
pub enum ExprView {
    MethodCall { site: CallSiteView, context: TypeContextView },
    Other,
}

impl View for Expr {
    type V = ExprView;

    open spec fn view(&self) -> ExprView {
        match self {
            Expr::MethodCall { site, context } => ExprView::MethodCall {
                site: site@,
                context: context@,
            },
            Expr::Other => ExprView::Other,
        }
    }
}

} // verus!
