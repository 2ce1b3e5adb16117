//! The rule against converting a value to an owned value of the type it
//! already has: `v.to_owned()`, `v.to_vec()` or `p.to_path_buf()` where the
//! call returns the type of its receiver.
//!
//! [`OwnedToOwned::classify`] decides whether a call is such a conversion and
//! what to write instead; [`OwnedToOwned::build`] makes the report;
//! [`OwnedToOwned::check_expr`] does both for one node of the tree.

pub mod laws;

use vstd::prelude::*;
use crate::call_site::{CallSite, CallSiteView, Expr, ExprView};
use crate::diagnostic::{
    Confidence, Diagnostic, DiagnosticView, Lint, LintView, Severity, Verdict, VerdictView,
};
use crate::paths::{path_eq, MethodSignature, MethodSignatureView};
use crate::span::Span;
use crate::types::{Type, TypeContext, TypeContextView};

verus! {

/// The definition path of `ToOwned::to_owned`, the standard conversion of a
/// borrowed value to an owned one.
pub open spec fn to_owned_method() -> Seq<Seq<char>> {
    seq!["alloc"@, "borrow"@, "ToOwned"@, "to_owned"@]
}

/// The methods that, called on a value of their own type, only duplicate it.
pub open spec fn equivalent_to_clone() -> Seq<MethodSignatureView> {
    seq![
        MethodSignatureView { type_path: seq!["alloc"@, "vec"@, "Vec"@], method: "to_vec"@ },
        MethodSignatureView {
            type_path: seq!["std"@, "path"@, "PathBuf"@],
            method: "to_path_buf"@,
        },
    ]
}

/// The registration of the rule.
pub open spec fn lint_spec() -> LintView {
    LintView {
        name: "owned_to_owned"@,
        severity: Severity::Style,
        description: "using to_owned on already owned type"@,
    }
}

/// The call was resolved to `ToOwned::to_owned`.
pub open spec fn is_to_owned(site: CallSiteView) -> bool {
    site.target == Some(to_owned_method())
}

/// [`equivalent_to_clone`] holds the method `method` of the type at
/// `type_path`: one entry agrees with both, each in full.
pub open spec fn in_table(type_path: Seq<Seq<char>>, method: Seq<char>) -> bool {
    exists|i: int|
        0 <= i < equivalent_to_clone().len() && (#[trigger] equivalent_to_clone()[i]).names(
            type_path,
            method,
        )
}

/// The call converts a value to the type it already has: it has a resolved
/// target, its receiver can be rendered as source text, it returns the type
/// of its receiver, and either its target is `to_owned` or the table holds
/// its name for the type of its receiver.
pub open spec fn is_redundant(site: CallSiteView, context: TypeContextView) -> bool {
    &&& site.target is Some
    &&& site.receiver_text() is Some
    &&& context.types.identical()
    &&& (is_to_owned(site) || in_table(context.types.receiver.constructor, site.method.name))
}

/// The text to write in place of a redundant conversion: for a `Copy` type
/// the receiver as it stands, else the name `clone`.
pub open spec fn replacement(site: CallSiteView, context: TypeContextView) -> Seq<char> {
    if context.result_is_copy {
        site.receiver_text()->0
    } else {
        "clone"@
    }
}

/// The range that the replacement is for: for a `Copy` type the whole call,
/// else the method's name alone.
pub open spec fn anchor(site: CallSiteView, context: TypeContextView) -> Span {
    if context.result_is_copy {
        site.span
    } else {
        site.method.span
    }
}

/// The verdict on one call.
pub open spec fn classify_spec(site: CallSiteView, context: TypeContextView) -> VerdictView {
    if is_redundant(site, context) {
        VerdictView::Match {
            replacement_text: replacement(site, context),
            confidence: Confidence::MaybeIncorrect,
        }
    } else {
        VerdictView::NoMatch
    }
}

/// The message of a report on a call of the method `method`.
pub open spec fn message_spec(method: Seq<char>) -> Seq<char> {
    "using `"@ + method + "` on an already-owned type"@
}

/// The report that carries the suggestion of the match `verdict`. It is
/// marked `MaybeIncorrect` whatever the verdict says: that a type has no
/// `to_owned` of its own that does more than `clone` is not known.
pub open spec fn build_spec(
    site: CallSiteView,
    context: TypeContextView,
    verdict: VerdictView,
) -> DiagnosticView {
    DiagnosticView {
        span: anchor(site, context),
        severity: Severity::Style,
        message: message_spec(site.method.name),
        help: "replace this with"@,
        suggested_replacement: verdict->replacement_text,
        confidence: Confidence::MaybeIncorrect,
    }
}

/// The report on one expression node, if it draws one.
pub open spec fn check_spec(expr: ExprView) -> Option<DiagnosticView> {
    match expr {
        ExprView::MethodCall { site, context } => if is_redundant(site, context) {
            Some(build_spec(site, context, classify_spec(site, context)))
        } else {
            None
        },
        ExprView::Other => None,
    }
}

/// The rule, holding what it is registered with: the path of `to_owned` and
/// the table of methods that stand for `clone`. Both are fixed when the rule
/// is made and never change.
pub struct OwnedToOwned {
    to_owned_method: Vec<String>,
    equivalent_to_clone: Vec<MethodSignature>,
}

impl OwnedToOwned {
    /// The path that the rule holds for `to_owned`.
    pub closed spec fn held_path(&self) -> Seq<Seq<char>> {
        self.to_owned_method.deep_view()
    }

    /// The table that the rule holds.
    pub closed spec fn held_table(&self) -> Seq<MethodSignatureView> {
        self.equivalent_to_clone.deep_view()
    }

    #[verifier::type_invariant]
    spec fn registered(&self) -> bool {
        &&& self.held_path() == to_owned_method()
        &&& self.held_table() == equivalent_to_clone()
    }

    /// The rule with its fixed registrations: [`to_owned_method`] and
    /// [`equivalent_to_clone`].
    pub fn new() -> (rule: OwnedToOwned)
        ensures
            rule.held_path() == to_owned_method(),
            rule.held_table() == equivalent_to_clone(),
    {
        let mut to_owned_method: Vec<String> = Vec::new();
        to_owned_method.push("alloc".to_owned());
        to_owned_method.push("borrow".to_owned());
        to_owned_method.push("ToOwned".to_owned());
        to_owned_method.push("to_owned".to_owned());
        assert(to_owned_method.deep_view() =~= self::to_owned_method());

        let mut vec_path: Vec<String> = Vec::new();
        vec_path.push("alloc".to_owned());
        vec_path.push("vec".to_owned());
        vec_path.push("Vec".to_owned());
        assert(vec_path.deep_view() =~= seq!["alloc"@, "vec"@, "Vec"@]);

        let mut path_buf_path: Vec<String> = Vec::new();
        path_buf_path.push("std".to_owned());
        path_buf_path.push("path".to_owned());
        path_buf_path.push("PathBuf".to_owned());
        assert(path_buf_path.deep_view() =~= seq!["std"@, "path"@, "PathBuf"@]);

        let mut equivalent_to_clone: Vec<MethodSignature> = Vec::new();
        equivalent_to_clone.push(
            MethodSignature { type_path: vec_path, method: "to_vec".to_owned() },
        );
        equivalent_to_clone.push(
            MethodSignature { type_path: path_buf_path, method: "to_path_buf".to_owned() },
        );
        assert(equivalent_to_clone.deep_view() =~= self::equivalent_to_clone());

        OwnedToOwned { to_owned_method, equivalent_to_clone }
    }

    /// The name, group and description under which the rule reports.
    pub fn lint() -> (lint: Lint)
        ensures
            lint@ == lint_spec(),
    {
        Lint {
            name: "owned_to_owned".to_owned(),
            severity: Severity::Style,
            description: "using to_owned on already owned type".to_owned(),
        }
    }

    /// The definition path that the rule takes for `ToOwned::to_owned`.
    pub fn to_owned_method(&self) -> (path: &Vec<String>)
        ensures
            path.deep_view() == self.held_path(),
            path.deep_view() == to_owned_method(),
    {
        proof {
            use_type_invariant(self);
        }
        &self.to_owned_method
    }

    /// The table of methods that the rule takes to stand for `clone`.
    pub fn equivalent_to_clone(&self) -> (table: &Vec<MethodSignature>)
        ensures
            table.deep_view() == self.held_table(),
            table.deep_view() == equivalent_to_clone(),
    {
        proof {
            use_type_invariant(self);
        }
        &self.equivalent_to_clone
    }

    /// Whether the table holds the method `method` of the type `receiver`.
    /// The type's path and the method's name must each equal an entry's in
    /// full: a prefix or a part of either is no hit.
    pub fn in_table(&self, receiver: &Type, method: &String) -> (hit: bool)
        ensures
            hit == in_table(receiver@.constructor, method@),
    {
        proof {
            use_type_invariant(self);
            receiver.lemma_view();
        }
        let mut i: usize = 0;
        while i < self.equivalent_to_clone.len()
            invariant
                i <= self.equivalent_to_clone.len(),
                self.equivalent_to_clone.deep_view() == equivalent_to_clone(),
                receiver@.constructor == receiver.constructor.deep_view(),
                forall|j: int|
                    0 <= j < i ==> !(#[trigger] equivalent_to_clone()[j]).names(
                        receiver@.constructor,
                        method@,
                    ),
            decreases self.equivalent_to_clone.len() - i,
        {
            assert(self.equivalent_to_clone.deep_view()[i as int]
                == self.equivalent_to_clone[i as int]@);
            if self.equivalent_to_clone[i].names(&receiver.constructor, method) {
                return true;
            }
            i += 1;
        }
        false
    }

    /// Classifies one call: a match, with the text to write instead, where
    /// the call converts a value to the type it already has, and no match
    /// in every other case. Nothing but `site` and `context` is read.
    pub fn classify(&self, site: &CallSite, context: &TypeContext) -> (verdict: Verdict)
        ensures
            verdict@ == classify_spec(site@, context@),
            verdict@ is Match <==> is_redundant(site@, context@),
            !context@.types.identical() ==> verdict@ is NoMatch,
            verdict@ is Match ==> verdict@->confidence == Confidence::MaybeIncorrect,
    {
        proof {
            use_type_invariant(self);
        }
        let target = match &site.target {
            Some(target) => target,
            None => {
                return Verdict::NoMatch;
            },
        };
        let receiver = match site.receiver_text() {
            Some(receiver) => receiver,
            None => {
                return Verdict::NoMatch;
            },
        };
        if !context.types.identical() {
            return Verdict::NoMatch;
        }
        if !(path_eq(target, &self.to_owned_method) || self.in_table(
            &context.types.receiver,
            &site.method.name,
        )) {
            return Verdict::NoMatch;
        }
        let replacement_text = if context.result_is_copy {
            receiver.clone()
        } else {
            "clone".to_owned()
        };
        Verdict::Match { replacement_text, confidence: Confidence::MaybeIncorrect }
    }

    /// Builds the report for a call that was classified as the match
    /// `verdict`.
    ///
    /// The report is for the whole call where the type is `Copy`, which is
    /// where the replacement is the receiver, and for the method's name alone
    /// otherwise: only the text that changes is replaced. It is never marked
    /// `Certain`.
    pub fn build(site: &CallSite, context: &TypeContext, verdict: Verdict) -> (report: Diagnostic)
        requires
            verdict@ is Match,
        ensures
            report@ == build_spec(site@, context@, verdict@),
            report.confidence == Confidence::MaybeIncorrect,
    {
        let span = if context.result_is_copy {
            site.span
        } else {
            site.method.span
        };
        let mut message: String = "using `".to_owned();
        message.append(site.method.name.as_str());
        message.append("` on an already-owned type");
        match verdict {
            Verdict::Match { replacement_text, .. } => Diagnostic {
                span,
                severity: Severity::Style,
                message,
                help: "replace this with".to_owned(),
                suggested_replacement: replacement_text,
                confidence: Confidence::MaybeIncorrect,
            },
            Verdict::NoMatch => unreached(),
        }
    }

    /// Checks one expression node: `Some` report for a method call that
    /// converts a value to the type it already has, `None` for every other
    /// node.
    pub fn check_expr(&self, expr: &Expr) -> (report: Option<Diagnostic>)
        ensures
            report.deep_view() == check_spec(expr@),
            report matches Some(diagnostic) ==> diagnostic.confidence == Confidence::MaybeIncorrect,
    {
        match expr {
            Expr::MethodCall { site, context } => {
                let verdict = self.classify(site, context);
                match verdict {
                    Verdict::NoMatch => None,
                    Verdict::Match { .. } => Some(Self::build(site, context, verdict)),
                }
            },
            Expr::Other => None,
        }
    }
}

} // verus!
