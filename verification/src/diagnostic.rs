//! What the rules hand back to the host.

use vstd::prelude::*;
use crate::span::Span;

verus! {

/// Whether applying a suggested replacement is known to keep the program's
/// meaning.
#[derive(Clone, Copy, Debug, PartialEq, Eq, Structural)]
pub enum Confidence {
    /// The replacement is what the author meant; it can be applied unseen.
    Certain,
    /// The replacement is likely right, but a person should look at it.
    MaybeIncorrect,
}

/// The group under which a lint reports.
#[derive(Clone, Copy, Debug, PartialEq, Eq, Structural)]
pub enum Severity {
    /// Code that works but is not written as it should be.
    Style,
}

/// How a rule is registered with the host: under which name and group, and
/// with which line of description.
#[derive(Debug)]
pub struct Lint {
    pub name: String,
    pub severity: Severity,
    pub description: String,
}

/// The mathematical value of a [`Lint`].
pub struct LintView {
    pub name: Seq<char>,
    pub severity: Severity,
    pub description: Seq<char>,
}

impl View for Lint {
    type V = LintView;

    open spec fn view(&self) -> LintView {
        LintView { name: self.name@, severity: self.severity, description: self.description@ }
    }
}

/// The outcome of classifying one call.
#[derive(Debug)]
pub enum Verdict {
    /// The call is left alone.
    NoMatch,
    /// The call is redundant: `replacement_text` is what to write instead.
    Match { replacement_text: String, confidence: Confidence },
}

/// The mathematical value of a [`Verdict`].
pub enum VerdictView {
    NoMatch,
    Match { replacement_text: Seq<char>, confidence: Confidence },
}

impl View for Verdict {
    type V = VerdictView;

    open spec fn view(&self) -> VerdictView {
        match self {
            Verdict::NoMatch => VerdictView::NoMatch,
            Verdict::Match { replacement_text, confidence } => VerdictView::Match {
                replacement_text: replacement_text@,
                confidence: *confidence,
            },
        }
    }
}

/// One report: what is wrong at `span`, and the suggestion to write
/// `suggested_replacement` in place of the text there.
#[derive(Debug)]
pub struct Diagnostic {
    /// The range that the report is about and that the replacement is for.
    pub span: Span,
    pub severity: Severity,
    /// What is wrong.
    pub message: String,
    /// The words that introduce the suggestion.
    pub help: String,
    pub suggested_replacement: String,
    pub confidence: Confidence,
}

/// The mathematical value of a [`Diagnostic`].
pub struct DiagnosticView {
    pub span: Span,
    pub severity: Severity,
    pub message: Seq<char>,
    pub help: Seq<char>,
    pub suggested_replacement: Seq<char>,
    pub confidence: Confidence,
}

impl View for Diagnostic {
    type V = DiagnosticView;

    open spec fn view(&self) -> DiagnosticView {
        DiagnosticView {
            span: self.span,
            severity: self.severity,
            message: self.message@,
            help: self.help@,
            suggested_replacement: self.suggested_replacement@,
            confidence: self.confidence,
        }
    }
}

impl DeepView for Diagnostic {
    type V = DiagnosticView;

    open spec fn deep_view(&self) -> DiagnosticView {
        self@
    }
}

} // verus!
