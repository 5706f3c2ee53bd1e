use vstd::prelude::*;

use crate::ast::Span;

verus! {

/// One reported issue: a stable rule identifier, a short problem statement,
/// the source location it is anchored to, and an optional remediation
/// suggestion. The rule creates it; the host framework owns, aggregates and
/// renders it.
#[derive(Debug, PartialEq, Eq)]
pub struct Diagnostic {
    pub rule_id: String,
    pub message: String,
    pub span: Span,
    pub help_text: Option<String>,
}

/// The mathematical model of a [`Diagnostic`]: each text field as a
/// sequence of characters. Contracts speak of this model, so two
/// diagnostics with equal models are field-wise identical.
pub struct DiagnosticModel {
    pub rule_id: Seq<char>,
    pub message: Seq<char>,
    pub span: Span,
    pub help_text: Option<Seq<char>>,
}

impl View for Diagnostic {
    type V = DiagnosticModel;

    open spec fn view(&self) -> DiagnosticModel {
        DiagnosticModel {
            rule_id: self.rule_id@,
            message: self.message@,
            span: self.span,
            help_text: match self.help_text {
                Option::Some(h) => Option::Some(h@),
                Option::None => Option::None,
            },
        }
    }
}

} // verus!
