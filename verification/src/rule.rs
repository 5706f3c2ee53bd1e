use vstd::prelude::*;

use crate::ast::FunctionDeclarationNode;
use crate::ast::Span;
use crate::diagnostic::Diagnostic;
use crate::diagnostic::DiagnosticModel;

verus! {

/// The single disallowed, low-information function name this rule rejects.
pub open spec fn disallowed_name() -> Seq<char> {
    "foo"@
}

/// The stable identifier of this rule.
pub open spec fn rule_id_text() -> Seq<char> {
    "foo_functions"@
}

/// The fixed problem statement carried by every diagnostic of this rule.
pub open spec fn message_text() -> Seq<char> {
    "function named `foo`"@
}

/// The fixed remediation suggestion carried by every diagnostic of this rule.
pub open spec fn help_text() -> Seq<char> {
    "consider using a more meaningful name"@
}

/// Whether a node violates the naming policy: it is a named function whose
/// identifier equals the disallowed name exactly (case-sensitive, no
/// trimming or normalization). Anonymous constructs never violate it.
pub open spec fn violates_policy(node: FunctionDeclarationNode) -> bool {
    node matches FunctionDeclarationNode::NamedFunction { identifier, .. }
        && identifier@ == disallowed_name()
}

/// The one diagnostic this rule ever produces, anchored at the given span.
pub open spec fn rule_diagnostic(span: Span) -> DiagnosticModel {
    DiagnosticModel {
        rule_id: rule_id_text(),
        message: message_text(),
        span: span,
        help_text: Option::Some(help_text()),
    }
}

/// What `evaluate` returns on a given node: the rule's diagnostic, anchored
/// at the whole declaration's span, exactly when the node violates the
/// naming policy, and nothing otherwise.
pub open spec fn evaluate_model(node: FunctionDeclarationNode) -> Option<DiagnosticModel> {
    if violates_policy(node) {
        Option::Some(rule_diagnostic(node.spec_span()))
    } else {
        Option::None
    }
}

/// The model of an optional diagnostic, so that a contract can pin a whole
/// `Option<Diagnostic>` result at once.
pub open spec fn result_model(result: Option<Diagnostic>) -> Option<DiagnosticModel> {
    match result {
        Option::Some(d) => Option::Some(d@),
        Option::None => Option::None,
    }
}

/// Whether this identifier is the disallowed name, by exact, case-sensitive
/// string equality.
pub fn is_disallowed_identifier(identifier: &String) -> (r: bool)
    ensures
        r == (identifier@ == disallowed_name()),
{
    let disallowed: String = "foo".to_owned();
    *identifier == disallowed
}

/// Evaluate the naming rule on one function-declaration node.
///
/// Returns the rule's diagnostic, anchored at the declaration's span, if
/// and only if the node is a named function whose identifier equals the
/// disallowed name exactly; anonymous constructs and every other identifier
/// yield no diagnostic. A pure function of its input: the result's model is
/// fully determined by the node.
pub fn evaluate(node: &FunctionDeclarationNode) -> (result: Option<Diagnostic>)
    ensures
        result_model(result) == evaluate_model(*node),
        result is Some <==> violates_policy(*node),
{
    match node {
        FunctionDeclarationNode::NamedFunction { identifier, span } => {
            if is_disallowed_identifier(identifier) {
                Option::Some(
                    Diagnostic {
                        rule_id: "foo_functions".to_owned(),
                        message: "function named `foo`".to_owned(),
                        span: *span,
                        help_text: Option::Some(
                            "consider using a more meaningful name".to_owned(),
                        ),
                    },
                )
            } else {
                Option::None
            }
        },
        FunctionDeclarationNode::AnonymousFunction { .. } => Option::None,
    }
}

/// Law: a diagnostic is produced exactly for named functions whose
/// identifier is the disallowed name, and it then carries the fixed rule
/// identifier, the node's own span, and a non-empty remediation text.
pub proof fn lemma_diagnostic_iff_violation(
    node: FunctionDeclarationNode,
    result: Option<Diagnostic>,
)
    requires
        result_model(result) == evaluate_model(node),
    ensures
        result is Some <==> (node matches FunctionDeclarationNode::NamedFunction {
            identifier,
            ..
        } && identifier@ == disallowed_name()),
        result matches Some(d) ==> d@.rule_id == rule_id_text(),
        result matches Some(d) ==> d@.span == node.spec_span(),
        result matches Some(d) ==> (d@.help_text matches Some(h) && h.len() > 0),
{
    if result is Some {
        reveal_strlit("consider using a more meaningful name");
    }
}

/// Law: anonymous (closure-like) constructs are categorically exempt;
/// whatever span they carry, evaluation yields no diagnostic.
pub proof fn lemma_anonymous_exempt(node: FunctionDeclarationNode, result: Option<Diagnostic>)
    requires
        node is AnonymousFunction,
        result_model(result) == evaluate_model(node),
    ensures
        result is None,
{
}

/// Law (idempotence): evaluation is a pure function of the node, so two
/// results of evaluating the same node are field-wise identical.
pub proof fn lemma_evaluate_deterministic(
    node: FunctionDeclarationNode,
    first: Option<Diagnostic>,
    second: Option<Diagnostic>,
)
    requires
        result_model(first) == evaluate_model(node),
        result_model(second) == evaluate_model(node),
    ensures
        first is Some <==> second is Some,
        first matches Some(a) ==> (second matches Some(b) && a@ == b@),
{
}

} // verus!
