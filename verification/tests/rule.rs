use foo_functions::ast::FunctionDeclarationNode;
use foo_functions::ast::Span;
use foo_functions::descriptor::descriptor;
use foo_functions::registry::RuleRegistry;
use foo_functions::rule::evaluate;
use foo_functions::rule::is_disallowed_identifier;

fn named(identifier: &str, lo: usize, hi: usize) -> FunctionDeclarationNode {
    FunctionDeclarationNode::NamedFunction {
        identifier: identifier.to_string(),
        span: Span { lo, hi },
    }
}

#[test]
fn named_foo_reports_full_diagnostic() {
    let node = named("foo", 10, 25);
    let result = evaluate(&node);
    let d = result.expect("a named `foo` must be reported");
    assert_eq!(d.rule_id, "foo_functions".to_string());
    assert_eq!(d.message, "function named `foo`".to_string());
    assert_eq!(d.span, Span { lo: 10, hi: 25 });
    assert_eq!(
        d.help_text,
        Some("consider using a more meaningful name".to_string())
    );
}

#[test]
fn case_mismatch_is_not_reported() {
    let node = named("Foo", 0, 3);
    assert!(evaluate(&node).is_none());
}

#[test]
fn upper_case_is_not_reported() {
    let node = named("FOO", 0, 3);
    assert!(evaluate(&node).is_none());
}

#[test]
fn suffix_is_not_reported() {
    let node = named("foo_bar", 4, 11);
    assert!(evaluate(&node).is_none());
}

#[test]
fn prefix_is_not_reported() {
    let node = named("my_foo", 4, 10);
    assert!(evaluate(&node).is_none());
}

#[test]
fn substring_is_not_reported() {
    let node = named("fo", 0, 2);
    assert!(evaluate(&node).is_none());
    let longer = named("fooo", 0, 4);
    assert!(evaluate(&longer).is_none());
}

#[test]
fn whitespace_is_not_trimmed() {
    let leading = named(" foo", 0, 4);
    assert!(evaluate(&leading).is_none());
    let trailing = named("foo ", 0, 4);
    assert!(evaluate(&trailing).is_none());
}

#[test]
fn empty_identifier_is_not_reported() {
    let node = named("", 0, 0);
    assert!(evaluate(&node).is_none());
}

#[test]
fn anonymous_function_is_exempt() {
    let node = FunctionDeclarationNode::AnonymousFunction {
        span: Span { lo: 7, hi: 42 },
    };
    assert!(evaluate(&node).is_none());
}

#[test]
fn anonymous_function_is_exempt_at_any_span() {
    let node = FunctionDeclarationNode::AnonymousFunction {
        span: Span { lo: 0, hi: usize::MAX },
    };
    assert!(evaluate(&node).is_none());
}

#[test]
fn evaluating_twice_yields_identical_diagnostics() {
    let node = named("foo", 3, 9);
    let first = evaluate(&node).expect("first evaluation must report");
    let second = evaluate(&node).expect("second evaluation must report");
    assert_eq!(first, second);
}

#[test]
fn span_is_copied_from_the_node() {
    let a = evaluate(&named("foo", 1, 2)).unwrap();
    let b = evaluate(&named("foo", 100, 200)).unwrap();
    assert_eq!(a.span, Span { lo: 1, hi: 2 });
    assert_eq!(b.span, Span { lo: 100, hi: 200 });
}

#[test]
fn identifier_check_is_exact() {
    assert!(is_disallowed_identifier(&"foo".to_string()));
    assert!(!is_disallowed_identifier(&"Foo".to_string()));
    assert!(!is_disallowed_identifier(&"foo_bar".to_string()));
    assert!(!is_disallowed_identifier(&"".to_string()));
}

#[test]
fn node_span_accessor_covers_both_variants() {
    let named_node = named("anything", 5, 6);
    assert_eq!(named_node.span(), Span { lo: 5, hi: 6 });
    let anon = FunctionDeclarationNode::AnonymousFunction {
        span: Span { lo: 8, hi: 9 },
    };
    assert_eq!(anon.span(), Span { lo: 8, hi: 9 });
}

#[test]
fn descriptor_has_the_fixed_metadata() {
    let d = descriptor();
    assert_eq!(d.rule_id, "foo_functions".to_string());
    assert_eq!(
        d.summary,
        "function named `foo`, which is not a descriptive name".to_string()
    );
    assert_eq!(d.category, "pedantic".to_string());
    assert!(!d.rationale.is_empty());
}

#[test]
fn descriptor_rule_id_matches_diagnostic_rule_id() {
    let d = descriptor();
    let reported = evaluate(&named("foo", 0, 3)).unwrap();
    assert_eq!(d.rule_id, reported.rule_id);
}

#[test]
fn registry_starts_empty() {
    let registry = RuleRegistry::new();
    assert_eq!(registry.len(), 0);
    assert!(registry.lookup(&"foo_functions".to_string()).is_none());
}

#[test]
fn registry_registers_and_finds_the_rule() {
    let mut registry = RuleRegistry::new();
    assert!(registry.register(descriptor()));
    assert_eq!(registry.len(), 1);
    let found = registry
        .lookup(&"foo_functions".to_string())
        .expect("the registered rule must be found");
    assert_eq!(found.rule_id, "foo_functions".to_string());
    assert_eq!(found.category, "pedantic".to_string());
}

#[test]
fn registry_refuses_a_duplicate_rule_id() {
    let mut registry = RuleRegistry::new();
    assert!(registry.register(descriptor()));
    assert!(!registry.register(descriptor()));
    assert_eq!(registry.len(), 1);
}

#[test]
fn registry_lookup_misses_an_unregistered_id() {
    let mut registry = RuleRegistry::new();
    assert!(registry.register(descriptor()));
    assert!(registry.lookup(&"bar_functions".to_string()).is_none());
}
