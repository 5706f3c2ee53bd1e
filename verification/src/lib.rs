//! A single static-analysis rule that inspects function-declaration nodes
//! and reports a diagnostic for functions carrying a disallowed,
//! low-information name.
//!
//! The host lint framework walks the syntax tree, hands each
//! function-declaration node to [`rule::evaluate`], and collects the
//! diagnostics it returns. The rule itself is a pure, stateless function of
//! one node.

/// The syntactic input: spans and function-declaration nodes.
pub mod ast;
/// The diagnostic record a rule produces, with its mathematical model.
pub mod diagnostic;
/// Static metadata describing the rule to tooling.
pub mod descriptor;
/// The naming rule itself: evaluation and its laws.
pub mod rule;
/// An explicit mapping from rule identifiers to rule descriptors.
pub mod registry;
