use vstd::prelude::*;

use crate::rule::rule_id_text;

verus! {

/// Static metadata describing one rule as an opaque named unit: its stable
/// identifier, a one-line summary, a longer rationale, and a category tag.
/// Tooling can list or serialize descriptors without invoking the rule.
#[derive(Debug, PartialEq, Eq)]
pub struct RuleDescriptor {
    pub rule_id: String,
    pub summary: String,
    pub rationale: String,
    pub category: String,
}

/// The mathematical model of a [`RuleDescriptor`]: each text field as a
/// sequence of characters.
pub struct RuleDescriptorModel {
    pub rule_id: Seq<char>,
    pub summary: Seq<char>,
    pub rationale: Seq<char>,
    pub category: Seq<char>,
}

impl View for RuleDescriptor {
    type V = RuleDescriptorModel;

    open spec fn view(&self) -> RuleDescriptorModel {
        RuleDescriptorModel {
            rule_id: self.rule_id@,
            summary: self.summary@,
            rationale: self.rationale@,
            category: self.category@,
        }
    }
}

/// The one-line summary of the naming rule.
pub open spec fn summary_text() -> Seq<char> {
    "function named `foo`, which is not a descriptive name"@
}

/// The longer rationale of the naming rule.
pub open spec fn rationale_text() -> Seq<char> {
    "checks for functions named `foo`: an undescriptive name; prefer a name that says what the function does"@
}

/// The category tag of the naming rule.
pub open spec fn category_text() -> Seq<char> {
    "pedantic"@
}

/// The descriptor of the naming rule, field by field.
pub open spec fn naming_rule_descriptor() -> RuleDescriptorModel {
    RuleDescriptorModel {
        rule_id: rule_id_text(),
        summary: summary_text(),
        rationale: rationale_text(),
        category: category_text(),
    }
}

/// Build the static descriptor of the naming rule. Its `rule_id` is the
/// same identifier that every diagnostic of the rule carries.
pub fn descriptor() -> (d: RuleDescriptor)
    ensures
        d@ == naming_rule_descriptor(),
{
    RuleDescriptor {
        rule_id: "foo_functions".to_owned(),
        summary: "function named `foo`, which is not a descriptive name".to_owned(),
        rationale: "checks for functions named `foo`: an undescriptive name; prefer a name that says what the function does".to_owned(),
        category: "pedantic".to_owned(),
    }
}

} // verus!
