//! Enforces the presence of expected meta keys.

use vstd::prelude::*;

use crate::linter::{
    context::LintContext,
    cop::Category,
    cops::style::missing_required_meta::{check_missing_required_meta, missing_meta_findings},
    finding::{Finding, FindingView},
    rule::Rule,
};
use crate::parser::syntax::rule_file::RuleFileNode;

verus! {

/// Enforces the presence of expected meta keys.
pub struct StyleMissingRequiredMeta;

impl Rule for StyleMissingRequiredMeta {
    open spec fn spec_rule_name(&self) -> Seq<char> {
        "Style/MissingRequiredMeta"@
    }

    open spec fn spec_rule_check(&self, file: &RuleFileNode) -> Seq<FindingView> {
        missing_meta_findings("Style/MissingRequiredMeta"@, Category::Style, file)
    }

    /// Returns "Style/MissingRequiredMeta"
    fn name(&self) -> &'static str {
        "Style/MissingRequiredMeta"
    }

    /// This rule is violated by each required meta key that a rule lacks.
    fn check(&self, context: &LintContext, findings: &mut Vec<Finding>) {
        check_missing_required_meta("Style/MissingRequiredMeta", Category::Style, context, findings)
    }
}

} // verus!
