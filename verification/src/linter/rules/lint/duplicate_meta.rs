//! Verifies no two meta entries are duplicates of each other
//!
//! This does not check if two entries have the same value, rather if
//! two entries have the same key.

use vstd::prelude::*;

use crate::linter::{
    context::LintContext,
    cop::Category,
    cops::lint::duplicate_meta::{check_duplicate_meta, duplicate_meta_findings},
    finding::{Finding, FindingView},
    rule::Rule,
};
use crate::parser::syntax::rule_file::RuleFileNode;

verus! {

/// Verifies no two meta entries are duplicates of each other
pub struct LintDuplicateMeta;

impl Rule for LintDuplicateMeta {
    open spec fn spec_rule_name(&self) -> Seq<char> {
        "Lint/DuplicateMeta"@
    }

    open spec fn spec_rule_check(&self, file: &RuleFileNode) -> Seq<FindingView> {
        duplicate_meta_findings("Lint/DuplicateMeta"@, Category::Lint, file)
    }

    /// Returns the name of the rule - "Lint/DuplicateMeta"
    fn name(&self) -> &'static str {
        "Lint/DuplicateMeta"
    }

    /// This rule check fails if a meta entry is defined more than once in a
    /// rule: every entry whose key an earlier entry has is reported.
    fn check(&self, context: &LintContext, findings: &mut Vec<Finding>) {
        check_duplicate_meta("Lint/DuplicateMeta", Category::Lint, context, findings)
    }
}

} // verus!
