//! Lint rule trait.

use vstd::prelude::*;

use crate::linter::{context::LintContext, finding::{Finding, FindingView, findings_view}};
use crate::parser::syntax::rule_file::RuleFileNode;

verus! {

/// Trait implemented by lint rules that carry their category in their
/// name.
pub trait Rule {
    /// The rule's name.
    spec fn spec_rule_name(&self) -> Seq<char>;

    /// The findings the rule reports on a file.
    spec fn spec_rule_check(&self, file: &RuleFileNode) -> Seq<FindingView>;

    /// The rule's name, in the format `Category/RuleName`, e.g.
    /// `"Naming/RuleName"`.
    fn name(&self) -> (r: &'static str)
        ensures
            r@ == self.spec_rule_name(),
    ;

    /// Executes the rule: appends to `findings` a finding for each place in
    /// the file that does not comply with the rule.
    fn check(&self, context: &LintContext, findings: &mut Vec<Finding>)
        ensures
            findings_view(final(findings)@) == findings_view(old(findings)@)
                + self.spec_rule_check(context.file),
    ;
}

} // verus!
