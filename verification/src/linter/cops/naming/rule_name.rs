//! Rule name validation.

use vstd::prelude::*;

use crate::linter::{
    context::LintContext,
    cop::{Category, Cop},
    finding::{Finding, FindingView, Severity, finding, findings_view, flatten_upto, push_finding},
};
use crate::parser::syntax::{rule::RuleNode, rule_file::RuleFileNode};
use crate::text::{chars_of, owned};

verus! {

/// The message for a rule name holding a `-`.
pub open spec fn rule_name_message(rule: Seq<char>) -> Seq<char> {
    "Rule '"@ + rule + "' contains '-'"@
}

/// The finding for one rule, if its name holds a `-`.
pub open spec fn rule_name_rule_findings(rule: RuleNode) -> Seq<FindingView> {
    if rule.name@.contains('-') {
        seq![
            finding("RuleName"@, Category::Naming, rule_name_message(rule.name@), Severity::Warning),
        ]
    } else {
        Seq::empty()
    }
}

/// The findings for every rule of a file.
pub open spec fn rule_name_findings(file: &RuleFileNode) -> Seq<FindingView> {
    flatten_upto(file.rules@.len() as int, |i: int| rule_name_rule_findings(file.rules@[i]))
}

/// Whether `s` holds the character `c`.
pub fn contains_char(s: &str, c: char) -> (b: bool)
    ensures
        b == s@.contains(c),
{
    let chars = chars_of(s);
    let mut i: usize = 0;
    while i < chars.len()
        invariant
            chars@ == s@,
            i <= chars@.len(),
            forall|k: int| 0 <= k < i ==> chars@[k] != c,
        decreases chars.len() - i,
    {
        if chars[i] == c {
            assert(s@[i as int] == c);
            return true;
        }
        i += 1;
    }
    false
}

/// Validates rule naming conventions.
pub struct NamingRuleName;

impl Cop for NamingRuleName {
    open spec fn spec_name(&self) -> Seq<char> {
        "RuleName"@
    }

    open spec fn spec_category(&self) -> Category {
        Category::Naming
    }

    open spec fn spec_check(&self, file: &RuleFileNode) -> Seq<FindingView> {
        rule_name_findings(file)
    }

    /// Returns "RuleName"
    fn name(&self) -> &'static str {
        "RuleName"
    }

    /// Returns the category of the cop
    fn category(&self) -> Category {
        Category::Naming
    }

    /// This cop is violated if a `RuleNode`'s name includes any '-'s
    fn check(&self, context: &LintContext, findings: &mut Vec<Finding>) {
        let rules = &context.file.rules;
        let ghost start = findings_view(findings@);
        let mut r: usize = 0;
        while r < rules.len()
            invariant
                r <= rules@.len(),
                rules == &context.file.rules,
                findings_view(findings@) == start + flatten_upto(
                    r as int,
                    |i: int| rule_name_rule_findings(context.file.rules@[i]),
                ),
            decreases rules.len() - r,
        {
            let rule = &rules[r];
            if contains_char(rule.name.as_str(), '-') {
                let mut m = owned("Rule '");
                m.append(rule.name.as_str());
                m.append("' contains '-'");
                push_finding(
                    findings,
                    Finding {
                        rule: "RuleName",
                        category: Category::Naming,
                        message: m,
                        severity: Severity::Warning,
                    },
                );
            }
            r += 1;
        }
    }
}

} // verus!
