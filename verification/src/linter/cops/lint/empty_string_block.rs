//! Validates the string block in a YARA rule isn't empty

use vstd::prelude::*;

use crate::linter::{
    context::LintContext,
    cop::Category,
    cops::lint::empty_strings_block::{empty_block_findings, empty_block_rule_findings},
    finding::{Finding, FindingView, Severity, findings_view, flatten_upto, push_finding},
    rule::Rule,
};
use crate::parser::syntax::rule_file::RuleFileNode;
use crate::text::owned;

verus! {

/// The message for a rule whose string block is empty.
pub open spec fn empty_string_block_message(rule: Seq<char>) -> Seq<char> {
    "The string block in rule "@ + rule + " is empty, consider removing it"@
}

/// Validates the string block in a YARA rule isn't empty
pub struct LintEmptyStringBlock;

impl Rule for LintEmptyStringBlock {
    open spec fn spec_rule_name(&self) -> Seq<char> {
        "Lint/EmptyStringBlock"@
    }

    open spec fn spec_rule_check(&self, file: &RuleFileNode) -> Seq<FindingView> {
        empty_block_findings(
            "Lint/EmptyStringBlock"@,
            Category::Lint,
            |n: Seq<char>| empty_string_block_message(n),
            file,
        )
    }

    fn name(&self) -> &'static str {
        "Lint/EmptyStringBlock"
    }

    fn check(&self, context: &LintContext, findings: &mut Vec<Finding>) {
        let rules = &context.file.rules;
        let ghost start = findings_view(findings@);
        let ghost message = |n: Seq<char>| empty_string_block_message(n);
        let mut r: usize = 0;
        while r < rules.len()
            invariant
                r <= rules@.len(),
                rules == &context.file.rules,
                message == (|n: Seq<char>| empty_string_block_message(n)),
                findings_view(findings@) == start + flatten_upto(
                    r as int,
                    |i: int|
                        empty_block_rule_findings(
                            "Lint/EmptyStringBlock"@,
                            Category::Lint,
                            message,
                            context.file.rules@[i],
                        ),
                ),
            decreases rules.len() - r,
        {
            let rule = &rules[r];
            if rule.strings.len() == 0 {
                let mut m = owned("The string block in rule ");
                m.append(rule.name.as_str());
                m.append(" is empty, consider removing it");
                push_finding(
                    findings,
                    Finding {
                        rule: "Lint/EmptyStringBlock",
                        category: Category::Lint,
                        message: m,
                        severity: Severity::Warning,
                    },
                );
            }
            r += 1;
        }
    }
}

} // verus!
