//! Validates the string block in a YARA rule isn't empty

use vstd::prelude::*;

use crate::linter::{
    context::LintContext,
    cop::{Category, Cop},
    finding::{Finding, FindingView, Severity, finding, findings_view, flatten_upto, push_finding},
};
use crate::parser::syntax::{rule::RuleNode, rule_file::RuleFileNode};
use crate::text::owned;

verus! {

/// The findings, reported under `name` and `category` with the message
/// that `message` gives for a rule's name, for each rule of a file whose
/// strings block is empty.
pub open spec fn empty_block_findings(
    name: Seq<char>,
    category: Category,
    message: spec_fn(Seq<char>) -> Seq<char>,
    file: &RuleFileNode,
) -> Seq<FindingView> {
    flatten_upto(
        file.rules@.len() as int,
        |i: int| empty_block_rule_findings(name, category, message, file.rules@[i]),
    )
}

/// The finding for one rule whose strings block is empty, if it is.
pub open spec fn empty_block_rule_findings(
    name: Seq<char>,
    category: Category,
    message: spec_fn(Seq<char>) -> Seq<char>,
    rule: RuleNode,
) -> Seq<FindingView> {
    if rule.strings@.len() == 0 {
        seq![finding(name, category, message(rule.name@), Severity::Warning)]
    } else {
        Seq::empty()
    }
}

/// The message for a rule whose strings block is empty.
pub open spec fn empty_strings_block_message(rule: Seq<char>) -> Seq<char> {
    "The strings block in rule "@ + rule + " is empty, consider removing it"@
}

/// Validates the string block in a YARA rule isn't empty
pub struct LintEmptyStringsBlock;

impl Cop for LintEmptyStringsBlock {
    open spec fn spec_name(&self) -> Seq<char> {
        "EmptyStringsBlock"@
    }

    open spec fn spec_category(&self) -> Category {
        Category::Lint
    }

    open spec fn spec_check(&self, file: &RuleFileNode) -> Seq<FindingView> {
        empty_block_findings(
            "EmptyStringsBlock"@,
            Category::Lint,
            |n: Seq<char>| empty_strings_block_message(n),
            file,
        )
    }

    /// Returns "EmptyStringsBlock"
    fn name(&self) -> &'static str {
        "EmptyStringsBlock"
    }

    /// Returns the category of the cop
    fn category(&self) -> Category {
        Category::Lint
    }

    /// This cop is violated by each rule with an empty strings block.
    fn check(&self, context: &LintContext, findings: &mut Vec<Finding>) {
        let rules = &context.file.rules;
        let ghost start = findings_view(findings@);
        let ghost message = |n: Seq<char>| empty_strings_block_message(n);
        let mut r: usize = 0;
        while r < rules.len()
            invariant
                r <= rules@.len(),
                rules == &context.file.rules,
                message == (|n: Seq<char>| empty_strings_block_message(n)),
                findings_view(findings@) == start + flatten_upto(
                    r as int,
                    |i: int|
                        empty_block_rule_findings(
                            "EmptyStringsBlock"@,
                            Category::Lint,
                            message,
                            context.file.rules@[i],
                        ),
                ),
            decreases rules.len() - r,
        {
            let rule = &rules[r];
            if rule.strings.len() == 0 {
                let mut m = owned("The strings block in rule ");
                m.append(rule.name.as_str());
                m.append(" is empty, consider removing it");
                push_finding(
                    findings,
                    Finding {
                        rule: "EmptyStringsBlock",
                        category: Category::Lint,
                        message: m,
                        severity: Severity::Warning,
                    },
                );
            }
            r += 1;
        }
    }
}

} // verus!
