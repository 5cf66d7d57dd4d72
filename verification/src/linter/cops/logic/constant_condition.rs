//! Checks if the `condition:` block resolves to a boolean value.

use vstd::prelude::*;

use crate::linter::{
    analysis::const_fold::{FoldResult, fold, spec_fold},
    context::LintContext,
    cop::{Category, Cop},
    finding::{Finding, FindingView, Severity, finding, findings_view, flatten_upto, push_finding},
};
use crate::parser::syntax::{rule::RuleNode, rule_file::RuleFileNode};
use crate::text::owned;

verus! {

/// A boolean as it is displayed.
pub open spec fn bool_text(b: bool) -> Seq<char> {
    if b {
        "true"@
    } else {
        "false"@
    }
}

/// The message for a condition that always has the value `b`.
pub open spec fn constant_condition_message(rule: Seq<char>, b: bool) -> Seq<char> {
    "The condition in rule "@ + rule + " results in a unilateral "@ + bool_text(b)
}

/// The finding for one rule, if its condition folds to a constant.
pub open spec fn constant_condition_rule_findings(rule: RuleNode) -> Seq<FindingView> {
    match spec_fold(rule.condition.expression@) {
        FoldResult::Constant(b) => seq![
            finding(
                "ConstantCondition"@,
                Category::Logic,
                constant_condition_message(rule.name@, b),
                Severity::Warning,
            ),
        ],
        FoldResult::NotConstant => Seq::empty(),
    }
}

/// The findings for every rule of a file.
pub open spec fn constant_condition_findings(file: &RuleFileNode) -> Seq<FindingView> {
    flatten_upto(
        file.rules@.len() as int,
        |i: int| constant_condition_rule_findings(file.rules@[i]),
    )
}

/// Checks if the `condition:` block resolves to a boolean value.
pub struct LogicConstantCondition;

impl Cop for LogicConstantCondition {
    open spec fn spec_name(&self) -> Seq<char> {
        "ConstantCondition"@
    }

    open spec fn spec_category(&self) -> Category {
        Category::Logic
    }

    open spec fn spec_check(&self, file: &RuleFileNode) -> Seq<FindingView> {
        constant_condition_findings(file)
    }

    /// Returns "ConstantCondition"
    fn name(&self) -> &'static str {
        "ConstantCondition"
    }

    /// Returns the category of the cop
    fn category(&self) -> Category {
        Category::Logic
    }

    /// This cop is violated by each rule whose condition always has the
    /// same value.
    fn check(&self, context: &LintContext, findings: &mut Vec<Finding>) {
        let rules = &context.file.rules;
        let ghost start = findings_view(findings@);
        let mut r: usize = 0;
        while r < rules.len()
            invariant
                r <= rules@.len(),
                rules == &context.file.rules,
                findings_view(findings@) == start + flatten_upto(
                    r as int,
                    |i: int| constant_condition_rule_findings(context.file.rules@[i]),
                ),
            decreases rules.len() - r,
        {
            let rule = &rules[r];
            match fold(&rule.condition.expression) {
                FoldResult::Constant(bool_result) => {
                    let mut m = owned("The condition in rule ");
                    m.append(rule.name.as_str());
                    m.append(" results in a unilateral ");
                    m.append(
                        if bool_result {
                            "true"
                        } else {
                            "false"
                        },
                    );
                    push_finding(
                        findings,
                        Finding {
                            rule: "ConstantCondition",
                            category: Category::Logic,
                            message: m,
                            severity: Severity::Warning,
                        },
                    );
                },
                FoldResult::NotConstant => {},
            }
            r += 1;
        }
    }
}

} // verus!
