//! Validates that string identifiers are snake_case.

use vstd::prelude::*;

use crate::linter::{
    context::LintContext,
    cop::{Category, Cop},
    cops::style::{is_snake_case, spec_is_snake_case},
    finding::{Finding, FindingView, Severity, finding, findings_view, flatten_upto, push_finding},
};
use crate::parser::syntax::{rule::RuleNode, rule_file::RuleFileNode};
use crate::text::owned;

verus! {

/// The message for a string identifier that is not snake_case.
pub open spec fn string_identifier_message(identifier: Seq<char>, rule: Seq<char>) -> Seq<char> {
    "String identifier "@ + identifier + " in rule "@ + rule + " should be snake_case"@
}

/// The findings for one rule.
pub open spec fn string_identifier_rule_findings(rule: RuleNode) -> Seq<FindingView> {
    flatten_upto(
        rule.strings@.len() as int,
        |i: int|
            if !spec_is_snake_case(rule.strings@[i].identifier@) {
                seq![
                    finding(
                        "StringIdentifier"@,
                        Category::Style,
                        string_identifier_message(rule.strings@[i].identifier@, rule.name@),
                        Severity::Warning,
                    ),
                ]
            } else {
                Seq::empty()
            },
    )
}

/// The findings for every rule of a file.
pub open spec fn string_identifier_findings(file: &RuleFileNode) -> Seq<FindingView> {
    flatten_upto(
        file.rules@.len() as int,
        |i: int| string_identifier_rule_findings(file.rules@[i]),
    )
}

/// Validates that string identifiers are snake_case.
pub struct StyleStringIdentifier;

impl Cop for StyleStringIdentifier {
    open spec fn spec_name(&self) -> Seq<char> {
        "StringIdentifier"@
    }

    open spec fn spec_category(&self) -> Category {
        Category::Style
    }

    open spec fn spec_check(&self, file: &RuleFileNode) -> Seq<FindingView> {
        string_identifier_findings(file)
    }

    /// Returns the category of the cop
    fn category(&self) -> Category {
        Category::Style
    }

    /// Returns "StringIdentifier"
    fn name(&self) -> &'static str {
        "StringIdentifier"
    }

    /// This cop is violated by each string identifier that is not in snake
    /// case
    fn check(&self, context: &LintContext, findings: &mut Vec<Finding>) {
        let rules = &context.file.rules;
        let ghost start = findings_view(findings@);
        let mut r: usize = 0;
        while r < rules.len()
            invariant
                r <= rules@.len(),
                rules == &context.file.rules,
                findings_view(findings@) == start + flatten_upto(
                    r as int,
                    |i: int| string_identifier_rule_findings(context.file.rules@[i]),
                ),
            decreases rules.len() - r,
        {
            let rule = &rules[r];
            let ghost before = findings_view(findings@);
            let mut i: usize = 0;
            while i < rule.strings.len()
                invariant
                    i <= rule.strings@.len(),
                    findings_view(findings@) == before + flatten_upto(
                        i as int,
                        |k: int|
                            if !spec_is_snake_case(rule.strings@[k].identifier@) {
                                seq![
                                    finding(
                                        "StringIdentifier"@,
                                        Category::Style,
                                        string_identifier_message(
                                            rule.strings@[k].identifier@,
                                            rule.name@,
                                        ),
                                        Severity::Warning,
                                    ),
                                ]
                            } else {
                                Seq::empty()
                            },
                    ),
                decreases rule.strings.len() - i,
            {
                let string = &rule.strings[i];
                if !is_snake_case(string.identifier.as_str()) {
                    let mut m = owned("String identifier ");
                    m.append(string.identifier.as_str());
                    m.append(" in rule ");
                    m.append(rule.name.as_str());
                    m.append(" should be snake_case");
                    push_finding(
                        findings,
                        Finding {
                            rule: "StringIdentifier",
                            category: Category::Style,
                            message: m,
                            severity: Severity::Warning,
                        },
                    );
                }
                i += 1;
            }
            r += 1;
        }
    }
}

} // verus!
