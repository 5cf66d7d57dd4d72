//! Verifies that a String is not empty

use vstd::prelude::*;

use crate::linter::{
    context::LintContext,
    cop::{Category, Cop},
    finding::{Finding, FindingView, Severity, finding, findings_view, flatten_upto, push_finding},
};
use crate::parser::syntax::{
    rule::RuleNode,
    rule_file::RuleFileNode,
    strings::StringType,
};
use crate::text::owned;

verus! {

/// Whether a string's value is empty: the text of a text string, the raw
/// text of a hex string, or the pattern of a regular expression.
pub open spec fn string_value_empty(v: StringType) -> bool {
    match v {
        StringType::Text(t) => t@.len() == 0,
        StringType::Hex(h) => h.original_string@.len() == 0,
        StringType::RegEx(r) => r@.len() == 0,
    }
}

/// The message for an empty string.
pub open spec fn empty_string_message(identifier: Seq<char>, rule: Seq<char>) -> Seq<char> {
    "String '"@ + identifier + "' in rule '"@ + rule + "' is empty, consider removing it"@
}

/// The findings for the empty strings of one rule.
pub open spec fn empty_string_rule_findings(rule: RuleNode) -> Seq<FindingView> {
    flatten_upto(
        rule.strings@.len() as int,
        |i: int|
            if string_value_empty(rule.strings@[i].value) {
                seq![
                    finding(
                        "EmptyString"@,
                        Category::Lint,
                        empty_string_message(rule.strings@[i].identifier@, rule.name@),
                        Severity::Warning,
                    ),
                ]
            } else {
                Seq::empty()
            },
    )
}

/// The findings for the empty strings of every rule of a file.
pub open spec fn empty_string_findings(file: &RuleFileNode) -> Seq<FindingView> {
    flatten_upto(file.rules@.len() as int, |i: int| empty_string_rule_findings(file.rules@[i]))
}

/// Whether a string's value is empty.
fn value_is_empty(v: &StringType) -> (b: bool)
    ensures
        b == string_value_empty(*v),
{
    match v {
        StringType::Text(text) => text.as_str().is_empty(),
        StringType::Hex(hex_node) => hex_node.original_string.as_str().is_empty(),
        StringType::RegEx(regex_string) => regex_string.as_str().is_empty(),
    }
}

/// Verifies that a String is not empty
pub struct LintEmptyString;

impl Cop for LintEmptyString {
    open spec fn spec_name(&self) -> Seq<char> {
        "EmptyString"@
    }

    open spec fn spec_category(&self) -> Category {
        Category::Lint
    }

    open spec fn spec_check(&self, file: &RuleFileNode) -> Seq<FindingView> {
        empty_string_findings(file)
    }

    /// Returns "EmptyString"
    fn name(&self) -> &'static str {
        "EmptyString"
    }

    /// Returns the category of the cop
    fn category(&self) -> Category {
        Category::Lint
    }

    /// This cop is violated by each string whose text, hex text or regular
    /// expression is empty.
    fn check(&self, context: &LintContext, findings: &mut Vec<Finding>) {
        let rules = &context.file.rules;
        let ghost start = findings_view(findings@);
        let mut r: usize = 0;
        while r < rules.len()
            invariant
                r <= rules@.len(),
                rules == &context.file.rules,
                findings_view(findings@) == start + flatten_upto(
                    r as int,
                    |i: int| empty_string_rule_findings(context.file.rules@[i]),
                ),
            decreases rules.len() - r,
        {
            let rule = &rules[r];
            let ghost before = findings_view(findings@);
            let mut i: usize = 0;
            while i < rule.strings.len()
                invariant
                    i <= rule.strings@.len(),
                    findings_view(findings@) == before + flatten_upto(
                        i as int,
                        |k: int|
                            if string_value_empty(rule.strings@[k].value) {
                                seq![
                                    finding(
                                        "EmptyString"@,
                                        Category::Lint,
                                        empty_string_message(
                                            rule.strings@[k].identifier@,
                                            rule.name@,
                                        ),
                                        Severity::Warning,
                                    ),
                                ]
                            } else {
                                Seq::empty()
                            },
                    ),
                decreases rule.strings.len() - i,
            {
                let string = &rule.strings[i];
                if value_is_empty(&string.value) {
                    let mut m = owned("String '");
                    m.append(string.identifier.as_str());
                    m.append("' in rule '");
                    m.append(rule.name.as_str());
                    m.append("' is empty, consider removing it");
                    push_finding(
                        findings,
                        Finding {
                            rule: "EmptyString",
                            category: Category::Lint,
                            message: m,
                            severity: Severity::Warning,
                        },
                    );
                }
                i += 1;
            }
            r += 1;
        }
    }
}

} // verus!
