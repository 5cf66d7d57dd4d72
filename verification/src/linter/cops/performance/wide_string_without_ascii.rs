//! Checks if a Text or RegEx string is using the `wide` modifier without
//! using the `ascii` modifier

use vstd::prelude::*;

use crate::linter::{
    context::LintContext,
    cop::{Category, Cop},
    cops::performance::filesize::has_modifier,
    finding::{Finding, FindingView, Severity, finding, findings_view, flatten_upto, push_finding},
};
use crate::parser::syntax::{
    rule::RuleNode,
    rule_file::RuleFileNode,
    strings::{StringModifier, StringNode, StringType},
};
use crate::text::owned;

verus! {

/// Whether a text or regular expression string is `wide` but not `ascii`.
pub open spec fn wide_without_ascii(s: StringNode) -> bool {
    &&& !(s.value is Hex)
    &&& s.modifiers@.contains(StringModifier::Wide)
    &&& !s.modifiers@.contains(StringModifier::Ascii)
}

/// The message for a string that is `wide` but not `ascii`.
pub open spec fn wide_without_ascii_message(identifier: Seq<char>, rule: Seq<char>) -> Seq<
    char,
> {
    "The string "@ + identifier + " in rule "@ + rule
        + " uses the modifier 'Wide' without the modifier 'Ascii'"@
}

/// The findings for one rule.
pub open spec fn wide_without_ascii_rule_findings(rule: RuleNode) -> Seq<FindingView> {
    flatten_upto(
        rule.strings@.len() as int,
        |i: int|
            if wide_without_ascii(rule.strings@[i]) {
                seq![
                    finding(
                        "WideStringWithoutAscii"@,
                        Category::Performance,
                        wide_without_ascii_message(rule.strings@[i].identifier@, rule.name@),
                        Severity::Info,
                    ),
                ]
            } else {
                Seq::empty()
            },
    )
}

/// The findings for every rule of a file.
pub open spec fn wide_without_ascii_findings(file: &RuleFileNode) -> Seq<FindingView> {
    flatten_upto(
        file.rules@.len() as int,
        |i: int| wide_without_ascii_rule_findings(file.rules@[i]),
    )
}

/// Checks if a Text or RegEx string is using the `wide` modifier without
/// using the `ascii` modifier
pub struct PerformanceWideStringWithoutAscii;

impl Cop for PerformanceWideStringWithoutAscii {
    open spec fn spec_name(&self) -> Seq<char> {
        "WideStringWithoutAscii"@
    }

    open spec fn spec_category(&self) -> Category {
        Category::Performance
    }

    open spec fn spec_check(&self, file: &RuleFileNode) -> Seq<FindingView> {
        wide_without_ascii_findings(file)
    }

    /// Returns the category of the cop
    fn category(&self) -> Category {
        Category::Performance
    }

    fn name(&self) -> &'static str {
        "WideStringWithoutAscii"
    }

    fn check(&self, context: &LintContext, findings: &mut Vec<Finding>) {
        let rules = &context.file.rules;
        let ghost start = findings_view(findings@);
        let mut r: usize = 0;
        while r < rules.len()
            invariant
                r <= rules@.len(),
                rules == &context.file.rules,
                findings_view(findings@) == start + flatten_upto(
                    r as int,
                    |i: int| wide_without_ascii_rule_findings(context.file.rules@[i]),
                ),
            decreases rules.len() - r,
        {
            let rule = &rules[r];
            let ghost before = findings_view(findings@);
            let mut i: usize = 0;
            while i < rule.strings.len()
                invariant
                    i <= rule.strings@.len(),
                    findings_view(findings@) == before + flatten_upto(
                        i as int,
                        |k: int|
                            if wide_without_ascii(rule.strings@[k]) {
                                seq![
                                    finding(
                                        "WideStringWithoutAscii"@,
                                        Category::Performance,
                                        wide_without_ascii_message(
                                            rule.strings@[k].identifier@,
                                            rule.name@,
                                        ),
                                        Severity::Info,
                                    ),
                                ]
                            } else {
                                Seq::empty()
                            },
                    ),
                decreases rule.strings.len() - i,
            {
                let string = &rule.strings[i];
                let not_hex = match string.value {
                    StringType::Text(_) => true,
                    StringType::Hex(_) => false,
                    StringType::RegEx(_) => true,
                };
                if not_hex && has_modifier(&string.modifiers, StringModifier::Wide) && !has_modifier(
                    &string.modifiers,
                    StringModifier::Ascii,
                ) {
                    let mut m = owned("The string ");
                    m.append(string.identifier.as_str());
                    m.append(" in rule ");
                    m.append(rule.name.as_str());
                    m.append(" uses the modifier 'Wide' without the modifier 'Ascii'");
                    push_finding(
                        findings,
                        Finding {
                            rule: "WideStringWithoutAscii",
                            category: Category::Performance,
                            message: m,
                            severity: Severity::Info,
                        },
                    );
                }
                i += 1;
            }
            r += 1;
        }
    }
}

} // verus!
