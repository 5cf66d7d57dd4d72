//! Enforces a minimum and maximum length on YARA rule names. This is so the
//! names are not too short to be useful but also not so long that its hard to
//! understand them

use vstd::prelude::*;

use crate::linter::{
    context::LintContext,
    cop::{Category, Cop},
    finding::{Finding, FindingView, Severity, finding, findings_view, flatten_upto, push_finding},
    rule::Rule,
};
use crate::parser::syntax::{rule::RuleNode, rule_file::RuleFileNode};
use crate::text::{decimal, owned, push_decimal};

verus! {

/// Minimum length of a name in chars.
pub const MIN_NAME_LENGTH: usize = 4;

/// Maximum length of a name in chars.
pub const MAX_NAME_LENGTH: usize = 80;

/// The message for a name longer than the maximum.
pub open spec fn name_too_long_message(rule: Seq<char>) -> Seq<char> {
    "The name "@ + rule + " is longer than the maximum character length of "@ + decimal(
        MAX_NAME_LENGTH as nat,
    )
}

/// The message for a name shorter than the minimum.
pub open spec fn name_too_short_message(rule: Seq<char>) -> Seq<char> {
    "The name "@ + rule + " is shorter than the minimum character length of "@ + decimal(
        MIN_NAME_LENGTH as nat,
    )
}

/// The finding for one rule, if its name has more than the maximum or
/// fewer than the minimum number of characters.
pub open spec fn name_length_rule_findings(
    name: Seq<char>,
    category: Category,
    rule: RuleNode,
) -> Seq<FindingView> {
    if rule.name@.len() > MAX_NAME_LENGTH {
        seq![finding(name, category, name_too_long_message(rule.name@), Severity::Info)]
    } else if rule.name@.len() < MIN_NAME_LENGTH {
        seq![finding(name, category, name_too_short_message(rule.name@), Severity::Info)]
    } else {
        Seq::empty()
    }
}

/// The findings for every rule of a file.
pub open spec fn name_length_findings(
    name: Seq<char>,
    category: Category,
    file: &RuleFileNode,
) -> Seq<FindingView> {
    flatten_upto(
        file.rules@.len() as int,
        |i: int| name_length_rule_findings(name, category, file.rules@[i]),
    )
}

/// Appends, under `name` and `category`, a finding for each rule whose
/// name is too long or too short.
pub fn check_rule_name_length(
    name: &'static str,
    category: Category,
    context: &LintContext,
    findings: &mut Vec<Finding>,
)
    ensures
        findings_view(final(findings)@) == findings_view(old(findings)@) + name_length_findings(
            name@,
            category,
            context.file,
        ),
{
    let rules = &context.file.rules;
    let ghost start = findings_view(findings@);
    let mut r: usize = 0;
    while r < rules.len()
        invariant
            r <= rules@.len(),
            rules == &context.file.rules,
            findings_view(findings@) == start + flatten_upto(
                r as int,
                |i: int| name_length_rule_findings(name@, category, context.file.rules@[i]),
            ),
        decreases rules.len() - r,
    {
        let rule = &rules[r];
        let length = rule.name.as_str().unicode_len();
        if length > MAX_NAME_LENGTH {
            let mut m = owned("The name ");
            m.append(rule.name.as_str());
            m.append(" is longer than the maximum character length of ");
            push_decimal(MAX_NAME_LENGTH as u64, &mut m);
            push_finding(
                findings,
                Finding { rule: name, category, message: m, severity: Severity::Info },
            );
        } else if length < MIN_NAME_LENGTH {
            let mut m = owned("The name ");
            m.append(rule.name.as_str());
            m.append(" is shorter than the minimum character length of ");
            push_decimal(MIN_NAME_LENGTH as u64, &mut m);
            push_finding(
                findings,
                Finding { rule: name, category, message: m, severity: Severity::Info },
            );
        }
        r += 1;
    }
}

/// Enforces a minimum and maximum length on YARA rule names.
pub struct NamingRuleNameLength;

impl Rule for NamingRuleNameLength {
    open spec fn spec_rule_name(&self) -> Seq<char> {
        "Naming/RuleNameLength"@
    }

    open spec fn spec_rule_check(&self, file: &RuleFileNode) -> Seq<FindingView> {
        name_length_findings("Naming/RuleNameLength"@, Category::Naming, file)
    }

    fn name(&self) -> &'static str {
        "Naming/RuleNameLength"
    }

    fn check(&self, context: &LintContext, findings: &mut Vec<Finding>) {
        check_rule_name_length("Naming/RuleNameLength", Category::Naming, context, findings)
    }
}

impl Cop for NamingRuleNameLength {
    open spec fn spec_name(&self) -> Seq<char> {
        "RuleNameLength"@
    }

    open spec fn spec_category(&self) -> Category {
        Category::Naming
    }

    open spec fn spec_check(&self, file: &RuleFileNode) -> Seq<FindingView> {
        name_length_findings("RuleNameLength"@, Category::Naming, file)
    }

    fn name(&self) -> &'static str {
        "RuleNameLength"
    }

    fn category(&self) -> Category {
        Category::Naming
    }

    fn check(&self, context: &LintContext, findings: &mut Vec<Finding>) {
        check_rule_name_length("RuleNameLength", Category::Naming, context, findings)
    }
}

} // verus!
