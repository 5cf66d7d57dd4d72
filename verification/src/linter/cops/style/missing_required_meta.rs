//! Enforces the presence of expected meta keys.

use vstd::prelude::*;

use crate::linter::{
    context::LintContext,
    cop::{Category, Cop},
    finding::{Finding, FindingView, Severity, finding, findings_view, flatten_upto, push_finding},
};
use crate::parser::syntax::{rule::RuleNode, rule_file::RuleFileNode};
use crate::text::{owned, str_eq};

verus! {

/// The number of required meta keys.
pub const REQUIRED_META_KEY_COUNT: usize = 4;

/// The required meta keys, in the order they are checked: `author`,
/// `description`, `reference`, `date`.
pub open spec fn spec_required_meta_key(j: int) -> Seq<char> {
    if j == 0 {
        "author"@
    } else if j == 1 {
        "description"@
    } else if j == 2 {
        "reference"@
    } else {
        "date"@
    }
}

/// The `j`-th required meta key.
pub fn required_meta_key(j: usize) -> (k: &'static str)
    requires
        j < REQUIRED_META_KEY_COUNT,
    ensures
        k@ == spec_required_meta_key(j as int),
{
    if j == 0 {
        "author"
    } else if j == 1 {
        "description"
    } else if j == 2 {
        "reference"
    } else {
        "date"
    }
}

/// Whether a rule has a meta entry with key `key`.
pub open spec fn has_meta_key(rule: RuleNode, key: Seq<char>) -> bool {
    exists|i: int| 0 <= i < rule.meta@.len() && (#[trigger] rule.meta@[i]).key@ == key
}

/// The message for a missing meta key.
pub open spec fn missing_meta_message(rule: Seq<char>, key: Seq<char>) -> Seq<char> {
    "Rule "@ + rule + " is missing the meta key '"@ + key + "'"@
}

/// The findings for the required meta keys that one rule lacks, in the
/// order of the required keys.
pub open spec fn missing_meta_rule_findings(
    name: Seq<char>,
    category: Category,
    rule: RuleNode,
) -> Seq<FindingView> {
    flatten_upto(
        REQUIRED_META_KEY_COUNT as int,
        |j: int|
            if !has_meta_key(rule, spec_required_meta_key(j)) {
                seq![
                    finding(
                        name,
                        category,
                        missing_meta_message(rule.name@, spec_required_meta_key(j)),
                        Severity::Info,
                    ),
                ]
            } else {
                Seq::empty()
            },
    )
}

/// The findings for every rule of a file.
pub open spec fn missing_meta_findings(
    name: Seq<char>,
    category: Category,
    file: &RuleFileNode,
) -> Seq<FindingView> {
    flatten_upto(
        file.rules@.len() as int,
        |i: int| missing_meta_rule_findings(name, category, file.rules@[i]),
    )
}

/// Whether `rule` has a meta entry with key `key`.
pub fn rule_has_meta_key(rule: &RuleNode, key: &str) -> (b: bool)
    ensures
        b == has_meta_key(*rule, key@),
{
    let mut i: usize = 0;
    while i < rule.meta.len()
        invariant
            i <= rule.meta@.len(),
            forall|k: int| 0 <= k < i ==> (#[trigger] rule.meta@[k]).key@ != key@,
        decreases rule.meta.len() - i,
    {
        if str_eq(rule.meta[i].key.as_str(), key) {
            return true;
        }
        i += 1;
    }
    false
}

/// Appends, under `name` and `category`, a finding for each required meta
/// key that a rule lacks.
pub fn check_missing_required_meta(
    name: &'static str,
    category: Category,
    context: &LintContext,
    findings: &mut Vec<Finding>,
)
    ensures
        findings_view(final(findings)@) == findings_view(old(findings)@) + missing_meta_findings(
            name@,
            category,
            context.file,
        ),
{
    let rules = &context.file.rules;
    let ghost start = findings_view(findings@);
    let mut r: usize = 0;
    while r < rules.len()
        invariant
            r <= rules@.len(),
            rules == &context.file.rules,
            findings_view(findings@) == start + flatten_upto(
                r as int,
                |i: int| missing_meta_rule_findings(name@, category, context.file.rules@[i]),
            ),
        decreases rules.len() - r,
    {
        let rule = &rules[r];
        let ghost before = findings_view(findings@);
        let mut j: usize = 0;
        while j < REQUIRED_META_KEY_COUNT
            invariant
                j <= REQUIRED_META_KEY_COUNT,
                findings_view(findings@) == before + flatten_upto(
                    j as int,
                    |k: int|
                        if !has_meta_key(*rule, spec_required_meta_key(k)) {
                            seq![
                                finding(
                                    name@,
                                    category,
                                    missing_meta_message(rule.name@, spec_required_meta_key(k)),
                                    Severity::Info,
                                ),
                            ]
                        } else {
                            Seq::empty()
                        },
                ),
            decreases REQUIRED_META_KEY_COUNT - j,
        {
            let required_key = required_meta_key(j);
            if !rule_has_meta_key(rule, required_key) {
                let mut m = owned("Rule ");
                m.append(rule.name.as_str());
                m.append(" is missing the meta key '");
                m.append(required_key);
                m.append("'");
                push_finding(
                    findings,
                    Finding { rule: name, category, message: m, severity: Severity::Info },
                );
            }
            j += 1;
        }
        r += 1;
    }
}

/// Enforces the presence of expected meta keys.
pub struct StyleMissingRequiredMeta;

impl Cop for StyleMissingRequiredMeta {
    open spec fn spec_name(&self) -> Seq<char> {
        "MissingRequiredMeta"@
    }

    open spec fn spec_category(&self) -> Category {
        Category::Style
    }

    open spec fn spec_check(&self, file: &RuleFileNode) -> Seq<FindingView> {
        missing_meta_findings("MissingRequiredMeta"@, Category::Style, file)
    }

    /// Returns the category of the cop
    fn category(&self) -> Category {
        Category::Style
    }

    /// Returns "MissingRequiredMeta"
    fn name(&self) -> &'static str {
        "MissingRequiredMeta"
    }

    /// This cop is violated by each required meta key that a rule lacks.
    fn check(&self, context: &LintContext, findings: &mut Vec<Finding>) {
        check_missing_required_meta("MissingRequiredMeta", Category::Style, context, findings)
    }
}

} // verus!
