//! Verifies no two meta entries are duplicates of each other
//!
//! This does not check if two entries have the same value, rather if
//! two entries have the same key.

use vstd::prelude::*;

use crate::linter::{
    context::LintContext,
    cop::{Category, Cop},
    finding::{Finding, FindingView, Severity, finding, findings_view, flatten_upto, push_finding},
};
use crate::parser::syntax::{rule::RuleNode, rule_file::RuleFileNode};
use crate::text::owned;

verus! {

/// The message for a meta key that a rule repeats.
pub open spec fn duplicate_meta_message(rule: Seq<char>, key: Seq<char>) -> Seq<char> {
    "In rule "@ + rule + " there are two meta values named "@ + key + "."@
}

/// Whether the meta entry at `i` repeats the key of an earlier entry.
pub open spec fn meta_key_repeated(rule: RuleNode, i: int) -> bool {
    exists|j: int| 0 <= j < i && rule.meta@[j].key@ == rule.meta@[i].key@
}

/// The findings for the repeated meta keys of one rule, reported under
/// `name` and `category`.
pub open spec fn duplicate_meta_rule_findings(
    name: Seq<char>,
    category: Category,
    rule: RuleNode,
) -> Seq<FindingView> {
    flatten_upto(
        rule.meta@.len() as int,
        |i: int|
            if meta_key_repeated(rule, i) {
                seq![
                    finding(
                        name,
                        category,
                        duplicate_meta_message(rule.name@, rule.meta@[i].key@),
                        Severity::Warning,
                    ),
                ]
            } else {
                Seq::empty()
            },
    )
}

/// The findings for the repeated meta keys of every rule of a file.
pub open spec fn duplicate_meta_findings(
    name: Seq<char>,
    category: Category,
    file: &RuleFileNode,
) -> Seq<FindingView> {
    flatten_upto(
        file.rules@.len() as int,
        |i: int| duplicate_meta_rule_findings(name, category, file.rules@[i]),
    )
}

/// Appends a finding for each meta entry of each rule whose key an earlier
/// entry of the same rule already has.
pub fn check_duplicate_meta(
    name: &'static str,
    category: Category,
    context: &LintContext,
    findings: &mut Vec<Finding>,
)
    ensures
        findings_view(final(findings)@) == findings_view(old(findings)@) + duplicate_meta_findings(
            name@,
            category,
            context.file,
        ),
{
    let rules = &context.file.rules;
    let ghost start = findings_view(findings@);
    let mut r: usize = 0;
    while r < rules.len()
        invariant
            r <= rules@.len(),
            rules == &context.file.rules,
            findings_view(findings@) == start + flatten_upto(
                r as int,
                |i: int| duplicate_meta_rule_findings(name@, category, context.file.rules@[i]),
            ),
        decreases rules.len() - r,
    {
        let rule = &rules[r];
        let ghost before = findings_view(findings@);
        let mut i: usize = 0;
        while i < rule.meta.len()
            invariant
                i <= rule.meta@.len(),
                findings_view(findings@) == before + flatten_upto(
                    i as int,
                    |k: int|
                        if meta_key_repeated(*rule, k) {
                            seq![
                                finding(
                                    name@,
                                    category,
                                    duplicate_meta_message(rule.name@, rule.meta@[k].key@),
                                    Severity::Warning,
                                ),
                            ]
                        } else {
                            Seq::empty()
                        },
                ),
            decreases rule.meta.len() - i,
        {
            let key = &rule.meta[i].key;
            let mut seen = false;
            let mut j: usize = 0;
            while j < i
                invariant
                    j <= i < rule.meta@.len(),
                    *key == rule.meta@[i as int].key,
                    seen == exists|k: int| 0 <= k < j && rule.meta@[k].key@ == key@,
                decreases i - j,
            {
                if rule.meta[j].key == *key {
                    seen = true;
                }
                j += 1;
            }
            if seen {
                let mut m = owned("In rule ");
                m.append(rule.name.as_str());
                m.append(" there are two meta values named ");
                m.append(key.as_str());
                m.append(".");
                push_finding(
                    findings,
                    Finding { rule: name, category, message: m, severity: Severity::Warning },
                );
            }
            i += 1;
        }
        r += 1;
    }
}

/// Verifies no two meta entries are duplicates of each other
pub struct LintDuplicateMeta;

impl Cop for LintDuplicateMeta {
    open spec fn spec_name(&self) -> Seq<char> {
        "DuplicateMeta"@
    }

    open spec fn spec_category(&self) -> Category {
        Category::Lint
    }

    open spec fn spec_check(&self, file: &RuleFileNode) -> Seq<FindingView> {
        duplicate_meta_findings("DuplicateMeta"@, Category::Lint, file)
    }

    /// Returns "DuplicateMeta"
    fn name(&self) -> &'static str {
        "DuplicateMeta"
    }

    /// Returns the category of the cop
    fn category(&self) -> Category {
        Category::Lint
    }

    /// This cop check fails if a meta entry is defined more than once in a
    /// rule: every entry whose key an earlier entry has is reported.
    fn check(&self, context: &LintContext, findings: &mut Vec<Finding>) {
        check_duplicate_meta("DuplicateMeta", Category::Lint, context, findings)
    }
}

} // verus!
