//! Enforces the order of expected meta keys.

use vstd::prelude::*;

use crate::linter::{
    context::LintContext,
    cop::{Category, Cop},
    cops::style::missing_required_meta::{required_meta_key, spec_required_meta_key},
    finding::{Finding, FindingView, Severity, finding, findings_view, flatten_upto, push_finding},
    rule::Rule,
};
use crate::parser::syntax::{meta::MetaEntryNode, rule::RuleNode, rule_file::RuleFileNode};
use crate::text::{owned, str_eq};

verus! {

/// The place of a meta key in the expected order `author`, `description`,
/// `reference`, `date`; keys outside that list have none.
pub open spec fn spec_meta_key_position(key: Seq<char>) -> Option<int> {
    if key == "author"@ {
        Some(0)
    } else if key == "description"@ {
        Some(1)
    } else if key == "reference"@ {
        Some(2)
    } else if key == "date"@ {
        Some(3)
    } else {
        None
    }
}

/// The place, in the expected order, of the last of the first `n` meta
/// entries that has one.
pub open spec fn last_ordered_position(meta: Seq<MetaEntryNode>, n: int) -> Option<int>
    decreases n,
{
    if n <= 0 {
        None
    } else {
        match spec_meta_key_position(meta[n - 1].key@) {
            Some(e) => Some(e),
            None => last_ordered_position(meta, n - 1),
        }
    }
}

/// The message for a key found after one that should follow it.
pub open spec fn meta_order_message(rule: Seq<char>, key: Seq<char>, last: Seq<char>) -> Seq<
    char,
> {
    "meta keys for rule "@ + rule + " are out of order: found '"@ + key + "' after '"@ + last + "', expected '"@
        + key + "' before '"@ + last + "'"@
}

/// The finding for the meta entry at `i`, if its key belongs before the
/// last ordered key seen before it.
pub open spec fn meta_order_entry_findings(
    name: Seq<char>,
    category: Category,
    rule: RuleNode,
    i: int,
) -> Seq<FindingView> {
    match (spec_meta_key_position(rule.meta@[i].key@), last_ordered_position(rule.meta@, i)) {
        (Some(e), Some(l)) => if e < l {
            seq![
                finding(
                    name,
                    category,
                    meta_order_message(rule.name@, rule.meta@[i].key@, spec_required_meta_key(l)),
                    Severity::Info,
                ),
            ]
        } else {
            Seq::empty()
        },
        _ => Seq::empty(),
    }
}

/// The last ordered key before `n` is the one at `j` when no key between
/// them has a place in the order.
proof fn lemma_last_ordered_is(meta: Seq<MetaEntryNode>, j: int, n: int)
    requires
        0 <= j < n <= meta.len(),
        spec_meta_key_position(meta[j].key@) is Some,
        forall|k: int| j < k < n ==> spec_meta_key_position((#[trigger] meta[k]).key@) is None,
    ensures
        last_ordered_position(meta, n) == spec_meta_key_position(meta[j].key@),
    decreases n,
{
    if n > j + 1 {
        assert(spec_meta_key_position(meta[n - 1].key@) is None);
        lemma_last_ordered_is(meta, j, n - 1);
    }
}

/// Without ordered keys before `n`, there is no last one.
proof fn lemma_no_last_ordered(meta: Seq<MetaEntryNode>, n: int)
    requires
        0 <= n <= meta.len(),
        forall|k: int| 0 <= k < n ==> spec_meta_key_position((#[trigger] meta[k]).key@) is None,
    ensures
        last_ordered_position(meta, n) is None,
    decreases n,
{
    if n > 0 {
        assert(spec_meta_key_position(meta[n - 1].key@) is None);
        lemma_no_last_ordered(meta, n - 1);
    }
}

/// A meta entry whose key belongs earlier in the order `author`,
/// `description`, `reference`, `date` than the nearest ordered key before
/// it is reported once, naming both keys; one that belongs at or after it
/// is not reported. Any inversion counts, neighbouring places included.
pub proof fn lemma_meta_order_reports_inversions(
    name: Seq<char>,
    category: Category,
    rule: RuleNode,
    i: int,
    j: int,
)
    requires
        0 <= j < i < rule.meta@.len(),
        spec_meta_key_position(rule.meta@[i].key@) is Some,
        spec_meta_key_position(rule.meta@[j].key@) is Some,
        forall|k: int|
            j < k < i ==> spec_meta_key_position((#[trigger] rule.meta@[k]).key@) is None,
    ensures
        meta_order_entry_findings(name, category, rule, i) == if spec_meta_key_position(
            rule.meta@[i].key@,
        )->0 < spec_meta_key_position(rule.meta@[j].key@)->0 {
            seq![
                finding(
                    name,
                    category,
                    meta_order_message(rule.name@, rule.meta@[i].key@, rule.meta@[j].key@),
                    Severity::Info,
                ),
            ]
        } else {
            Seq::<FindingView>::empty()
        },
{
    lemma_last_ordered_is(rule.meta@, j, i);
    let l = spec_meta_key_position(rule.meta@[j].key@)->0;
    assert(spec_required_meta_key(l) == rule.meta@[j].key@);
}

/// A meta entry with no ordered key before it, or whose key has no place
/// in the order, is not reported.
pub proof fn lemma_meta_order_first_or_unordered_unreported(
    name: Seq<char>,
    category: Category,
    rule: RuleNode,
    i: int,
)
    requires
        0 <= i < rule.meta@.len(),
        spec_meta_key_position(rule.meta@[i].key@) is None || forall|k: int|
            0 <= k < i ==> spec_meta_key_position((#[trigger] rule.meta@[k]).key@) is None,
    ensures
        meta_order_entry_findings(name, category, rule, i) == Seq::<FindingView>::empty(),
{
    if spec_meta_key_position(rule.meta@[i].key@) is Some {
        lemma_no_last_ordered(rule.meta@, i);
    }
}

/// The findings for one rule.
pub open spec fn meta_order_rule_findings(
    name: Seq<char>,
    category: Category,
    rule: RuleNode,
) -> Seq<FindingView> {
    flatten_upto(
        rule.meta@.len() as int,
        |i: int| meta_order_entry_findings(name, category, rule, i),
    )
}

/// The findings for every rule of a file.
pub open spec fn meta_order_findings(
    name: Seq<char>,
    category: Category,
    file: &RuleFileNode,
) -> Seq<FindingView> {
    flatten_upto(
        file.rules@.len() as int,
        |i: int| meta_order_rule_findings(name, category, file.rules@[i]),
    )
}

/// The place of `key` in the expected order.
pub fn meta_key_position(key: &str) -> (r: Option<usize>)
    ensures
        match spec_meta_key_position(key@) {
            Some(e) => r == Some(e as usize),
            None => r is None,
        },
{
    if str_eq(key, "author") {
        Some(0)
    } else if str_eq(key, "description") {
        Some(1)
    } else if str_eq(key, "reference") {
        Some(2)
    } else if str_eq(key, "date") {
        Some(3)
    } else {
        None
    }
}

/// Appends, under `name` and `category`, a finding for each meta key that
/// comes after a key that should follow it.
pub fn check_meta_keys_order(
    name: &'static str,
    category: Category,
    context: &LintContext,
    findings: &mut Vec<Finding>,
)
    ensures
        findings_view(final(findings)@) == findings_view(old(findings)@) + meta_order_findings(
            name@,
            category,
            context.file,
        ),
{
    let rules = &context.file.rules;
    let ghost start = findings_view(findings@);
    let mut r: usize = 0;
    while r < rules.len()
        invariant
            r <= rules@.len(),
            rules == &context.file.rules,
            findings_view(findings@) == start + flatten_upto(
                r as int,
                |i: int| meta_order_rule_findings(name@, category, context.file.rules@[i]),
            ),
        decreases rules.len() - r,
    {
        let rule = &rules[r];
        let ghost before = findings_view(findings@);
        let mut last_seen: Option<usize> = None;
        let mut i: usize = 0;
        while i < rule.meta.len()
            invariant
                i <= rule.meta@.len(),
                match last_ordered_position(rule.meta@, i as int) {
                    Some(l) => last_seen == Some(l as usize) && 0 <= l < 4,
                    None => last_seen is None,
                },
                findings_view(findings@) == before + flatten_upto(
                    i as int,
                    |k: int| meta_order_entry_findings(name@, category, *rule, k),
                ),
            decreases rule.meta.len() - i,
        {
            let entry = &rule.meta[i];
            match meta_key_position(entry.key.as_str()) {
                None => {},
                Some(expected_index) => {
                    match last_seen {
                        Some(last_index) => {
                            if expected_index < last_index {
                                let last_key = required_meta_key(last_index);
                                let mut m = owned("meta keys for rule ");
                                m.append(rule.name.as_str());
                                m.append(" are out of order: found '");
                                m.append(entry.key.as_str());
                                m.append("' after '");
                                m.append(last_key);
                                m.append("', expected '");
                                m.append(entry.key.as_str());
                                m.append("' before '");
                                m.append(last_key);
                                m.append("'");
                                push_finding(
                                    findings,
                                    Finding {
                                        rule: name,
                                        category,
                                        message: m,
                                        severity: Severity::Info,
                                    },
                                );
                            }
                        },
                        None => {},
                    }
                    last_seen = Some(expected_index);
                },
            }
            i += 1;
        }
        r += 1;
    }
}

/// Enforces the order of expected meta keys.
pub struct StyleMetaKeysOrder;

impl Rule for StyleMetaKeysOrder {
    open spec fn spec_rule_name(&self) -> Seq<char> {
        "Style/MetaKeysOrder"@
    }

    open spec fn spec_rule_check(&self, file: &RuleFileNode) -> Seq<FindingView> {
        meta_order_findings("Style/MetaKeysOrder"@, Category::Style, file)
    }

    /// Returns "Style/MetaKeysOrder"
    fn name(&self) -> &'static str {
        "Style/MetaKeysOrder"
    }

    /// This rule is violated by each meta key that comes after a key that
    /// should follow it.
    fn check(&self, context: &LintContext, findings: &mut Vec<Finding>) {
        check_meta_keys_order("Style/MetaKeysOrder", Category::Style, context, findings)
    }
}

impl Cop for StyleMetaKeysOrder {
    open spec fn spec_name(&self) -> Seq<char> {
        "MetaKeysOrder"@
    }

    open spec fn spec_category(&self) -> Category {
        Category::Style
    }

    open spec fn spec_check(&self, file: &RuleFileNode) -> Seq<FindingView> {
        meta_order_findings("MetaKeysOrder"@, Category::Style, file)
    }

    fn name(&self) -> &'static str {
        "MetaKeysOrder"
    }

    fn category(&self) -> Category {
        Category::Style
    }

    fn check(&self, context: &LintContext, findings: &mut Vec<Finding>) {
        check_meta_keys_order("MetaKeysOrder", Category::Style, context, findings)
    }
}

} // verus!
