//! Enforces a minimum level of substantiality to the description tag in the
//! meta section of a YARA rule. Values that are too short, generic, or
//! placeholder-like (e.g. "`malware`", "`test`", "`TODO`") should be flagged.

use vstd::prelude::*;

use crate::linter::{
    context::LintContext,
    cop::{Category, Cop},
    finding::{Finding, FindingView, Severity, finding, findings_view, flatten_upto, push_finding},
    rule::Rule,
};
use crate::parser::syntax::{meta::MetaValue, rule::RuleNode, rule_file::RuleFileNode};
use crate::text::{
    decimal, owned, push_decimal, spec_to_lowercase, spec_trim, spec_word_count, str_eq,
    to_lowercase, trim, word_count,
};

verus! {

/// Defines the minimum character length of the description.
pub const MIN_CHAR_LENGTH: usize = 20;

/// Defines the minimum word count of the description.
pub const MIN_WORD_COUNT: usize = 5;

/// The number of placeholder values.
pub const PLACEHOLDER_COUNT: usize = 21;

/// The placeholder values searched for in a description: `malware`,
/// `test`, `testing`, `todo`, `tbd`, `placeholder`, `fixme`, `unknown`,
/// `sample`, `detection`, `rule`, `generic`, `description`, `temp`, `wip`,
/// `n/a`, `none`, `...`, `xxx`, `foo`, `bar`.
pub open spec fn spec_placeholder_value(j: int) -> Seq<char> {
    if j == 0 {
        "malware"@
    } else if j == 1 {
        "test"@
    } else if j == 2 {
        "testing"@
    } else if j == 3 {
        "todo"@
    } else if j == 4 {
        "tbd"@
    } else if j == 5 {
        "placeholder"@
    } else if j == 6 {
        "fixme"@
    } else if j == 7 {
        "unknown"@
    } else if j == 8 {
        "sample"@
    } else if j == 9 {
        "detection"@
    } else if j == 10 {
        "rule"@
    } else if j == 11 {
        "generic"@
    } else if j == 12 {
        "description"@
    } else if j == 13 {
        "temp"@
    } else if j == 14 {
        "wip"@
    } else if j == 15 {
        "n/a"@
    } else if j == 16 {
        "none"@
    } else if j == 17 {
        "..."@
    } else if j == 18 {
        "xxx"@
    } else if j == 19 {
        "foo"@
    } else {
        "bar"@
    }
}

/// The `j`-th placeholder value.
pub fn placeholder_value(j: usize) -> (v: &'static str)
    requires
        j < PLACEHOLDER_COUNT,
    ensures
        v@ == spec_placeholder_value(j as int),
{
    if j == 0 {
        "malware"
    } else if j == 1 {
        "test"
    } else if j == 2 {
        "testing"
    } else if j == 3 {
        "todo"
    } else if j == 4 {
        "tbd"
    } else if j == 5 {
        "placeholder"
    } else if j == 6 {
        "fixme"
    } else if j == 7 {
        "unknown"
    } else if j == 8 {
        "sample"
    } else if j == 9 {
        "detection"
    } else if j == 10 {
        "rule"
    } else if j == 11 {
        "generic"
    } else if j == 12 {
        "description"
    } else if j == 13 {
        "temp"
    } else if j == 14 {
        "wip"
    } else if j == 15 {
        "n/a"
    } else if j == 16 {
        "none"
    } else if j == 17 {
        "..."
    } else if j == 18 {
        "xxx"
    } else if j == 19 {
        "foo"
    } else {
        "bar"
    }
}

/// Whether `s` is one of the placeholder values.
pub open spec fn spec_is_placeholder(s: Seq<char>) -> bool {
    exists|j: int| 0 <= j < PLACEHOLDER_COUNT && s == #[trigger] spec_placeholder_value(j)
}

/// Whether `s` is one of the placeholder values.
pub fn is_placeholder(s: &str) -> (b: bool)
    ensures
        b == spec_is_placeholder(s@),
{
    let mut j: usize = 0;
    while j < PLACEHOLDER_COUNT
        invariant
            j <= PLACEHOLDER_COUNT,
            forall|k: int| 0 <= k < j ==> s@ != #[trigger] spec_placeholder_value(k),
        decreases PLACEHOLDER_COUNT - j,
    {
        if str_eq(s, placeholder_value(j)) {
            return true;
        }
        j += 1;
    }
    false
}

/// A description as it is judged: trimmed, then lowercased.
pub open spec fn normalized_description(d: Seq<char>) -> Seq<char> {
    spec_to_lowercase(spec_trim(d))
}

/// The message for a placeholder description.
pub open spec fn placeholder_message(rule: Seq<char>, normalized: Seq<char>) -> Seq<char> {
    "Rule "@ + rule + "'s description tag is a generic placeholder value \""@ + normalized
        + "\""@
}

/// The message for a description with too few characters.
pub open spec fn too_few_chars_message(rule: Seq<char>) -> Seq<char> {
    "Description value in "@ + rule + " is shorter than minimum character length ("@ + decimal(
        MIN_CHAR_LENGTH as nat,
    ) + ")"@
}

/// The message for a description with too few words.
pub open spec fn too_few_words_message(rule: Seq<char>) -> Seq<char> {
    "Description value in "@ + rule + " is shorter than minimum word count ("@ + decimal(
        MIN_WORD_COUNT as nat,
    ) + ")"@
}

/// The findings for a normalized description of rule `rule`: one if it is
/// a placeholder value, one if it has fewer characters than the minimum,
/// one if it has fewer words than the minimum, in that order.
pub open spec fn description_findings(
    name: Seq<char>,
    category: Category,
    rule: Seq<char>,
    normalized: Seq<char>,
) -> Seq<FindingView> {
    (if spec_is_placeholder(normalized) {
        seq![finding(name, category, placeholder_message(rule, normalized), Severity::Info)]
    } else {
        Seq::empty()
    }) + (if normalized.len() < MIN_CHAR_LENGTH {
        seq![finding(name, category, too_few_chars_message(rule), Severity::Info)]
    } else {
        Seq::empty()
    }) + (if spec_word_count(normalized) < MIN_WORD_COUNT {
        seq![finding(name, category, too_few_words_message(rule), Severity::Info)]
    } else {
        Seq::empty()
    })
}

/// The findings for the meta entry at `i`: those of its description, if it
/// is a `description` entry with a string value.
pub open spec fn descriptive_meta_entry_findings(
    name: Seq<char>,
    category: Category,
    rule: RuleNode,
    i: int,
) -> Seq<FindingView> {
    match rule.meta@[i].value {
        MetaValue::String(d) => if rule.meta@[i].key@ == "description"@ {
            description_findings(name, category, rule.name@, normalized_description(d@))
        } else {
            Seq::empty()
        },
        _ => Seq::empty(),
    }
}

/// The findings for one rule.
pub open spec fn descriptive_meta_rule_findings(
    name: Seq<char>,
    category: Category,
    rule: RuleNode,
) -> Seq<FindingView> {
    flatten_upto(
        rule.meta@.len() as int,
        |i: int| descriptive_meta_entry_findings(name, category, rule, i),
    )
}

/// The findings for every rule of a file.
pub open spec fn descriptive_meta_findings(
    name: Seq<char>,
    category: Category,
    file: &RuleFileNode,
) -> Seq<FindingView> {
    flatten_upto(
        file.rules@.len() as int,
        |i: int| descriptive_meta_rule_findings(name, category, file.rules@[i]),
    )
}

/// Appends, under `name` and `category`, the findings for the normalized
/// description `normalized` of the rule named `rule_name`.
pub fn check_description(
    name: &'static str,
    category: Category,
    rule_name: &str,
    normalized: &str,
    findings: &mut Vec<Finding>,
)
    ensures
        findings_view(final(findings)@) == findings_view(old(findings)@) + description_findings(
            name@,
            category,
            rule_name@,
            normalized@,
        ),
{
    let ghost start = findings_view(findings@);
    if is_placeholder(normalized) {
        let mut m = owned("Rule ");
        m.append(rule_name);
        m.append("'s description tag is a generic placeholder value \"");
        m.append(normalized);
        m.append("\"");
        push_finding(findings, Finding { rule: name, category, message: m, severity: Severity::Info });
    }
    let ghost after_placeholder = findings_view(findings@);
    if normalized.unicode_len() < MIN_CHAR_LENGTH {
        let mut m = owned("Description value in ");
        m.append(rule_name);
        m.append(" is shorter than minimum character length (");
        push_decimal(MIN_CHAR_LENGTH as u64, &mut m);
        m.append(")");
        push_finding(findings, Finding { rule: name, category, message: m, severity: Severity::Info });
    }
    let ghost after_length = findings_view(findings@);
    if word_count(normalized) < MIN_WORD_COUNT {
        let mut m = owned("Description value in ");
        m.append(rule_name);
        m.append(" is shorter than minimum word count (");
        push_decimal(MIN_WORD_COUNT as u64, &mut m);
        m.append(")");
        push_finding(findings, Finding { rule: name, category, message: m, severity: Severity::Info });
    }
    proof {
        let d = description_findings(name@, category, rule_name@, normalized@);
        assert(findings_view(findings@) =~= start + d);
    }
}

/// Appends, under `name` and `category`, the findings for the description
/// of each rule.
pub fn check_descriptive_meta(
    name: &'static str,
    category: Category,
    context: &LintContext,
    findings: &mut Vec<Finding>,
)
    ensures
        findings_view(final(findings)@) == findings_view(old(findings)@)
            + descriptive_meta_findings(name@, category, context.file),
{
    let rules = &context.file.rules;
    let ghost start = findings_view(findings@);
    let mut r: usize = 0;
    while r < rules.len()
        invariant
            r <= rules@.len(),
            rules == &context.file.rules,
            findings_view(findings@) == start + flatten_upto(
                r as int,
                |i: int| descriptive_meta_rule_findings(name@, category, context.file.rules@[i]),
            ),
        decreases rules.len() - r,
    {
        let rule = &rules[r];
        let ghost before = findings_view(findings@);
        let mut i: usize = 0;
        while i < rule.meta.len()
            invariant
                i <= rule.meta@.len(),
                findings_view(findings@) == before + flatten_upto(
                    i as int,
                    |k: int| descriptive_meta_entry_findings(name@, category, *rule, k),
                ),
            decreases rule.meta.len() - i,
        {
            let entry = &rule.meta[i];
            match &entry.value {
                MetaValue::String(description_string) => {
                    if str_eq(entry.key.as_str(), "description") {
                        let normalized = to_lowercase(trim(description_string.as_str()));
                        check_description(
                            name,
                            category,
                            rule.name.as_str(),
                            normalized.as_str(),
                            findings,
                        );
                    }
                },
                MetaValue::Number(_) => {},
                MetaValue::Boolean(_) => {},
            }
            i += 1;
        }
        r += 1;
    }
}

/// Enforces a minimum level of substantiality to the description tag
pub struct NamingDescriptiveMeta;

impl Rule for NamingDescriptiveMeta {
    open spec fn spec_rule_name(&self) -> Seq<char> {
        "Naming/DescriptiveMeta"@
    }

    open spec fn spec_rule_check(&self, file: &RuleFileNode) -> Seq<FindingView> {
        descriptive_meta_findings("Naming/DescriptiveMeta"@, Category::Naming, file)
    }

    /// Returns "Naming/DescriptiveMeta"
    fn name(&self) -> &'static str {
        "Naming/DescriptiveMeta"
    }

    /// Checks each description value, trimmed and lowercased, for being a
    /// placeholder value, for its character length and for its word count:
    /// each of the three it fails gives a finding.
    fn check(&self, context: &LintContext, findings: &mut Vec<Finding>) {
        check_descriptive_meta("Naming/DescriptiveMeta", Category::Naming, context, findings)
    }
}

impl Cop for NamingDescriptiveMeta {
    open spec fn spec_name(&self) -> Seq<char> {
        "DescriptiveMeta"@
    }

    open spec fn spec_category(&self) -> Category {
        Category::Naming
    }

    open spec fn spec_check(&self, file: &RuleFileNode) -> Seq<FindingView> {
        descriptive_meta_findings("DescriptiveMeta"@, Category::Naming, file)
    }

    fn name(&self) -> &'static str {
        "DescriptiveMeta"
    }

    fn category(&self) -> Category {
        Category::Naming
    }

    fn check(&self, context: &LintContext, findings: &mut Vec<Finding>) {
        check_descriptive_meta("DescriptiveMeta", Category::Naming, context, findings)
    }
}

} // verus!
