//! Check if a rule's name is in the permitted case format

use vstd::prelude::*;

use crate::linter::{
    context::LintContext,
    cop::{Category, Cop},
    cops::style::{is_pascal_case, is_snake_case, spec_is_pascal_case, spec_is_snake_case},
    finding::{Finding, FindingView, Severity, finding, findings_view, flatten_upto, push_finding},
};
use crate::parser::syntax::{rule::RuleNode, rule_file::RuleFileNode};
use crate::text::{chars_of, is_ascii_digit, owned, spec_is_ascii_digit};

verus! {

/// The naming convention a `StyleRuleNameCase` cop enforces.
#[derive(Debug, Clone, Copy, PartialEq, Eq, Structural)]
pub enum NameCase {
    /// Represents PascalCase
    PascalCase,
    /// Represents snake_case
    SnakeCase,
}

/// The name of a naming convention as messages show it.
pub open spec fn name_case_label(case: NameCase) -> Seq<char> {
    match case {
        NameCase::PascalCase => "PascalCase"@,
        NameCase::SnakeCase => "SnakeCase"@,
    }
}

impl NameCase {
    /// The convention's name, e.g. `"PascalCase"`.
    pub fn label(&self) -> (r: &'static str)
        ensures
            r@ == name_case_label(*self),
    {
        match self {
            NameCase::PascalCase => "PascalCase",
            NameCase::SnakeCase => "SnakeCase",
        }
    }
}

/// Whether a `_v` starts at position `p` of `s`.
pub open spec fn version_marker_at(s: Seq<char>, p: int) -> bool {
    0 <= p && p + 1 < s.len() && s[p] == '_' && s[p + 1] == 'v'
}

/// The last position at or before `n` where a `_v` starts, or `-1`.
pub open spec fn last_version_marker(s: Seq<char>, n: int) -> int
    decreases n + 1,
{
    if n < 0 {
        -1
    } else if version_marker_at(s, n) {
        n
    } else {
        last_version_marker(s, n - 1)
    }
}

/// Whether every character of `s` is an ASCII digit.
pub open spec fn all_ascii_digits(s: Seq<char>) -> bool {
    forall|i: int| 0 <= i < s.len() ==> spec_is_ascii_digit(#[trigger] s[i])
}

/// `s` without a version suffix: where the last `_v` in `s` is followed by
/// one or more ASCII digits and nothing else, the text before that `_v`;
/// otherwise `s` itself.
pub open spec fn spec_strip_version_suffix(s: Seq<char>) -> Seq<char> {
    let p = last_version_marker(s, s.len() - 2);
    if p >= 0 && p + 2 < s.len() && all_ascii_digits(s.subrange(p + 2, s.len() as int)) {
        s.subrange(0, p)
    } else {
        s
    }
}

/// Stripping a version suffix leaves a prefix of the name, and removes
/// nothing but `_v` and digits.
pub proof fn lemma_strip_version_suffix_prefix(s: Seq<char>)
    ensures
        spec_strip_version_suffix(s).len() <= s.len(),
        s.take(spec_strip_version_suffix(s).len() as int) == spec_strip_version_suffix(s),
        spec_strip_version_suffix(s) != s ==> {
            let n = spec_strip_version_suffix(s).len() as int;
            &&& s[n] == '_'
            &&& s[n + 1] == 'v'
            &&& all_ascii_digits(s.subrange(n + 2, s.len() as int))
        },
{
    let p = last_version_marker(s, s.len() - 2);
    lemma_last_version_marker(s, s.len() - 2);
    if p >= 0 && p + 2 < s.len() && all_ascii_digits(s.subrange(p + 2, s.len() as int)) {
        assert(s.take(p) =~= s.subrange(0, p));
    } else {
        assert(s.take(s.len() as int) =~= s);
    }
}

/// The last `_v` at or before `n` is a `_v` at or before `n`, if any.
proof fn lemma_last_version_marker(s: Seq<char>, n: int)
    ensures
        last_version_marker(s, n) >= 0 ==> last_version_marker(s, n) <= n && version_marker_at(
            s,
            last_version_marker(s, n),
        ),
        last_version_marker(s, n) >= -1,
    decreases n + 1,
{
    if n >= 0 && !version_marker_at(s, n) {
        lemma_last_version_marker(s, n - 1);
    }
}

/// Whether a rule name conforms to a naming convention. Version suffixes
/// are permitted for PascalCase names.
pub open spec fn conforms_to(case: NameCase, name: Seq<char>) -> bool {
    match case {
        NameCase::PascalCase => spec_is_pascal_case(spec_strip_version_suffix(name)),
        NameCase::SnakeCase => spec_is_snake_case(name),
    }
}

/// The message for a rule name that does not conform.
pub open spec fn name_case_message(rule: Seq<char>, case: NameCase) -> Seq<char> {
    "Rule name '"@ + rule + "' does not conform to the configured "@ + name_case_label(case)
        + " naming convention"@
}

/// The finding for one rule, if its name does not conform.
pub open spec fn name_case_rule_findings(case: NameCase, rule: RuleNode) -> Seq<FindingView> {
    if !conforms_to(case, rule.name@) {
        seq![
            finding(
                "RuleNameCase"@,
                Category::Style,
                name_case_message(rule.name@, case),
                Severity::Warning,
            ),
        ]
    } else {
        Seq::empty()
    }
}

/// The findings for every rule of a file.
pub open spec fn name_case_findings(case: NameCase, file: &RuleFileNode) -> Seq<FindingView> {
    flatten_upto(file.rules@.len() as int, |i: int| name_case_rule_findings(case, file.rules@[i]))
}

/// Enforces a single, configured casing convention across all rule
/// names in a file.
pub struct StyleRuleNameCase {
    /// The rule case
    case: NameCase,
}

impl StyleRuleNameCase {
    /// The convention the cop enforces.
    pub closed spec fn spec_case(&self) -> NameCase {
        self.case
    }

    /// Create a cop enforcing `case` on all rule names.
    pub fn new(case: NameCase) -> (r: Self)
        ensures
            r.spec_case() == case,
    {
        Self { case }
    }
}

impl Cop for StyleRuleNameCase {
    open spec fn spec_name(&self) -> Seq<char> {
        "RuleNameCase"@
    }

    open spec fn spec_category(&self) -> Category {
        Category::Style
    }

    open spec fn spec_check(&self, file: &RuleFileNode) -> Seq<FindingView> {
        name_case_findings(self.spec_case(), file)
    }

    fn name(&self) -> &'static str {
        "RuleNameCase"
    }

    fn category(&self) -> Category {
        Category::Style
    }

    fn check(&self, context: &LintContext, findings: &mut Vec<Finding>) {
        let rules = &context.file.rules;
        let ghost start = findings_view(findings@);
        let mut r: usize = 0;
        while r < rules.len()
            invariant
                r <= rules@.len(),
                rules == &context.file.rules,
                findings_view(findings@) == start + flatten_upto(
                    r as int,
                    |i: int| name_case_rule_findings(self.spec_case(), context.file.rules@[i]),
                ),
            decreases rules.len() - r,
        {
            let rule = &rules[r];
            let conforms = match self.case {
                NameCase::PascalCase => is_pascal_case(strip_version_suffix(rule.name.as_str())),
                NameCase::SnakeCase => is_snake_case(rule.name.as_str()),
            };
            if !conforms {
                let mut m = owned("Rule name '");
                m.append(rule.name.as_str());
                m.append("' does not conform to the configured ");
                m.append(self.case.label());
                m.append(" naming convention");
                push_finding(
                    findings,
                    Finding {
                        rule: "RuleNameCase",
                        category: Category::Style,
                        message: m,
                        severity: Severity::Warning,
                    },
                );
            }
            r += 1;
        }
    }
}

/// Strips off version suffixes from a string
///
/// Since version suffixes are permitted by the YARlint for PascalCase names,
/// this method strips them off before being passed to the string checker.
pub fn strip_version_suffix(s: &str) -> (r: &str)
    ensures
        r@ == spec_strip_version_suffix(s@),
{
    let chars = chars_of(s);
    let n = chars.len();
    if n < 2 {
        return s;
    }
    // Find the last `_v`.
    let mut p: usize = n - 1;
    while p > 0
        invariant
            chars@ == s@,
            n == s@.len(),
            0 <= p <= n - 1,
            last_version_marker(s@, n - 2) == last_version_marker(s@, p - 1),
        decreases p,
    {
        let q = p - 1;
        if chars[q] == '_' && chars[q + 1] == 'v' {
            let suffix_start = q + 2;
            if suffix_start >= n {
                return s;
            }
            assert(last_version_marker(s@, q as int) == q as int);
            let mut k: usize = suffix_start;
            while k < n
                invariant
                    chars@ == s@,
                    suffix_start == q + 2,
                    last_version_marker(s@, n - 2) == q,
                    n == s@.len(),
                    suffix_start <= k <= n,
                    forall|j: int| suffix_start <= j < k ==> spec_is_ascii_digit(#[trigger] s@[j]),
                decreases n - k,
            {
                if !is_ascii_digit(chars[k]) {
                    proof {
                        let t = s@.subrange(suffix_start as int, n as int);
                        assert(t[k - suffix_start] == s@[k as int]);
                        assert(!spec_is_ascii_digit(t[k - suffix_start]));
                    }
                    return s;
                }
                k += 1;
            }
            proof {
                let t = s@.subrange(suffix_start as int, n as int);
                assert forall|i: int| 0 <= i < t.len() implies spec_is_ascii_digit(#[trigger] t[i]) by {
                    assert(t[i] == s@[suffix_start + i]);
                }
            }
            return s.substring_char(0, q);
        }
        p = q;
    }
    s
}

} // verus!
