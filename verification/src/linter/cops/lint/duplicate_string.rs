//! Verifies no two strings are duplicates of each other
//!
//! This is both type sensitive ("foo" and "{66 6f 6f}" are different) and
//! modifier sensitive (`"foo" wide ascii` is different than `"foo" wide` and
//! `"foo" ascii`)

use vstd::prelude::*;

use crate::linter::{
    context::LintContext,
    cop::{Category, Cop},
    finding::{Finding, FindingView, Severity, finding, findings_view, flatten_upto, push_finding},
};
use crate::parser::syntax::{
    rule::RuleNode,
    rule_file::RuleFileNode,
    strings::{StringModifier, StringNode, StringType},
};
use crate::text::{owned, str_eq};

verus! {

/// How many times `m` occurs in `s`.
pub open spec fn modifier_count(s: Seq<StringModifier>, m: StringModifier) -> nat
    decreases s.len(),
{
    if s.len() == 0 {
        0
    } else {
        modifier_count(s.drop_last(), m) + if s.last() == m {
            1nat
        } else {
            0nat
        }
    }
}

/// Whether two modifier lists hold the same modifiers the same number of
/// times, in whatever order.
pub open spec fn same_modifiers(a: Seq<StringModifier>, b: Seq<StringModifier>) -> bool {
    forall|m: StringModifier| modifier_count(a, m) == modifier_count(b, m)
}

/// Whether two string values are of the same kind and have the same text:
/// the text of a text string, the raw text of a hex string, the pattern of
/// a regular expression.
pub open spec fn same_value(a: StringType, b: StringType) -> bool {
    match (a, b) {
        (StringType::Text(x), StringType::Text(y)) => x@ == y@,
        (StringType::Hex(x), StringType::Hex(y)) => x.original_string@ == y.original_string@,
        (StringType::RegEx(x), StringType::RegEx(y)) => x@ == y@,
        _ => false,
    }
}

/// Whether two strings are duplicates: the same value with the same
/// modifiers.
pub open spec fn duplicate_strings(a: StringNode, b: StringNode) -> bool {
    same_value(a.value, b.value) && same_modifiers(a.modifiers@, b.modifiers@)
}

/// The first position from `j` on, before `i`, of a string that the string
/// at `i` duplicates, or `-1`.
pub open spec fn first_duplicate_from(s: Seq<StringNode>, i: int, j: int) -> int
    decreases i - j,
{
    if j >= i {
        -1
    } else if duplicate_strings(s[j], s[i]) {
        j
    } else {
        first_duplicate_from(s, i, j + 1)
    }
}

/// The message for a string that duplicates an earlier one.
pub open spec fn duplicate_string_message(
    identifier: Seq<char>,
    rule: Seq<char>,
    existing: Seq<char>,
) -> Seq<char> {
    "String "@ + identifier + " in rule "@ + rule + " is a duplicate of "@ + existing
}

/// The finding for the string at `i`, naming the first earlier string it
/// duplicates, if there is one.
pub open spec fn duplicate_string_entry_findings(rule: RuleNode, i: int) -> Seq<FindingView> {
    let j = first_duplicate_from(rule.strings@, i, 0);
    if j >= 0 {
        seq![
            finding(
                "DuplicateString"@,
                Category::Lint,
                duplicate_string_message(
                    rule.strings@[i].identifier@,
                    rule.name@,
                    rule.strings@[j].identifier@,
                ),
                Severity::Warning,
            ),
        ]
    } else {
        Seq::empty()
    }
}

/// The findings for one rule.
pub open spec fn duplicate_string_rule_findings(rule: RuleNode) -> Seq<FindingView> {
    flatten_upto(rule.strings@.len() as int, |i: int| duplicate_string_entry_findings(rule, i))
}

/// The findings for every rule of a file.
pub open spec fn duplicate_string_findings(file: &RuleFileNode) -> Seq<FindingView> {
    flatten_upto(file.rules@.len() as int, |i: int| duplicate_string_rule_findings(file.rules@[i]))
}

/// A modifier that a list does not hold occurs in it no times.
proof fn lemma_count_absent(s: Seq<StringModifier>, m: StringModifier)
    requires
        !s.contains(m),
    ensures
        modifier_count(s, m) == 0,
    decreases s.len(),
{
    if s.len() > 0 {
        assert(!s.drop_last().contains(m)) by {
            if s.drop_last().contains(m) {
                let k = choose|k: int| 0 <= k < s.drop_last().len() && s.drop_last()[k] == m;
                assert(s[k] == m);
            }
        }
        assert(s[s.len() - 1] != m);
        lemma_count_absent(s.drop_last(), m);
    }
}

/// How many times a modifier occurs in a list is how many times its
/// multiset holds it.
proof fn lemma_count_is_multiset_count(s: Seq<StringModifier>, m: StringModifier)
    ensures
        modifier_count(s, m) == s.to_multiset().count(m),
    decreases s.len(),
{
    broadcast use vstd::seq_lib::group_to_multiset_ensures;
    broadcast use vstd::multiset::group_multiset_axioms;

    if s.len() == 0 {
        assert(s.to_multiset().len() == 0);
        assert(s.to_multiset() =~= vstd::multiset::Multiset::<StringModifier>::empty());
    } else {
        lemma_count_is_multiset_count(s.drop_last(), m);
        assert(s.drop_last().push(s.last()) == s);
        assert(s.to_multiset() =~= s.drop_last().to_multiset().insert(s.last()));
    }
}

/// Two modifier lists count as the same exactly when they hold the same
/// modifiers the same number of times, whatever their order: when their
/// multisets are equal.
pub proof fn lemma_same_modifiers_iff_same_multiset(a: Seq<StringModifier>, b: Seq<StringModifier>)
    ensures
        same_modifiers(a, b) <==> a.to_multiset() == b.to_multiset(),
{
    assert forall|m: StringModifier| modifier_count(a, m) == a.to_multiset().count(m)
        && modifier_count(b, m) == b.to_multiset().count(m) by {
        lemma_count_is_multiset_count(a, m);
        lemma_count_is_multiset_count(b, m);
    }
    if same_modifiers(a, b) {
        assert forall|m: StringModifier| a.to_multiset().count(m) == b.to_multiset().count(m) by {
            assert(modifier_count(a, m) == modifier_count(b, m));
        }
        assert(a.to_multiset() =~= b.to_multiset());
    }
}

/// Two strings of the same kind, with the same text and the same
/// modifiers in any order, are duplicates: in particular every string is a
/// duplicate of an identical copy of itself, whatever its kind.
pub proof fn lemma_equal_strings_are_duplicates(a: StringNode, b: StringNode)
    requires
        a.value@ == b.value@,
        a.modifiers@.to_multiset() == b.modifiers@.to_multiset(),
    ensures
        duplicate_strings(a, b),
        duplicate_strings(b, a),
{
    lemma_same_modifiers_iff_same_multiset(a.modifiers@, b.modifiers@);
    lemma_same_modifiers_iff_same_multiset(b.modifiers@, a.modifiers@);
}

/// Strings of different kinds, or with different text, or whose modifiers
/// differ as multisets, are not duplicates.
pub proof fn lemma_different_strings_are_not_duplicates(a: StringNode, b: StringNode)
    requires
        a.value@ != b.value@ && !(a.value is Hex && b.value is Hex) || a.modifiers@.to_multiset()
            != b.modifiers@.to_multiset(),
    ensures
        !duplicate_strings(a, b),
{
    lemma_same_modifiers_iff_same_multiset(a.modifiers@, b.modifiers@);
}

/// The first duplicate found from `j0` is a duplicate at or after `j0` and
/// before `i`, with none between; where some duplicate lies in that range,
/// one is found.
proof fn lemma_first_duplicate_from(s: Seq<StringNode>, i: int, j0: int)
    requires
        0 <= j0 <= i < s.len(),
    ensures
        first_duplicate_from(s, i, j0) >= -1,
        first_duplicate_from(s, i, j0) == -1 <==> forall|k: int|
            j0 <= k < i ==> !duplicate_strings(#[trigger] s[k], s[i]),
        first_duplicate_from(s, i, j0) >= 0 ==> {
            let f = first_duplicate_from(s, i, j0);
            &&& j0 <= f < i
            &&& duplicate_strings(s[f], s[i])
            &&& forall|k: int| j0 <= k < f ==> !duplicate_strings(#[trigger] s[k], s[i])
        },
    decreases i - j0,
{
    if j0 < i && !duplicate_strings(s[j0], s[i]) {
        lemma_first_duplicate_from(s, i, j0 + 1);
    }
}

/// A string is reported exactly when an earlier string of the same rule
/// is a duplicate of it, and the report names the first such string.
pub proof fn lemma_duplicate_string_reported_iff_earlier_duplicate(rule: RuleNode, i: int)
    requires
        0 <= i < rule.strings@.len(),
    ensures
        duplicate_string_entry_findings(rule, i).len() == 1 <==> exists|j: int|
            0 <= j < i && duplicate_strings(#[trigger] rule.strings@[j], rule.strings@[i]),
        duplicate_string_entry_findings(rule, i).len() == 0 <==> forall|j: int|
            0 <= j < i ==> !duplicate_strings(#[trigger] rule.strings@[j], rule.strings@[i]),
        duplicate_string_entry_findings(rule, i).len() == 1 ==> exists|j: int|
            0 <= j < i && duplicate_strings(#[trigger] rule.strings@[j], rule.strings@[i])
                && (forall|k: int|
                0 <= k < j ==> !duplicate_strings(#[trigger] rule.strings@[k], rule.strings@[i]))
                && duplicate_string_entry_findings(rule, i)[0] == finding(
                "DuplicateString"@,
                Category::Lint,
                duplicate_string_message(
                    rule.strings@[i].identifier@,
                    rule.name@,
                    rule.strings@[j].identifier@,
                ),
                Severity::Warning,
            ),
{
    lemma_first_duplicate_from(rule.strings@, i, 0);
    let f = first_duplicate_from(rule.strings@, i, 0);
    if f >= 0 {
        assert(duplicate_strings(rule.strings@[f], rule.strings@[i]));
        assert(duplicate_string_entry_findings(rule, i).len() == 1);
    } else {
        assert(duplicate_string_entry_findings(rule, i).len() == 0);
    }
}

/// How many times `m` occurs in `s`.
fn count_modifier(s: &Vec<StringModifier>, m: StringModifier) -> (c: usize)
    ensures
        c == modifier_count(s@, m),
{
    let mut c: usize = 0;
    let mut i: usize = 0;
    while i < s.len()
        invariant
            i <= s@.len(),
            c == modifier_count(s@.take(i as int), m),
            c <= i,
        decreases s.len() - i,
    {
        assert(s@.take(i + 1).drop_last() =~= s@.take(i as int));
        if s[i] == m {
            c += 1;
        }
        i += 1;
    }
    assert(s@.take(i as int) =~= s@);
    c
}

/// Whether two modifier lists hold the same modifiers the same number of
/// times.
fn modifiers_match(a: &Vec<StringModifier>, b: &Vec<StringModifier>) -> (r: bool)
    ensures
        r == same_modifiers(a@, b@),
{
    let mut k: usize = 0;
    while k < a.len()
        invariant
            k <= a@.len(),
            forall|q: int| 0 <= q < k ==> modifier_count(a@, #[trigger] a@[q]) == modifier_count(
                b@,
                a@[q],
            ),
        decreases a.len() - k,
    {
        if count_modifier(a, a[k]) != count_modifier(b, a[k]) {
            return false;
        }
        k += 1;
    }
    let mut k: usize = 0;
    while k < b.len()
        invariant
            k <= b@.len(),
            forall|q: int| 0 <= q < a@.len() ==> modifier_count(a@, #[trigger] a@[q])
                == modifier_count(b@, a@[q]),
            forall|q: int| 0 <= q < k ==> modifier_count(a@, #[trigger] b@[q]) == modifier_count(
                b@,
                b@[q],
            ),
        decreases b.len() - k,
    {
        if count_modifier(a, b[k]) != count_modifier(b, b[k]) {
            return false;
        }
        k += 1;
    }
    assert forall|m: StringModifier| modifier_count(a@, m) == modifier_count(b@, m) by {
        if a@.contains(m) {
            let q = choose|q: int| 0 <= q < a@.len() && a@[q] == m;
            assert(modifier_count(a@, a@[q]) == modifier_count(b@, a@[q]));
        } else if b@.contains(m) {
            let q = choose|q: int| 0 <= q < b@.len() && b@[q] == m;
            assert(modifier_count(a@, b@[q]) == modifier_count(b@, b@[q]));
        } else {
            lemma_count_absent(a@, m);
            lemma_count_absent(b@, m);
        }
    }
    true
}

/// Whether two string values are of the same kind with the same text.
fn values_match(a: &StringType, b: &StringType) -> (r: bool)
    ensures
        r == same_value(*a, *b),
{
    match (a, b) {
        (StringType::Text(x), StringType::Text(y)) => str_eq(x.as_str(), y.as_str()),
        (StringType::Hex(x), StringType::Hex(y)) => str_eq(
            x.original_string.as_str(),
            y.original_string.as_str(),
        ),
        (StringType::RegEx(x), StringType::RegEx(y)) => str_eq(x.as_str(), y.as_str()),
        _ => false,
    }
}

/// Verifies no two strings are duplicates of each other
pub struct LintDuplicateString;

impl Cop for LintDuplicateString {
    open spec fn spec_name(&self) -> Seq<char> {
        "DuplicateString"@
    }

    open spec fn spec_category(&self) -> Category {
        Category::Lint
    }

    open spec fn spec_check(&self, file: &RuleFileNode) -> Seq<FindingView> {
        duplicate_string_findings(file)
    }

    /// Returns "DuplicateString"
    fn name(&self) -> &'static str {
        "DuplicateString"
    }

    /// Returns the category of the cop
    fn category(&self) -> Category {
        Category::Lint
    }

    /// This cop check fails if a string is defined more than once in a
    /// rule: each repeat is reported with the first string it repeats.
    fn check(&self, context: &LintContext, findings: &mut Vec<Finding>) {
        let rules = &context.file.rules;
        let ghost start = findings_view(findings@);
        let mut r: usize = 0;
        while r < rules.len()
            invariant
                r <= rules@.len(),
                rules == &context.file.rules,
                findings_view(findings@) == start + flatten_upto(
                    r as int,
                    |i: int| duplicate_string_rule_findings(context.file.rules@[i]),
                ),
            decreases rules.len() - r,
        {
            let rule = &rules[r];
            let ghost before = findings_view(findings@);
            let mut i: usize = 0;
            while i < rule.strings.len()
                invariant
                    i <= rule.strings@.len(),
                    findings_view(findings@) == before + flatten_upto(
                        i as int,
                        |k: int| duplicate_string_entry_findings(*rule, k),
                    ),
                decreases rule.strings.len() - i,
            {
                let string = &rule.strings[i];
                let mut j: usize = 0;
                let mut found = false;
                while j < i && !found
                    invariant
                        j <= i < rule.strings@.len(),
                        *string == rule.strings@[i as int],
                        found ==> j < i && first_duplicate_from(rule.strings@, i as int, 0) == j,
                        !found ==> first_duplicate_from(rule.strings@, i as int, 0)
                            == first_duplicate_from(rule.strings@, i as int, j as int),
                    decreases i - j, if found { 0int } else { 1int },
                {
                    let other = &rule.strings[j];
                    if values_match(&other.value, &string.value) && modifiers_match(
                        &other.modifiers,
                        &string.modifiers,
                    ) {
                        found = true;
                    } else {
                        j += 1;
                    }
                }
                if found {
                    let mut m = owned("String ");
                    m.append(string.identifier.as_str());
                    m.append(" in rule ");
                    m.append(rule.name.as_str());
                    m.append(" is a duplicate of ");
                    m.append(rule.strings[j].identifier.as_str());
                    push_finding(
                        findings,
                        Finding {
                            rule: "DuplicateString",
                            category: Category::Lint,
                            message: m,
                            severity: Severity::Warning,
                        },
                    );
                }
                i += 1;
            }
            r += 1;
        }
    }
}

} // verus!
