//! Checks that rules with heavy string patterns (wide strings, regex
//! strings) bound their scan scope with a `filesize` check in the
//! `condition:` block.

use vstd::prelude::*;

use crate::linter::{
    context::LintContext,
    cop::{Category, Cop},
    finding::{Finding, FindingView, Severity, finding, findings_view, flatten_upto, push_finding},
};
use crate::parser::syntax::{
    expr::{ExprNode, ExprView, exprs_view, lemma_exprs_view_index},
    rule::RuleNode,
    rule_file::RuleFileNode,
    strings::{StringModifier, StringNode, StringType},
};
use crate::text::{owned, str_eq};

verus! {

/// Whether a string is "heavy": it carries the `wide` modifier or is a
/// regular expression.
pub open spec fn heavy_string(s: StringNode) -> bool {
    s.modifiers@.contains(StringModifier::Wide) || s.value is RegEx
}

/// Whether a rule declares at least one heavy string.
pub open spec fn spec_has_heavy_string(rule: RuleNode) -> bool {
    exists|i: int| 0 <= i < rule.strings@.len() && heavy_string(#[trigger] rule.strings@[i])
}

/// Whether an expression refers to the identifier `filesize` anywhere in
/// its tree.
pub open spec fn spec_contains_filesize(e: ExprView) -> bool
    decreases e,
{
    match e {
        ExprView::Identifier(name) => name == "filesize"@,
        ExprView::Binary { left, right, .. } => spec_contains_filesize(*left)
            || spec_contains_filesize(*right),
        ExprView::Unary { expression, .. } => spec_contains_filesize(*expression),
        ExprView::Group(inner) => spec_contains_filesize(*inner),
        ExprView::Of { count, .. } => spec_contains_filesize(*count),
        ExprView::FunctionCall { arguments, .. } => any_contains_filesize(arguments),
        ExprView::ModuleFunction { arguments, .. } => any_contains_filesize(arguments),
        _ => false,
    }
}

/// Whether any expression of a list refers to `filesize`.
pub open spec fn any_contains_filesize(s: Seq<ExprView>) -> bool
    decreases s,
{
    if s.len() == 0 {
        false
    } else {
        any_contains_filesize(s.drop_last()) || spec_contains_filesize(s.last())
    }
}

/// The message for a rule with a heavy string and no `filesize` bound.
pub open spec fn filesize_message(rule: Seq<char>) -> Seq<char> {
    "Rule '"@ + rule
        + "' uses a wide or regex string but has no `filesize` bound in its condition. Consider adding `and filesize < NMB` to limit scan scope."@
}

/// The finding for one rule, if it has a heavy string and its condition
/// never mentions `filesize`.
pub open spec fn filesize_rule_findings(rule: RuleNode) -> Seq<FindingView> {
    if spec_has_heavy_string(rule) && !spec_contains_filesize(rule.condition.expression@) {
        seq![
            finding(
                "Filesize"@,
                Category::Performance,
                filesize_message(rule.name@),
                Severity::Warning,
            ),
        ]
    } else {
        Seq::empty()
    }
}

/// The findings for every rule of a file.
pub open spec fn filesize_findings(file: &RuleFileNode) -> Seq<FindingView> {
    flatten_upto(file.rules@.len() as int, |i: int| filesize_rule_findings(file.rules@[i]))
}

/// Checks that rules with heavy string patterns bound their scan scope
/// with a `filesize` check.
pub struct PerformanceFilesize;

/// Whether a list of modifiers holds `m`.
pub fn has_modifier(modifiers: &Vec<StringModifier>, m: StringModifier) -> (b: bool)
    ensures
        b == modifiers@.contains(m),
{
    let mut i: usize = 0;
    while i < modifiers.len()
        invariant
            i <= modifiers@.len(),
            forall|k: int| 0 <= k < i ==> modifiers@[k] != m,
        decreases modifiers.len() - i,
    {
        if modifiers[i] == m {
            assert(modifiers@[i as int] == m);
            return true;
        }
        i += 1;
    }
    false
}

impl PerformanceFilesize {
    /// Returns true if the rule declares at least one "heavy" string
    /// pattern: a `wide` modifier or a regular expression string. Plain
    /// text/hex strings without a `wide` modifier are not considered
    /// heavy on their own.
    pub fn has_heavy_string(rule: &RuleNode) -> (b: bool)
        ensures
            b == spec_has_heavy_string(*rule),
    {
        let mut i: usize = 0;
        while i < rule.strings.len()
            invariant
                i <= rule.strings@.len(),
                forall|k: int| 0 <= k < i ==> !heavy_string(#[trigger] rule.strings@[k]),
            decreases rule.strings.len() - i,
        {
            let string = &rule.strings[i];
            let is_regex = match string.value {
                StringType::RegEx(_) => true,
                _ => false,
            };
            if has_modifier(&string.modifiers, StringModifier::Wide) || is_regex {
                assert(heavy_string(rule.strings@[i as int]));
                return true;
            }
            i += 1;
        }
        false
    }

    /// Recursively walks the condition's expression tree looking for a
    /// reference to the `filesize` identifier, anywhere in the tree.
    pub fn contains_filesize(expr: &ExprNode) -> (b: bool)
        ensures
            b == spec_contains_filesize(expr@),
        decreases expr,
    {
        match expr {
            ExprNode::Identifier(name) => str_eq(name.as_str(), "filesize"),
            ExprNode::Binary { left, right, .. } => {
                Self::contains_filesize(left) || Self::contains_filesize(right)
            },
            ExprNode::Unary { expression, .. } => Self::contains_filesize(expression),
            ExprNode::Group(inner) => Self::contains_filesize(inner),
            ExprNode::Of { count, .. } => Self::contains_filesize(count),
            ExprNode::FunctionCall { arguments, .. } => Self::any_contains_filesize(arguments),
            ExprNode::ModuleFunction { arguments, .. } => Self::any_contains_filesize(arguments),
            // BoolLiteral, StringLiteral, Number, AllOf, AllOfThem, and
            // Empty have no nested expressions to walk into.
            _ => false,
        }
    }

    /// Whether any of `arguments` refers to `filesize`.
    fn any_contains_filesize(arguments: &Vec<ExprNode>) -> (b: bool)
        ensures
            b == any_contains_filesize(exprs_view(arguments@)),
        decreases arguments,
    {
        proof {
            lemma_exprs_view_index(arguments@);
        }
        let ghost all = exprs_view(arguments@);
        let mut i: usize = 0;
        while i < arguments.len()
            invariant
                i <= arguments@.len(),
                all == exprs_view(arguments@),
                all.len() == arguments@.len(),
                forall|k: int| 0 <= k < arguments@.len() ==> #[trigger] all[k] == arguments@[k]@,
                !any_contains_filesize(all.take(i as int)),
            decreases arguments.len() - i,
        {
            proof {
                assert(all.take(i + 1).drop_last() =~= all.take(i as int));
            }
            if Self::contains_filesize(&arguments[i]) {
                proof {
                    lemma_any_prefix(all, i + 1);
                }
                return true;
            }
            i += 1;
        }
        proof {
            assert(all.take(i as int) =~= all);
        }
        false
    }
}

/// Once a prefix of a list refers to `filesize`, the whole list does.
proof fn lemma_any_prefix(s: Seq<ExprView>, n: int)
    requires
        0 <= n <= s.len(),
        any_contains_filesize(s.take(n)),
    ensures
        any_contains_filesize(s),
    decreases s.len() - n,
{
    if n < s.len() {
        assert(s.take(n + 1).drop_last() =~= s.take(n));
        lemma_any_prefix(s, n + 1);
    } else {
        assert(s.take(n) =~= s);
    }
}

impl Cop for PerformanceFilesize {
    open spec fn spec_name(&self) -> Seq<char> {
        "Filesize"@
    }

    open spec fn spec_category(&self) -> Category {
        Category::Performance
    }

    open spec fn spec_check(&self, file: &RuleFileNode) -> Seq<FindingView> {
        filesize_findings(file)
    }

    fn name(&self) -> &'static str {
        "Filesize"
    }

    fn category(&self) -> Category {
        Category::Performance
    }

    fn check(&self, context: &LintContext, findings: &mut Vec<Finding>) {
        let rules = &context.file.rules;
        let ghost start = findings_view(findings@);
        let mut r: usize = 0;
        while r < rules.len()
            invariant
                r <= rules@.len(),
                rules == &context.file.rules,
                findings_view(findings@) == start + flatten_upto(
                    r as int,
                    |i: int| filesize_rule_findings(context.file.rules@[i]),
                ),
            decreases rules.len() - r,
        {
            let rule = &rules[r];
            if Self::has_heavy_string(rule) && !Self::contains_filesize(&rule.condition.expression) {
                let mut m = owned("Rule '");
                m.append(rule.name.as_str());
                m.append(
                    "' uses a wide or regex string but has no `filesize` bound in its condition. Consider adding `and filesize < NMB` to limit scan scope.",
                );
                push_finding(
                    findings,
                    Finding {
                        rule: "Filesize",
                        category: Category::Performance,
                        message: m,
                        severity: Severity::Warning,
                    },
                );
            }
            r += 1;
        }
    }
}

} // verus!
