//! Lint findings and severity levels.

use vstd::prelude::*;

use crate::linter::cop::Category;

verus! {

/// Severity of a lint finding.
#[derive(Debug, Clone, Copy, PartialEq, Eq, Structural)]
pub enum Severity {
    /// Informational message.
    Info,
    /// Warning-level issue.
    Warning,
    /// Error-level issue.
    Error,
}

/// A single lint result.
#[derive(Debug, Clone)]
pub struct Finding {
    /// Name of the cop or rule that generated this finding.
    pub rule: &'static str,
    /// Category of the cop that generated this finding.
    pub category: Category,
    /// Human-readable message.
    pub message: String,
    /// Finding severity.
    pub severity: Severity,
}

/// The mathematical value of a [`Finding`].
pub struct FindingView {
    pub rule: Seq<char>,
    pub category: Category,
    pub message: Seq<char>,
    pub severity: Severity,
}

impl View for Finding {
    type V = FindingView;

    open spec fn view(&self) -> FindingView {
        FindingView {
            rule: self.rule@,
            category: self.category,
            message: self.message@,
            severity: self.severity,
        }
    }
}

/// The findings of a list, taken by their views.
pub open spec fn findings_view(s: Seq<Finding>) -> Seq<FindingView> {
    s.map_values(|f: Finding| f@)
}

/// The findings `f(0)`, `f(1)`, ..., `f(n - 1)`, one after another.
pub open spec fn flatten_upto(n: int, f: spec_fn(int) -> Seq<FindingView>) -> Seq<FindingView>
    decreases n,
{
    if n <= 0 {
        Seq::empty()
    } else {
        flatten_upto(n - 1, f) + f(n - 1)
    }
}

/// A finding built from its parts.
pub open spec fn finding(
    rule: Seq<char>,
    category: Category,
    message: Seq<char>,
    severity: Severity,
) -> FindingView {
    FindingView { rule, category, message, severity }
}

/// Pushing a finding extends the list's view by the finding's view.
pub proof fn lemma_push_finding(s: Seq<Finding>, f: Finding)
    ensures
        findings_view(s.push(f)) == findings_view(s).push(f@),
{
    assert(findings_view(s.push(f)) =~= findings_view(s).push(f@));
}

/// Pushes `f` onto `findings`.
pub fn push_finding(findings: &mut Vec<Finding>, f: Finding)
    ensures
        findings_view(final(findings)@) == findings_view(old(findings)@).push(f@),
{
    let ghost before = findings@;
    findings.push(f);
    proof {
        lemma_push_finding(before, f);
    }
}

} // verus!
