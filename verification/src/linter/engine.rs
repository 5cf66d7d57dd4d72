//! Lint engine.

use vstd::prelude::*;

use crate::linter::{
    context::LintContext,
    cop::{Category, Cop},
    finding::{Finding, FindingView, findings_view},
};
use crate::parser::syntax::rule_file::RuleFileNode;
use crate::linter::cops::lint::duplicate_meta::LintDuplicateMeta;
use crate::linter::cops::lint::duplicate_string::LintDuplicateString;
use crate::linter::cops::lint::empty_string::LintEmptyString;
use crate::linter::cops::lint::empty_strings_block::LintEmptyStringsBlock;
use crate::linter::cops::logic::constant_condition::LogicConstantCondition;
use crate::linter::rules::naming::descriptive_meta::NamingDescriptiveMeta;
use crate::linter::rules::naming::rule_name_length::NamingRuleNameLength;
use crate::linter::cops::naming::rule_name::NamingRuleName;
use crate::linter::cops::performance::filesize::PerformanceFilesize;
use crate::linter::cops::performance::wide_string_without_ascii::PerformanceWideStringWithoutAscii;
use crate::linter::cops::style::condition_spacing::StyleConditionSpacing;
use crate::linter::cops::style::meta_keys_order::StyleMetaKeysOrder;
use crate::linter::cops::style::rule_name_case::StyleRuleNameCase;
use crate::linter::cops::style::missing_required_meta::StyleMissingRequiredMeta;
use crate::linter::cops::style::string_identifier::StyleStringIdentifier;

verus! {

/// One of the built-in cops, as the engine holds it.
pub enum BuiltinCop {
    /// The `DuplicateMeta` cop.
    DuplicateMeta(LintDuplicateMeta),
    /// The `DuplicateString` cop.
    DuplicateString(LintDuplicateString),
    /// The `EmptyString` cop.
    EmptyString(LintEmptyString),
    /// The `EmptyStringsBlock` cop.
    EmptyStringsBlock(LintEmptyStringsBlock),
    /// The `ConstantCondition` cop.
    ConstantCondition(LogicConstantCondition),
    /// The `DescriptiveMeta` cop.
    DescriptiveMeta(NamingDescriptiveMeta),
    /// The `RuleNameLength` cop.
    RuleNameLength(NamingRuleNameLength),
    /// The `RuleName` cop.
    RuleName(NamingRuleName),
    /// The `Filesize` cop.
    Filesize(PerformanceFilesize),
    /// The `WideStringWithoutAscii` cop.
    WideStringWithoutAscii(PerformanceWideStringWithoutAscii),
    /// The `ConditionSpacing` cop.
    ConditionSpacing(StyleConditionSpacing),
    /// The `MetaKeysOrder` cop.
    MetaKeysOrder(StyleMetaKeysOrder),
    /// The `RuleNameCase` cop.
    RuleNameCase(StyleRuleNameCase),
    /// The `MissingRequiredMeta` cop.
    MissingRequiredMeta(StyleMissingRequiredMeta),
    /// The `StringIdentifier` cop.
    StringIdentifier(StyleStringIdentifier),
}

impl Cop for BuiltinCop {
    open spec fn spec_name(&self) -> Seq<char> {
        match self {
            BuiltinCop::DuplicateMeta(c) => c.spec_name(),
            BuiltinCop::DuplicateString(c) => c.spec_name(),
            BuiltinCop::EmptyString(c) => c.spec_name(),
            BuiltinCop::EmptyStringsBlock(c) => c.spec_name(),
            BuiltinCop::ConstantCondition(c) => c.spec_name(),
            BuiltinCop::DescriptiveMeta(c) => c.spec_name(),
            BuiltinCop::RuleNameLength(c) => c.spec_name(),
            BuiltinCop::RuleName(c) => c.spec_name(),
            BuiltinCop::Filesize(c) => c.spec_name(),
            BuiltinCop::WideStringWithoutAscii(c) => c.spec_name(),
            BuiltinCop::ConditionSpacing(c) => c.spec_name(),
            BuiltinCop::MetaKeysOrder(c) => c.spec_name(),
            BuiltinCop::RuleNameCase(c) => c.spec_name(),
            BuiltinCop::MissingRequiredMeta(c) => c.spec_name(),
            BuiltinCop::StringIdentifier(c) => c.spec_name(),
        }
    }

    open spec fn spec_category(&self) -> Category {
        match self {
            BuiltinCop::DuplicateMeta(c) => c.spec_category(),
            BuiltinCop::DuplicateString(c) => c.spec_category(),
            BuiltinCop::EmptyString(c) => c.spec_category(),
            BuiltinCop::EmptyStringsBlock(c) => c.spec_category(),
            BuiltinCop::ConstantCondition(c) => c.spec_category(),
            BuiltinCop::DescriptiveMeta(c) => c.spec_category(),
            BuiltinCop::RuleNameLength(c) => c.spec_category(),
            BuiltinCop::RuleName(c) => c.spec_category(),
            BuiltinCop::Filesize(c) => c.spec_category(),
            BuiltinCop::WideStringWithoutAscii(c) => c.spec_category(),
            BuiltinCop::ConditionSpacing(c) => c.spec_category(),
            BuiltinCop::MetaKeysOrder(c) => c.spec_category(),
            BuiltinCop::RuleNameCase(c) => c.spec_category(),
            BuiltinCop::MissingRequiredMeta(c) => c.spec_category(),
            BuiltinCop::StringIdentifier(c) => c.spec_category(),
        }
    }

    open spec fn spec_check(&self, file: &RuleFileNode) -> Seq<FindingView> {
        match self {
            BuiltinCop::DuplicateMeta(c) => c.spec_check(file),
            BuiltinCop::DuplicateString(c) => c.spec_check(file),
            BuiltinCop::EmptyString(c) => c.spec_check(file),
            BuiltinCop::EmptyStringsBlock(c) => c.spec_check(file),
            BuiltinCop::ConstantCondition(c) => c.spec_check(file),
            BuiltinCop::DescriptiveMeta(c) => c.spec_check(file),
            BuiltinCop::RuleNameLength(c) => c.spec_check(file),
            BuiltinCop::RuleName(c) => c.spec_check(file),
            BuiltinCop::Filesize(c) => c.spec_check(file),
            BuiltinCop::WideStringWithoutAscii(c) => c.spec_check(file),
            BuiltinCop::ConditionSpacing(c) => c.spec_check(file),
            BuiltinCop::MetaKeysOrder(c) => c.spec_check(file),
            BuiltinCop::RuleNameCase(c) => c.spec_check(file),
            BuiltinCop::MissingRequiredMeta(c) => c.spec_check(file),
            BuiltinCop::StringIdentifier(c) => c.spec_check(file),
        }
    }

    fn name(&self) -> &'static str {
        match self {
            BuiltinCop::DuplicateMeta(c) => Cop::name(c),
            BuiltinCop::DuplicateString(c) => Cop::name(c),
            BuiltinCop::EmptyString(c) => Cop::name(c),
            BuiltinCop::EmptyStringsBlock(c) => Cop::name(c),
            BuiltinCop::ConstantCondition(c) => Cop::name(c),
            BuiltinCop::DescriptiveMeta(c) => Cop::name(c),
            BuiltinCop::RuleNameLength(c) => Cop::name(c),
            BuiltinCop::RuleName(c) => Cop::name(c),
            BuiltinCop::Filesize(c) => Cop::name(c),
            BuiltinCop::WideStringWithoutAscii(c) => Cop::name(c),
            BuiltinCop::ConditionSpacing(c) => Cop::name(c),
            BuiltinCop::MetaKeysOrder(c) => Cop::name(c),
            BuiltinCop::RuleNameCase(c) => Cop::name(c),
            BuiltinCop::MissingRequiredMeta(c) => Cop::name(c),
            BuiltinCop::StringIdentifier(c) => Cop::name(c),
        }
    }

    fn category(&self) -> Category {
        match self {
            BuiltinCop::DuplicateMeta(c) => Cop::category(c),
            BuiltinCop::DuplicateString(c) => Cop::category(c),
            BuiltinCop::EmptyString(c) => Cop::category(c),
            BuiltinCop::EmptyStringsBlock(c) => Cop::category(c),
            BuiltinCop::ConstantCondition(c) => Cop::category(c),
            BuiltinCop::DescriptiveMeta(c) => Cop::category(c),
            BuiltinCop::RuleNameLength(c) => Cop::category(c),
            BuiltinCop::RuleName(c) => Cop::category(c),
            BuiltinCop::Filesize(c) => Cop::category(c),
            BuiltinCop::WideStringWithoutAscii(c) => Cop::category(c),
            BuiltinCop::ConditionSpacing(c) => Cop::category(c),
            BuiltinCop::MetaKeysOrder(c) => Cop::category(c),
            BuiltinCop::RuleNameCase(c) => Cop::category(c),
            BuiltinCop::MissingRequiredMeta(c) => Cop::category(c),
            BuiltinCop::StringIdentifier(c) => Cop::category(c),
        }
    }

    fn check(&self, context: &LintContext, findings: &mut Vec<Finding>) {
        match self {
            BuiltinCop::DuplicateMeta(c) => Cop::check(c, context, findings),
            BuiltinCop::DuplicateString(c) => Cop::check(c, context, findings),
            BuiltinCop::EmptyString(c) => Cop::check(c, context, findings),
            BuiltinCop::EmptyStringsBlock(c) => Cop::check(c, context, findings),
            BuiltinCop::ConstantCondition(c) => Cop::check(c, context, findings),
            BuiltinCop::DescriptiveMeta(c) => Cop::check(c, context, findings),
            BuiltinCop::RuleNameLength(c) => Cop::check(c, context, findings),
            BuiltinCop::RuleName(c) => Cop::check(c, context, findings),
            BuiltinCop::Filesize(c) => Cop::check(c, context, findings),
            BuiltinCop::WideStringWithoutAscii(c) => Cop::check(c, context, findings),
            BuiltinCop::ConditionSpacing(c) => Cop::check(c, context, findings),
            BuiltinCop::MetaKeysOrder(c) => Cop::check(c, context, findings),
            BuiltinCop::RuleNameCase(c) => Cop::check(c, context, findings),
            BuiltinCop::MissingRequiredMeta(c) => Cop::check(c, context, findings),
            BuiltinCop::StringIdentifier(c) => Cop::check(c, context, findings),
        }
    }
}

/// The findings of each cop of `cops` on a file, one cop after another.
pub open spec fn cops_findings<C: Cop>(cops: Seq<&C>, file: &RuleFileNode) -> Seq<FindingView>
    decreases cops.len(),
{
    if cops.len() == 0 {
        Seq::empty()
    } else {
        cops_findings(cops.drop_last(), file) + cops.last().spec_check(file)
    }
}

/// Running two lists of cops one after the other reports what running
/// their concatenation reports.
pub proof fn lemma_cops_findings_concat<C: Cop>(a: Seq<&C>, b: Seq<&C>, file: &RuleFileNode)
    ensures
        cops_findings(a + b, file) == cops_findings(a, file) + cops_findings(b, file),
    decreases b.len(),
{
    if b.len() == 0 {
        assert(a + b =~= a);
        assert(cops_findings(a, file) + Seq::<FindingView>::empty() =~= cops_findings(a, file));
    } else {
        lemma_cops_findings_concat(a, b.drop_last(), file);
        assert((a + b).drop_last() =~= a + b.drop_last());
        assert((a + b).last() == b.last());
        assert(cops_findings(a, file) + cops_findings(b.drop_last(), file) + b.last().spec_check(
            file,
        ) =~= cops_findings(a, file) + (cops_findings(b.drop_last(), file) + b.last().spec_check(
            file,
        )));
    }
}

/// Lint execution engine.
pub struct LintEngine {
    /// Cops to be loaded into the lint engine
    cops: Vec<BuiltinCop>,
}

impl LintEngine {
    /// The registered cops, in the order they were registered.
    pub closed spec fn spec_cops(&self) -> Seq<BuiltinCop> {
        self.cops@
    }

    /// Create an empty engine.
    pub fn new() -> (r: Self)
        ensures
            r.spec_cops() == Seq::<BuiltinCop>::empty(),
    {
        Self { cops: Vec::new() }
    }

    /// Register a cop: it runs after those registered before it.
    pub fn register(&mut self, cop: BuiltinCop)
        ensures
            final(self).spec_cops() == old(self).spec_cops().push(cop),
    {
        self.cops.push(cop);
    }

    /// All registered cops.
    ///
    /// Used by callers that need to resolve an enabled subset (see
    /// [`crate::linter::cops::selector::resolve_enabled_cops`]) before
    /// running.
    pub fn cops(&self) -> (r: &[BuiltinCop])
        ensures
            r@ == self.spec_cops(),
    {
        self.cops.as_slice()
    }

    /// Run all registered cops: the findings of each, in the order they
    /// were registered.
    pub fn run(&self, context: &LintContext) -> (r: Vec<Finding>)
        ensures
            findings_view(r@) == cops_findings(all_refs(self.spec_cops()), context.file),
    {
        let mut all: Vec<&BuiltinCop> = Vec::new();
        let mut i: usize = 0;
        while i < self.cops.len()
            invariant
                i <= self.cops@.len(),
                all@ == all_refs(self.cops@.take(i as int)),
            decreases self.cops.len() - i,
        {
            all.push(&self.cops[i]);
            proof {
                assert(self.cops@.take(i + 1).drop_last() =~= self.cops@.take(i as int));
            }
            i += 1;
        }
        proof {
            assert(self.cops@.take(i as int) =~= self.cops@);
        }
        self.run_selected(context, all.as_slice())
    }

    /// Run only the given subset of registered cops: the findings of each,
    /// in the given order.
    pub fn run_selected(&self, context: &LintContext, enabled: &[&BuiltinCop]) -> (r: Vec<
        Finding,
    >)
        ensures
            findings_view(r@) == cops_findings(enabled@, context.file),
    {
        let mut findings: Vec<Finding> = Vec::new();
        let mut i: usize = 0;
        while i < enabled.len()
            invariant
                i <= enabled@.len(),
                findings_view(findings@) == cops_findings(enabled@.take(i as int), context.file),
            decreases enabled.len() - i,
        {
            let cop = enabled[i];
            cop.check(context, &mut findings);
            proof {
                assert(enabled@.take(i + 1).drop_last() =~= enabled@.take(i as int));
            }
            i += 1;
        }
        proof {
            assert(enabled@.take(i as int) =~= enabled@);
        }
        findings
    }
}

/// References to each cop of a list, in order.
pub open spec fn all_refs<'a>(cops: Seq<BuiltinCop>) -> Seq<&'a BuiltinCop>
    decreases cops.len(),
{
    if cops.len() == 0 {
        Seq::empty()
    } else {
        all_refs(cops.drop_last()).push(&cops.last())
    }
}

impl Default for LintEngine {
    /// Equivalent to [`LintEngine::new`]
    fn default() -> (r: Self)
        ensures
            r.spec_cops() == Seq::<BuiltinCop>::empty(),
    {
        Self::new()
    }
}

} // verus!
