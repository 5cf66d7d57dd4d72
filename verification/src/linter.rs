//! YARlint linting engine.

pub mod analysis;
pub mod context;
pub mod cop;
pub mod cops;
pub mod engine;
pub mod finding;
pub mod rule;
pub mod rules;

use vstd::prelude::*;

use crate::config;
use crate::linter::cops::{
    lint::{
        duplicate_meta::LintDuplicateMeta, duplicate_string::LintDuplicateString,
        empty_string::LintEmptyString, empty_strings_block::LintEmptyStringsBlock,
    },
    logic::constant_condition::LogicConstantCondition,
    naming::rule_name::NamingRuleName,
    performance::{
        filesize::PerformanceFilesize,
        wide_string_without_ascii::PerformanceWideStringWithoutAscii,
    },
    style::{
        condition_spacing::StyleConditionSpacing, meta_keys_order::StyleMetaKeysOrder,
        missing_required_meta::StyleMissingRequiredMeta,
        rule_name_case::{NameCase, StyleRuleNameCase}, string_identifier::StyleStringIdentifier,
    },
};
use crate::linter::engine::{BuiltinCop, LintEngine};
use crate::linter::rules::naming::{
    descriptive_meta::NamingDescriptiveMeta, rule_name_length::NamingRuleNameLength,
};
use crate::parser::token::Token;

verus! {

/// Whether `cops` are all the built-in cops, one of each, in the order
/// the default engine runs them, with `tokens` for the condition spacing cop.
pub open spec fn is_default_cop_list(cops: Seq<BuiltinCop>, tokens: Seq<Token>) -> bool {
    &&& cops.len() == 15
    &&& cops[0] == BuiltinCop::DuplicateMeta(LintDuplicateMeta)
    &&& cops[1] == BuiltinCop::DuplicateString(LintDuplicateString)
    &&& cops[2] == BuiltinCop::EmptyString(LintEmptyString)
    &&& cops[3] == BuiltinCop::EmptyStringsBlock(LintEmptyStringsBlock)
    &&& cops[4] == BuiltinCop::ConstantCondition(LogicConstantCondition)
    &&& cops[5] == BuiltinCop::DescriptiveMeta(NamingDescriptiveMeta)
    &&& cops[6] == BuiltinCop::RuleNameLength(NamingRuleNameLength)
    &&& cops[7] == BuiltinCop::RuleName(NamingRuleName)
    &&& cops[8] == BuiltinCop::Filesize(PerformanceFilesize)
    &&& cops[9] == BuiltinCop::WideStringWithoutAscii(PerformanceWideStringWithoutAscii)
    &&& cops[10] matches BuiltinCop::ConditionSpacing(c) && c.spec_tokens() == tokens
    &&& cops[11] == BuiltinCop::MetaKeysOrder(StyleMetaKeysOrder)
    &&& cops[12] matches BuiltinCop::RuleNameCase(c) && c.spec_case() == NameCase::PascalCase
    &&& cops[13] == BuiltinCop::MissingRequiredMeta(StyleMissingRequiredMeta)
    &&& cops[14] == BuiltinCop::StringIdentifier(StyleStringIdentifier)
}

/// Creates the default lint engine with all built-in cops.
pub fn default_engine() -> (r: LintEngine)
    ensures
        is_default_cop_list(r.spec_cops(), Seq::empty()),
{
    default_engine_with_tokens(Vec::new())
}

/// Creates the default lint engine for a tokenized YARA file.
///
/// The token stream is moved into cops that require source location data.
pub fn default_engine_with_tokens(tokens: Vec<Token>) -> (r: LintEngine)
    ensures
        is_default_cop_list(r.spec_cops(), tokens@),
{
    let ghost toks = tokens@;
    let mut engine = LintEngine::new();
    engine.register(BuiltinCop::DuplicateMeta(LintDuplicateMeta));
    engine.register(BuiltinCop::DuplicateString(LintDuplicateString));
    engine.register(BuiltinCop::EmptyString(LintEmptyString));
    engine.register(BuiltinCop::EmptyStringsBlock(LintEmptyStringsBlock));

    engine.register(BuiltinCop::ConstantCondition(LogicConstantCondition));

    engine.register(BuiltinCop::DescriptiveMeta(NamingDescriptiveMeta));
    engine.register(BuiltinCop::RuleNameLength(NamingRuleNameLength));
    engine.register(BuiltinCop::RuleName(NamingRuleName));

    engine.register(BuiltinCop::Filesize(PerformanceFilesize));
    engine.register(BuiltinCop::WideStringWithoutAscii(PerformanceWideStringWithoutAscii));

    engine.register(BuiltinCop::ConditionSpacing(StyleConditionSpacing::new(tokens)));
    engine.register(BuiltinCop::MetaKeysOrder(StyleMetaKeysOrder));
    engine.register(BuiltinCop::RuleNameCase(StyleRuleNameCase::new(config::rule_name_case())));
    engine.register(BuiltinCop::MissingRequiredMeta(StyleMissingRequiredMeta));
    engine.register(BuiltinCop::StringIdentifier(StyleStringIdentifier));

    engine
}

} // verus!
