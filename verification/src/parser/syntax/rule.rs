//! Root syntax node representing a YARA rule.

use vstd::prelude::*;

use crate::parser::syntax::{
    condition::ConditionNode,
    expr::ExprView,
    meta::{MetaEntryNode, MetaEntryView},
    strings::{StringNode, StringNodeView},
};

verus! {

/// Root syntax node representing a parsed YARA rule.
///
/// A rule consists of a name, optional modifiers, optional tags,
/// metadata entries, string definitions, and a condition block.
#[derive(Debug)]
pub struct RuleNode {
    /// Name of the rule, e.g. `MAL_SALATSTEALER_RAT_AUG25`.
    pub name: String,
    /// Indicates whether the rule is declared as `global`.
    pub is_global: bool,
    /// Indicates whether the rule is declared as `private`.
    pub is_private: bool,
    /// Tags associated with the rule, e.g. `["malware", "windows"]` for
    /// `rule ExampleRule : malware windows { ... }`.
    pub tags: Vec<String>,
    /// Metadata entries contained within the rule's `meta` section.
    pub meta: Vec<MetaEntryNode>,
    /// String definitions contained within the rule's `strings` section.
    pub strings: Vec<StringNode>,
    /// Condition block for the rule.
    pub condition: ConditionNode,
}

/// The mathematical value of a [`RuleNode`].
pub struct RuleView {
    pub name: Seq<char>,
    pub is_global: bool,
    pub is_private: bool,
    pub tags: Seq<Seq<char>>,
    pub meta: Seq<MetaEntryView>,
    pub strings: Seq<StringNodeView>,
    pub condition: ExprView,
}

impl View for RuleNode {
    type V = RuleView;

    open spec fn view(&self) -> RuleView {
        RuleView {
            name: self.name@,
            is_global: self.is_global,
            is_private: self.is_private,
            tags: self.tags@.map_values(|t: String| t@),
            meta: self.meta@.map_values(|m: MetaEntryNode| m@),
            strings: self.strings@.map_values(|s: StringNode| s@),
            condition: self.condition.expression@,
        }
    }
}

} // verus!
