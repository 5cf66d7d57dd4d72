//! Root node representing a YARA File.

use vstd::prelude::*;

use crate::parser::syntax::rule::{RuleNode, RuleView};

verus! {

/// Root node representing a YARA file.
///
/// A rule file consists of imports, and rules.
#[derive(Debug)]
pub struct RuleFileNode {
    /// Imports of the file
    pub imports: Vec<String>,
    /// YARA rules in the rule file.
    pub rules: Vec<RuleNode>,
}

/// The mathematical value of a [`RuleFileNode`].
pub struct RuleFileView {
    pub imports: Seq<Seq<char>>,
    pub rules: Seq<RuleView>,
}

impl View for RuleFileNode {
    type V = RuleFileView;

    open spec fn view(&self) -> RuleFileView {
        RuleFileView {
            imports: self.imports@.map_values(|t: String| t@),
            rules: self.rules@.map_values(|r: RuleNode| r@),
        }
    }
}

} // verus!
