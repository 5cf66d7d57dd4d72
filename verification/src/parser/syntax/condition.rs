//! Condition block representation.

use vstd::prelude::*;

use crate::parser::syntax::expr::ExprNode;

verus! {

/// Node representing a YARA rule's `condition` section.
///
/// The condition section contains a single root expression that determines
/// whether the rule matches.
#[derive(Debug)]
pub struct ConditionNode {
    /// Root expression of the condition block.
    pub expression: ExprNode,
}

} // verus!
