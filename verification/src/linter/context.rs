//! Lint execution context.

use vstd::prelude::*;

use crate::parser::syntax::rule_file::RuleFileNode;

verus! {

/// Context passed to lint cops.
pub struct LintContext<'a> {
    /// Parsed YARA file.
    pub file: &'a RuleFileNode,
}

} // verus!
