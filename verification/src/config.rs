//! Provides configuration values for the entire project

use vstd::prelude::*;

use crate::linter::cops::style::rule_name_case::NameCase;

verus! {

/// Returns the configured rule name casing convention: PascalCase, until
/// a configuration file format exists.
pub fn rule_name_case() -> (r: NameCase)
    ensures
        r == NameCase::PascalCase,
{
    NameCase::PascalCase
}

} // verus!
