//! Token location tracking.
//!
//! This module contains functionality for tracking the location of a token
//! for reporting.

use vstd::prelude::*;

verus! {

/// Method of storing the location of a token
///
/// Stores the token's line and column
#[derive(PartialEq, Eq, Structural, Debug, Clone, Copy)]
pub struct Span {
    /// Line number
    pub line: usize,
    /// Column number
    pub column: usize,
}

} // verus!
