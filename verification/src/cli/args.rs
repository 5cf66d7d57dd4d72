//! Command-line argument definitions.
//!
//! This module defines the values that configure a run of YARlint: what to
//! scan, how deep to go, and which cops to run.

use vstd::prelude::*;

use crate::linter::cops::selector::CopSelector;

verus! {

/// Command-line arguments accepted by YARlint.
///
/// These arguments control file discovery and traversal behavior
/// before validation and parsing begin.
#[derive(Debug)]
pub struct Args {
    /// File or directory path to scan.
    pub path: String,
    /// Recursively traverse subdirectories when scanning a directory.
    pub recursive: bool,
    /// Maximum traversal depth when recursive scanning is enabled.
    ///
    /// Ignored unless `recursive` is set.
    pub depth: Option<usize>,
    /// Enables verbose output
    pub verbose: bool,
    /// Restrict linting to only the given categories or cops.
    pub only: Vec<CopSelector>,
    /// Exclude the given categories or cops from linting.
    ///
    /// Naming the same specific cop in both `only` and `except` is an
    /// error, not a silent tie-break.
    pub except: Vec<CopSelector>,
}

} // verus!
