//! Command-line argument definitions.

pub mod args;
