//! Validation of the contents of candidate YARA files.

pub mod encoding;
