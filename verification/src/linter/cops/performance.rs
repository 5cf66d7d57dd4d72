//! Cops that keep rules cheap to scan with.

pub mod filesize;
pub mod wide_string_without_ascii;
