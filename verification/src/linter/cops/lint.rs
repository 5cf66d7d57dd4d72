//! Cops that catch likely mistakes.

pub mod duplicate_meta;
pub mod duplicate_string;
pub mod empty_string;
pub mod empty_string_block;
pub mod empty_strings_block;
