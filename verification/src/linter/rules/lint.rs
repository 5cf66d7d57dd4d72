//! Rules that catch likely mistakes.

pub mod duplicate_meta;
