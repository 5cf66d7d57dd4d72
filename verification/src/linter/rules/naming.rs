//! Rules on how rules and their metadata are named.

pub mod descriptive_meta;
pub mod rule_name_length;
