//! Cops that check how rules are named.

pub mod rule_name;
