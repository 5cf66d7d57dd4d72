//! Cops that check the logic of conditions.

pub mod constant_condition;
