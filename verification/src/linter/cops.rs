//! The built-in cops, one folder per category.

pub mod lint;
pub mod logic;
pub mod naming;
pub mod performance;
pub mod selector;
pub mod style;
