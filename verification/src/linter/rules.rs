//! Lint rules that name themselves with their category.

pub mod lint;
pub mod naming;
pub mod style;
