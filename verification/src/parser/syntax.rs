//! YARA Rule Syntax
//!
//! This module defines the different syntactical aspects of a YARA rule for
//! use in AST parsing

pub mod condition;
pub mod expr;
pub mod hex;
pub mod meta;
pub mod operators;
pub mod rule;
pub mod rule_file;
pub mod strings;

pub use condition::ConditionNode;
pub use expr::ExprNode;
pub use meta::{MetaEntryNode, MetaValue};
pub use operators::{BinaryOperator, UnaryOperator};
pub use rule::RuleNode;
pub use strings::{StringModifier, StringNode};
