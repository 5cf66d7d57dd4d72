//! YARlint is a YARA rule linter focused on identifying malformed,
//! unsafe, or non-standard rule files before deployment.
//!
//! The library is organized into the following components:
//!
//! - `text` - character classes and string building blocks shared by the
//!   lexer, the parsers and the cops
//! - `parser` - YARA rule parsing
//! - `linter` - the lint engine and its cops
//! - `filesystem` - file filtering
//! - `validation` - checks of file contents
//! - `cli` - command-line argument definitions
//! - `config` - project-wide configuration values

pub mod cli;
pub mod config;
pub mod filesystem;
pub mod linter;
pub mod parser;
pub mod text;
pub mod validation;
