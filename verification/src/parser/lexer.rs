//! Lexing of the contents of YARA hex strings into tokens for the hex AST
//! parser.

pub mod hex;
