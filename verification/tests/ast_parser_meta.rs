//! Tests of the meta section parser.
//!
//! The token streams are those the YARA lexer gives for the meta text of
//! each test followed by `strings:`.

use yarlint::parser::ast_parser::AstParser;
use yarlint::parser::ast_parser::meta::parse_meta;
use yarlint::parser::span::Span;
use yarlint::parser::syntax::MetaValue;
use yarlint::parser::token::{Token, TokenType};

fn tok(token_type: TokenType) -> Token {
    Token { token_type, span: Span { line: 1, column: 1 } }
}

fn ident(s: &str) -> Token {
    tok(TokenType::Identifier(s.to_string()))
}

fn keyword(s: &str) -> Token {
    tok(TokenType::Keyword(s.to_string()))
}

fn string_literal(s: &str) -> Token {
    tok(TokenType::StringLiteral(s.to_string()))
}

fn number(s: &str) -> Token {
    tok(TokenType::Number(s.to_string()))
}

fn make_parser_for_meta(mut tokens: Vec<Token>) -> AstParser {
    // wrap in a fake rule context so the meta parser has a "strings" keyword to stop at
    tokens.push(keyword("strings"));
    tokens.push(tok(TokenType::Colon));
    AstParser::new(tokens)
}

// --- happy path ---

#[test]
fn parse_meta_returns_empty_vec_when_no_entries() {
    let mut parser = make_parser_for_meta(vec![]);

    let result = parse_meta(&mut parser).unwrap();

    assert!(result.is_empty());
}

#[test]
fn parse_meta_parses_string_value() {
    // author = "DeTraced Security"
    let mut parser = make_parser_for_meta(vec![
        ident("author"),
        tok(TokenType::Equals),
        string_literal("DeTraced Security"),
    ]);

    let result = parse_meta(&mut parser).unwrap();

    assert_eq!(result.len(), 1);
    assert_eq!(result[0].key, "author");
    assert!(matches!(&result[0].value, MetaValue::String(s) if s == "DeTraced Security"));
}

#[test]
fn parse_meta_parses_number_value() {
    // version = 1
    let mut parser =
        make_parser_for_meta(vec![ident("version"), tok(TokenType::Equals), number("1")]);

    let result = parse_meta(&mut parser).unwrap();

    assert_eq!(result.len(), 1);
    assert_eq!(result[0].key, "version");
    assert!(matches!(&result[0].value, MetaValue::Number(n) if n == "1"));
}

#[test]
fn parse_meta_parses_true_boolean_value() {
    // is_test = true
    let mut parser =
        make_parser_for_meta(vec![ident("is_test"), tok(TokenType::Equals), keyword("true")]);

    let result = parse_meta(&mut parser).unwrap();

    assert_eq!(result.len(), 1);
    assert_eq!(result[0].key, "is_test");
    assert!(matches!(&result[0].value, MetaValue::Boolean(true)));
}

#[test]
fn parse_meta_parses_false_boolean_value() {
    // is_test = false
    let mut parser =
        make_parser_for_meta(vec![ident("is_test"), tok(TokenType::Equals), keyword("false")]);

    let result = parse_meta(&mut parser).unwrap();

    assert_eq!(result.len(), 1);
    assert!(matches!(&result[0].value, MetaValue::Boolean(false)));
}

#[test]
fn parse_meta_parses_multiple_entries() {
    // author = "DeTraced Security" version = 1 is_test = true
    let mut parser = make_parser_for_meta(vec![
        ident("author"),
        tok(TokenType::Equals),
        string_literal("DeTraced Security"),
        ident("version"),
        tok(TokenType::Equals),
        number("1"),
        ident("is_test"),
        tok(TokenType::Equals),
        keyword("true"),
    ]);

    let result = parse_meta(&mut parser).unwrap();

    assert_eq!(result.len(), 3);
    assert_eq!(result[0].key, "author");
    assert_eq!(result[1].key, "version");
    assert_eq!(result[2].key, "is_test");
}

#[test]
fn parse_meta_stops_at_strings_keyword() {
    // author = "DeTraced Security"
    let mut parser = make_parser_for_meta(vec![
        ident("author"),
        tok(TokenType::Equals),
        string_literal("DeTraced Security"),
    ]);

    let result = parse_meta(&mut parser).unwrap();

    // should not consume the "strings" keyword — it belongs to the parent parser
    assert_eq!(result.len(), 1);
}

// --- error cases ---

#[test]
fn parse_meta_returns_err_on_missing_equals() {
    // author "DeTraced Security"
    let mut parser =
        make_parser_for_meta(vec![ident("author"), string_literal("DeTraced Security")]);

    assert!(parse_meta(&mut parser).is_err());
}

#[test]
fn parse_meta_returns_err_on_invalid_key() {
    // "author" = "DeTraced Security": key must be an identifier, not a string literal
    let mut parser = make_parser_for_meta(vec![
        string_literal("author"),
        tok(TokenType::Equals),
        string_literal("DeTraced Security"),
    ]);

    assert!(parse_meta(&mut parser).is_err());
}

#[test]
fn parse_meta_returns_err_on_unsupported_value_type() {
    // author = {: LBrace is not a valid meta value
    let mut parser =
        make_parser_for_meta(vec![ident("author"), tok(TokenType::Equals), tok(TokenType::LBrace)]);

    assert!(parse_meta(&mut parser).is_err());
}

#[test]
fn parse_meta_returns_err_on_non_boolean_keyword_value() {
    // author = rule: "rule" is a keyword but not a valid meta value
    let mut parser =
        make_parser_for_meta(vec![ident("author"), tok(TokenType::Equals), keyword("rule")]);

    assert!(parse_meta(&mut parser).is_err());
}
