//! Tests of the strings section parser.
//!
//! The token streams are those the YARA lexer gives for the strings text of
//! each test followed by `condition`.

use yarlint::parser::ast_parser::AstParser;
use yarlint::parser::ast_parser::strings::parse_strings;
use yarlint::parser::span::Span;
use yarlint::parser::syntax::StringModifier;
use yarlint::parser::syntax::strings::StringType;
use yarlint::parser::token::{Token, TokenType};

fn tok(token_type: TokenType) -> Token {
    Token { token_type, span: Span { line: 1, column: 1 } }
}

fn ident(s: &str) -> Token {
    tok(TokenType::Identifier(s.to_string()))
}

fn string_identifier(s: &str) -> Token {
    tok(TokenType::StringIdentifier(s.to_string()))
}

fn keyword(s: &str) -> Token {
    tok(TokenType::Keyword(s.to_string()))
}

fn string_literal(s: &str) -> Token {
    tok(TokenType::StringLiteral(s.to_string()))
}

fn number(s: &str) -> Token {
    tok(TokenType::Number(s.to_string()))
}

fn make_parser_for_strings(mut tokens: Vec<Token>) -> AstParser {
    // wrap with a "condition" keyword so the strings parser has a stop token
    tokens.push(keyword("condition"));
    AstParser::new(tokens)
}

// --- happy path ---

#[test]
fn parse_strings_returns_empty_vec_when_no_entries() {
    let mut parser = make_parser_for_strings(vec![]);

    let result = parse_strings(&mut parser).unwrap();

    assert!(result.is_empty());
}

#[test]
fn parse_strings_parses_single_string() {
    // $s1 = "cmd.exe"
    let mut parser = make_parser_for_strings(vec![string_identifier("$s1"), tok(TokenType::Equals), string_literal("cmd.exe")]);

    let result = parse_strings(&mut parser).unwrap();

    assert_eq!(result.len(), 1);
    assert_eq!(result[0].identifier, "$s1");
    assert_eq!(result[0].value, StringType::Text("cmd.exe".to_string()));
}

#[test]
fn parse_strings_parses_multiple_strings() {
    // $s1 = "cmd.exe" $s2 = "powershell"
    let mut parser = make_parser_for_strings(vec![string_identifier("$s1"), tok(TokenType::Equals), string_literal("cmd.exe"), string_identifier("$s2"), tok(TokenType::Equals), string_literal("powershell")]);

    let result = parse_strings(&mut parser).unwrap();

    assert_eq!(result.len(), 2);
    assert_eq!(result[0].identifier, "$s1");
    assert_eq!(result[1].identifier, "$s2");
}

#[test]
fn parse_strings_parses_empty_string_value() {
    // $s1 = ""
    let mut parser = make_parser_for_strings(vec![string_identifier("$s1"), tok(TokenType::Equals), string_literal("")]);

    let result = parse_strings(&mut parser).unwrap();

    assert_eq!(result[0].value, StringType::Text(String::new()));
}

#[test]
fn parse_strings_stops_at_condition_keyword() {
    // $s1 = "foo"
    let mut parser = make_parser_for_strings(vec![string_identifier("$s1"), tok(TokenType::Equals), string_literal("foo")]);

    let result = parse_strings(&mut parser).unwrap();

    // should not consume the "condition" keyword
    assert_eq!(result.len(), 1);
}

// --- modifiers ---

#[test]
fn parse_strings_parses_wide_modifier() {
    // $s1 = "foo" wide
    let mut parser = make_parser_for_strings(vec![string_identifier("$s1"), tok(TokenType::Equals), string_literal("foo"), keyword("wide")]);

    let result = parse_strings(&mut parser).unwrap();

    assert!(result[0].modifiers.contains(&StringModifier::Wide));
}

#[test]
fn parse_strings_parses_ascii_modifier() {
    // $s1 = "foo" ascii
    let mut parser = make_parser_for_strings(vec![string_identifier("$s1"), tok(TokenType::Equals), string_literal("foo"), keyword("ascii")]);

    let result = parse_strings(&mut parser).unwrap();

    assert!(result[0].modifiers.contains(&StringModifier::Ascii));
}

#[test]
fn parse_strings_parses_fullword_modifier() {
    // $s1 = "foo" fullword
    let mut parser = make_parser_for_strings(vec![string_identifier("$s1"), tok(TokenType::Equals), string_literal("foo"), keyword("fullword")]);

    let result = parse_strings(&mut parser).unwrap();

    assert!(result[0].modifiers.contains(&StringModifier::Fullword));
}

#[test]
fn parse_strings_parses_nocase_modifier() {
    // $s1 = "foo" nocase
    let mut parser = make_parser_for_strings(vec![string_identifier("$s1"), tok(TokenType::Equals), string_literal("foo"), keyword("nocase")]);

    let result = parse_strings(&mut parser).unwrap();

    assert!(result[0].modifiers.contains(&StringModifier::Nocase));
}

#[test]
fn parse_strings_parses_xor_modifier() {
    // $s1 = "foo" xor
    let mut parser = make_parser_for_strings(vec![string_identifier("$s1"), tok(TokenType::Equals), string_literal("foo"), keyword("xor")]);

    let result = parse_strings(&mut parser).unwrap();

    assert!(result[0].modifiers.contains(&StringModifier::Xor));
}

#[test]
fn parse_strings_parses_base64_modifier() {
    // $s1 = "foo" base64
    let mut parser = make_parser_for_strings(vec![string_identifier("$s1"), tok(TokenType::Equals), string_literal("foo"), keyword("base64")]);

    let result = parse_strings(&mut parser).unwrap();

    assert!(result[0].modifiers.contains(&StringModifier::Base64));
}

#[test]
fn parse_strings_parses_base64wide_modifier() {
    // $s1 = "foo" base64wide
    let mut parser = make_parser_for_strings(vec![string_identifier("$s1"), tok(TokenType::Equals), string_literal("foo"), keyword("base64wide")]);

    let result = parse_strings(&mut parser).unwrap();

    assert!(result[0].modifiers.contains(&StringModifier::Base64Wide));
}

#[test]
fn parse_strings_parses_multiple_modifiers() {
    // $s1 = "foo" wide ascii nocase
    let mut parser = make_parser_for_strings(vec![string_identifier("$s1"), tok(TokenType::Equals), string_literal("foo"), keyword("wide"), keyword("ascii"), keyword("nocase")]);

    let result = parse_strings(&mut parser).unwrap();

    assert!(result[0].modifiers.contains(&StringModifier::Wide));
    assert!(result[0].modifiers.contains(&StringModifier::Ascii));
    assert!(result[0].modifiers.contains(&StringModifier::Nocase));
}

#[test]
fn parse_strings_string_with_no_modifiers_has_empty_modifiers() {
    // $s1 = "foo"
    let mut parser = make_parser_for_strings(vec![string_identifier("$s1"), tok(TokenType::Equals), string_literal("foo")]);

    let result = parse_strings(&mut parser).unwrap();

    assert!(result[0].modifiers.is_empty());
}

#[test]
fn parse_strings_modifiers_do_not_bleed_across_strings() {
    // $s1 = "foo" wide $s2 = "bar"
    let mut parser = make_parser_for_strings(vec![string_identifier("$s1"), tok(TokenType::Equals), string_literal("foo"), keyword("wide"), string_identifier("$s2"), tok(TokenType::Equals), string_literal("bar")]);

    let result = parse_strings(&mut parser).unwrap();

    assert!(result[0].modifiers.contains(&StringModifier::Wide));
    assert!(result[1].modifiers.is_empty());
}

// --- error cases ---

#[test]
fn parse_strings_returns_err_on_missing_equals() {
    // $s1 "foo"
    let mut parser = make_parser_for_strings(vec![string_identifier("$s1"), string_literal("foo")]);

    assert!(parse_strings(&mut parser).is_err());
}

#[test]
fn parse_strings_returns_err_on_missing_string_value() {
    // $s1 =
    let mut parser = make_parser_for_strings(vec![string_identifier("$s1"), tok(TokenType::Equals)]);

    assert!(parse_strings(&mut parser).is_err());
}

#[test]
fn parse_strings_returns_err_on_non_string_identifier() {
    // plain identifier instead of $ prefixed one
    // s1 = "foo"
    let mut parser = make_parser_for_strings(vec![ident("s1"), tok(TokenType::Equals), string_literal("foo")]);

    assert!(parse_strings(&mut parser).is_err());
}

#[test]
fn parse_strings_returns_err_when_value_is_not_string_literal() {
    // number instead of string literal
    // $s1 = 42
    let mut parser = make_parser_for_strings(vec![string_identifier("$s1"), tok(TokenType::Equals), number("42")]);

    assert!(parse_strings(&mut parser).is_err());
}
