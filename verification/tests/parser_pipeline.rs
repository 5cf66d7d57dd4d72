//! Tests of parsing whole rules and rule files from token streams.

use yarlint::parser::ast_parser::condition::{parse_condition, parse_expr};
use yarlint::parser::ast_parser::hex::HexAstParser;
use yarlint::parser::ast_parser::meta::parse_meta;
use yarlint::parser::token::{HexToken, HexTokenType};
use yarlint::validation::encoding::validate_encoding;
use yarlint::parser::ast_parser::{AstParser, parse_rule};
use yarlint::parser::span::Span;
use yarlint::parser::syntax::hex::HexAtom;
use yarlint::parser::syntax::strings::StringType;
use yarlint::parser::syntax::{BinaryOperator, ExprNode, MetaValue, StringModifier};
use yarlint::parser::token::{Token, TokenType};
use yarlint::parser::yara_rule::YaraRule;
use yarlint::parser::{parse_file, parse_files, parse_files_with_tokens, parse_hex_string};

fn tok(token_type: TokenType) -> Token {
    Token { token_type, span: Span { line: 1, column: 1 } }
}

fn kw(s: &str) -> Token {
    tok(TokenType::Keyword(s.to_string()))
}

fn ident(s: &str) -> Token {
    tok(TokenType::Identifier(s.to_string()))
}

/// rule Demo { meta: author = "me" strings: $a = "x" wide condition: $a or filesize < 10 }
fn demo_rule() -> Vec<Token> {
    vec![
        kw("rule"),
        ident("Demo"),
        tok(TokenType::LBrace),
        kw("meta"),
        tok(TokenType::Colon),
        ident("author"),
        tok(TokenType::Equals),
        tok(TokenType::StringLiteral("me".to_string())),
        kw("strings"),
        tok(TokenType::Colon),
        tok(TokenType::StringIdentifier("$a".to_string())),
        tok(TokenType::Equals),
        tok(TokenType::StringLiteral("x".to_string())),
        kw("wide"),
        kw("condition"),
        tok(TokenType::Colon),
        tok(TokenType::StringIdentifier("$a".to_string())),
        kw("or"),
        ident("filesize"),
        tok(TokenType::LThan),
        tok(TokenType::Number("10".to_string())),
        tok(TokenType::RBrace),
    ]
}

#[test]
fn parse_rule_builds_every_section() {
    let rule = parse_rule(demo_rule()).unwrap();
    assert_eq!(rule.name, "Demo");
    assert_eq!(rule.meta.len(), 1);
    assert!(matches!(&rule.meta[0].value, MetaValue::String(s) if s == "me"));
    assert_eq!(rule.strings.len(), 1);
    assert_eq!(rule.strings[0].value, StringType::Text("x".to_string()));
    assert_eq!(rule.strings[0].modifiers, vec![StringModifier::Wide]);
    assert!(matches!(
        rule.condition.expression,
        ExprNode::Binary { operator: BinaryOperator::Or, .. }
    ));
}

#[test]
fn parse_rule_without_condition_has_empty_identifier_condition() {
    let tokens = vec![kw("rule"), ident("Bare"), tok(TokenType::LBrace), tok(TokenType::RBrace)];
    let rule = parse_rule(tokens).unwrap();
    assert!(matches!(rule.condition.expression, ExprNode::Identifier(ref s) if s.is_empty()));
}

#[test]
fn parse_rule_reports_missing_brace() {
    let tokens = vec![kw("rule"), ident("Bare"), tok(TokenType::Colon)];
    assert_eq!(parse_rule(tokens).unwrap_err(), "Expected LBrace, found Colon");
}

#[test]
fn parse_meta_error_renders_the_found_token() {
    let tokens = vec![
        ident("author"),
        tok(TokenType::StringLiteral("DeTraced \"Security\"".to_string())),
        kw("strings"),
    ];
    let mut parser = AstParser::new(tokens);
    assert_eq!(
        parse_meta(&mut parser).unwrap_err(),
        "Expected Equals, found StringLiteral(\"DeTraced \\\"Security\\\"\")"
    );
}

#[test]
fn parse_file_keeps_imports_rules_and_tokens() {
    let mut tokens = vec![kw("import"), tok(TokenType::StringLiteral("pe".to_string()))];
    tokens.extend(demo_rule());
    tokens.extend(demo_rule());
    let count = tokens.len();
    let (file, kept) = parse_file(tokens).unwrap().unwrap();
    assert_eq!(file.imports, vec!["pe".to_string()]);
    assert_eq!(file.rules.len(), 2);
    assert_eq!(kept.len(), count);
    assert!(parse_file(Vec::new()).unwrap().is_none());
}

#[test]
fn parse_files_skips_empty_files_and_stops_at_errors() {
    let files = vec![demo_rule(), Vec::new(), demo_rule()];
    let parsed = parse_files(files).unwrap();
    assert_eq!(parsed.len(), 2);

    let with_tokens = parse_files_with_tokens(vec![Vec::new(), demo_rule()]).unwrap();
    assert_eq!(with_tokens.len(), 1);
    assert_eq!(with_tokens[0].0.rules[0].name, "Demo");
    assert_eq!(with_tokens[0].1.len(), demo_rule().len());

    let broken = vec![demo_rule(), vec![kw("rule")], demo_rule()];
    assert!(parse_files(broken).is_err());
    assert!(parse_files_with_tokens(vec![vec![ident("x")]]).is_err());
}

#[test]
fn parse_hex_string_keeps_the_original_text() {
    let node = parse_hex_string("4D 5A [2] ( AA | BB )").unwrap();
    assert_eq!(node.original_string, "4D 5A [2] ( AA | BB )");
    assert_eq!(node.expression.atoms.len(), 4);
}

#[test]
fn parser_helpers() {
    let tokens = vec![tok(TokenType::StringIdentifier("$a".to_string())), kw("wide")];
    let mut parser = AstParser::new(tokens);
    assert!(parser.peek_string_identifier());
    parser.advance();
    assert!(!parser.peek_string_identifier());
    assert_eq!(parser.expect_any_keyword().unwrap(), "wide");
    assert_eq!(parser.expect_any_keyword().unwrap_err(), "Unexpected EOF");
}

#[test]
fn yara_rule_starts_empty() {
    let rule = YaraRule::new("R".to_string());
    assert_eq!(rule.name, "R");
    assert!(rule.path.is_empty());
    assert!(rule.meta.is_empty());
    assert!(rule.strings.is_empty());
}

#[test]
fn exact_jump_has_equal_bounds() {
    let node = parse_hex_string("AA [4] BB").unwrap();
    assert_eq!(
        node.expression.atoms,
        vec![HexAtom::Byte(0xAA), HexAtom::Jump { min: Some(4), max: Some(4) }, HexAtom::Byte(0xBB)]
    );
    let open = parse_hex_string("[2-]").unwrap();
    assert_eq!(open.expression.atoms, vec![HexAtom::Jump { min: Some(2), max: None }]);
}

#[test]
fn hex_expect_leaves_a_mismatched_token() {
    let mut p = HexAstParser::new(vec![HexToken { token_type: HexTokenType::Pipe }]);
    assert_eq!(p.expect(&HexTokenType::LBracket).unwrap_err(), "Expected LBracket, found Pipe");
    assert_eq!(p.peek(), Some(&HexToken { token_type: HexTokenType::Pipe }));
    assert!(p.expect(&HexTokenType::Pipe).is_ok());
    assert_eq!(p.peek(), None);
    let mut q = HexAstParser::new(vec![HexToken { token_type: HexTokenType::Dash }]);
    assert_eq!(q.expect_number().unwrap_err(), "Expected jump bound, found Dash");
    assert_eq!(q.peek(), None);
}

#[test]
fn expect_any_keyword_consumes_the_token_even_on_error() {
    let mut p = AstParser::new(vec![kw("rule"), ident("Foo")]);
    assert_eq!(p.expect_any_keyword().unwrap(), "rule");
    assert_eq!(p.expect_any_keyword().unwrap_err(), "Expected keyword, found Identifier(\"Foo\")");
    assert_eq!(p.expect_any_keyword().unwrap_err(), "Unexpected EOF");
}

#[test]
fn condition_parsing_equals_expression_parsing() {
    let tokens = || vec![ident("filesize"), tok(TokenType::LThan), tok(TokenType::Number("10".to_string())), kw("strings")];
    let mut p1 = AstParser::new(tokens());
    let mut p2 = AstParser::new(tokens());
    let condition = parse_condition(&mut p1).unwrap();
    let expression = parse_expr(&mut p2).unwrap();
    assert_eq!(format!("{:?}", condition.expression), format!("{:?}", expression));
    assert!(p1.peek_keyword("strings"));
    assert!(p2.peek_keyword("strings"));
}

#[test]
fn validate_encoding_accepts_only_well_formed_utf8() {
    assert!(validate_encoding("rule A { condition: true } // é ✓ 😀".as_bytes()));
    assert!(validate_encoding(b""));
    assert!(!validate_encoding(&[0xC0, 0x80]));
    assert!(!validate_encoding(&[0xED, 0xA0, 0x80]));
    assert!(!validate_encoding(&[0xF4, 0x90, 0x80, 0x80]));
    assert!(!validate_encoding(&[0xE2, 0x82]));
    assert!(!validate_encoding(&[0x80]));
    assert!(!validate_encoding(&[0xFF]));
}

#[test]
fn condition_and_expression_stop_at_the_same_token_on_errors() {
    // all of rule: the pattern's `(` is missing; nothing after `of` is consumed.
    let tokens = || vec![kw("all"), kw("of"), kw("rule")];
    let mut p1 = AstParser::new(tokens());
    let mut p2 = AstParser::new(tokens());
    let e1 = parse_condition(&mut p1).unwrap_err();
    let e2 = parse_expr(&mut p2).unwrap_err();
    assert_eq!(e1, e2);
    assert_eq!(e1, "Expected LParen, found Keyword(\"rule\")");
    assert!(p1.peek_keyword("rule"));
    assert!(p2.peek_keyword("rule"));

    // pe . 5: the function name is missing; the number is consumed.
    let mut p3 = AstParser::new(vec![ident("pe"), tok(TokenType::Dot), tok(TokenType::Number("5".to_string())), kw("and")]);
    assert!(parse_expr(&mut p3).is_err());
    assert!(p3.peek_keyword("and"));
}
