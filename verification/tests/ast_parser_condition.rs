//! Tests of the condition expression parser.
//!
//! `lex` gives, for the small condition texts of these tests, the tokens
//! that the YARA lexer gives for them.

use yarlint::parser::ast_parser::AstParser;
use yarlint::parser::ast_parser::condition::{parse_condition, parse_expr};
use yarlint::parser::span::Span;
use yarlint::parser::syntax::{BinaryOperator, ExprNode};
use yarlint::parser::token::{Token, TokenType};

const KEYWORDS: &[&str] = &[
    "all", "and", "any", "ascii", "at", "base64", "base64wide", "condition", "contains",
    "defined", "endswith", "false", "fullword", "global", "icontains", "iendswith", "iequals",
    "import", "in", "istartswith", "matches", "meta", "nocase", "none", "not", "of", "or",
    "private", "rule", "startswith", "strings", "them", "true", "wide", "xor",
];

fn lex(source: &str) -> Vec<Token> {
    let chars: Vec<char> = source.chars().collect();
    let mut tokens = Vec::new();
    let mut i = 0;
    while i < chars.len() {
        let c = chars[i];
        let column = i + 1;
        let push = |tokens: &mut Vec<Token>, token_type: TokenType| {
            tokens.push(Token { token_type, span: Span { line: 1, column } });
        };
        if c.is_whitespace() {
            i += 1;
        } else if c == '"' {
            let start = i + 1;
            i = start;
            while chars[i] != '"' {
                i += 1;
            }
            push(&mut tokens, TokenType::StringLiteral(chars[start..i].iter().collect()));
            i += 1;
        } else if c == '$' || c.is_ascii_alphabetic() || c == '_' {
            let start = i;
            i += 1;
            while i < chars.len() && (chars[i].is_ascii_alphanumeric() || chars[i] == '_') {
                i += 1;
            }
            let word: String = chars[start..i].iter().collect();
            let token_type = if c == '$' {
                TokenType::StringIdentifier(word)
            } else if KEYWORDS.contains(&word.as_str()) {
                TokenType::Keyword(word)
            } else {
                TokenType::Identifier(word)
            };
            push(&mut tokens, token_type);
        } else if c.is_ascii_digit() {
            let start = i;
            while i < chars.len() && chars[i].is_ascii_alphanumeric() {
                i += 1;
            }
            push(&mut tokens, TokenType::Number(chars[start..i].iter().collect()));
        } else {
            let next = chars.get(i + 1).copied();
            let (token_type, width) = match (c, next) {
                ('=', Some('=')) => (TokenType::EqualsEquals, 2),
                ('!', Some('=')) => (TokenType::NotEquals, 2),
                ('<', Some('=')) => (TokenType::LEThan, 2),
                ('>', Some('=')) => (TokenType::GEThan, 2),
                ('<', _) => (TokenType::LThan, 1),
                ('>', _) => (TokenType::GThan, 1),
                ('=', _) => (TokenType::Equals, 1),
                ('(', _) => (TokenType::LParen, 1),
                (')', _) => (TokenType::RParen, 1),
                ('{', _) => (TokenType::LBrace, 1),
                ('}', _) => (TokenType::RBrace, 1),
                (',', _) => (TokenType::Comma, 1),
                ('.', _) => (TokenType::Dot, 1),
                ('*', _) => (TokenType::Star, 1),
                (':', _) => (TokenType::Colon, 1),
                _ => (TokenType::Unknown(c), 1),
            };
            push(&mut tokens, token_type);
            i += width;
        }
    }
    tokens
}

fn parse_expr_from(source: &str) -> Result<ExprNode, String> {
    let tokens = lex(source);
    let mut parser = AstParser::new(tokens);
    parse_expr(&mut parser)
}

// --- parse_condition ---

#[test]
fn parse_condition_returns_err_on_empty_input() {
    let tokens = vec![];
    let mut parser = AstParser::new(tokens);

    assert!(parse_condition(&mut parser).is_err());
}

// --- parse_expr / parse_or ---

#[test]
fn parse_expr_parses_single_identifier() {
    let result = parse_expr_from("filesize").unwrap();

    assert!(matches!(result, ExprNode::Identifier(s) if s == "filesize"));
}

#[test]
fn parse_expr_parses_or_expression() {
    let result = parse_expr_from("$a or $b").unwrap();

    assert!(matches!(
        result,
        ExprNode::Binary {
            operator: BinaryOperator::Or,
            ..
        }
    ));
}

#[test]
fn parse_expr_parses_chained_or_expressions() {
    // $a or $b or $c should produce a left-associative tree
    let result = parse_expr_from("$a or $b or $c").unwrap();

    assert!(matches!(
        result,
        ExprNode::Binary {
            operator: BinaryOperator::Or,
            ..
        }
    ));
}

// --- parse_and ---

#[test]
fn parse_expr_parses_and_expression() {
    let result = parse_expr_from("$a and $b").unwrap();

    assert!(matches!(
        result,
        ExprNode::Binary {
            operator: BinaryOperator::And,
            ..
        }
    ));
}

#[test]
fn and_has_higher_precedence_than_or() {
    let result = parse_expr_from("$a or $b and $c").unwrap();

    let ExprNode::Binary {
        operator, right, ..
    } = result
    else {
        // do not worry about llvm-cov
        panic!("expected binary expression");
    };

    assert_eq!(operator, BinaryOperator::Or);
    assert!(matches!(
        *right,
        ExprNode::Binary {
            operator: BinaryOperator::And,
            ..
        }
    ));
}

// --- parse_comparison ---

#[test]
fn parse_expr_parses_equals_equals() {
    let result = parse_expr_from("filesize == 100").unwrap();

    assert!(matches!(
        result,
        ExprNode::Binary {
            operator: BinaryOperator::Equals,
            ..
        }
    ));
}

#[test]
fn parse_expr_parses_less_than() {
    let result = parse_expr_from("filesize < 100").unwrap();

    assert!(matches!(
        result,
        ExprNode::Binary {
            operator: BinaryOperator::LessThan,
            ..
        }
    ));
}

#[test]
fn parse_expr_parses_greater_than() {
    let result = parse_expr_from("filesize > 100").unwrap();

    assert!(matches!(
        result,
        ExprNode::Binary {
            operator: BinaryOperator::GreaterThan,
            ..
        }
    ));
}

#[test]
fn parse_expr_parses_less_than_or_equal() {
    let result = parse_expr_from("filesize <= 100").unwrap();

    assert!(matches!(
        result,
        ExprNode::Binary {
            operator: BinaryOperator::LessThanEqual,
            ..
        }
    ));
}

#[test]
fn parse_expr_parses_greater_than_or_equal() {
    let result = parse_expr_from("filesize >= 100").unwrap();

    assert!(matches!(
        result,
        ExprNode::Binary {
            operator: BinaryOperator::GreaterThanEqual,
            ..
        }
    ));
}

// --- parse_primary: numbers ---

#[test]
fn parse_primary_parses_number_literal() {
    let result = parse_expr_from("42").unwrap();

    assert!(matches!(result, ExprNode::Number(n) if n == "42"));
}

#[test]
fn parse_primary_parses_number_of_them() {
    let result = parse_expr_from("2 of them").unwrap();

    assert!(matches!(
        result,
        ExprNode::Of {
            pattern,
            ..
        } if pattern == "them"
    ));
}

#[test]
fn parse_primary_parses_number_of_pattern() {
    let result = parse_expr_from("2 of ($s*)").unwrap();

    assert!(matches!(
        result,
        ExprNode::Of { pattern, .. } if pattern == "$s"
    ));
}

// --- parse_primary: string literals ---

#[test]
fn parse_primary_parses_string_literal() {
    let result = parse_expr_from(r#""cmd.exe""#).unwrap();

    assert!(matches!(result, ExprNode::StringLiteral(s) if s == "cmd.exe"));
}

// --- parse_primary: string identifiers ---

#[test]
fn parse_primary_parses_string_identifier() {
    let result = parse_expr_from("$foo").unwrap();

    assert!(matches!(result, ExprNode::Identifier(s) if s == "$foo"));
}

// --- parse_primary: identifiers and function calls ---

#[test]
fn parse_primary_parses_plain_identifier() {
    let result = parse_expr_from("filesize").unwrap();

    assert!(matches!(result, ExprNode::Identifier(s) if s == "filesize"));
}

#[test]
fn parse_primary_parses_function_call_with_no_args() {
    let result = parse_expr_from("myfunc()").unwrap();

    assert!(matches!(
        result,
        ExprNode::FunctionCall { name, arguments } if name == "myfunc" && arguments.is_empty()
    ));
}

#[test]
fn parse_primary_parses_function_call_with_one_arg() {
    let result = parse_expr_from("uint16(0)").unwrap();

    assert!(matches!(
        result,
        ExprNode::FunctionCall { name, arguments } if name == "uint16" && arguments.len() == 1
    ));
}

#[test]
fn parse_primary_parses_module_function_call() {
    let result = parse_expr_from("pe.imphash()").unwrap();

    assert!(matches!(
        result,
        ExprNode::ModuleFunction { module, function, arguments }
            if module == "pe" && function == "imphash" && arguments.is_empty()
    ));
}

#[test]
fn parse_primary_parses_module_function_call_with_args() {
    let result = parse_expr_from("pe.exports(\"WinMain\")").unwrap();

    assert!(matches!(
        result,
        ExprNode::ModuleFunction { module, function, arguments }
            if module == "pe" && function == "exports" && arguments.len() == 1
    ));
}

#[test]
fn parse_primary_parses_function_call_with_multiple_args() {
    let result = parse_expr_from("myfunc(1, 2)").unwrap();
    assert!(matches!(
        result,
        ExprNode::FunctionCall { arguments, .. } if arguments.len() == 2
    ));
}

#[test]
fn parse_primary_parses_module_function_with_multiple_args() {
    let result = parse_expr_from("pe.func(1, 2)").unwrap();
    assert!(matches!(
        result,
        ExprNode::ModuleFunction { arguments, .. } if arguments.len() == 2
    ));
}

// --- parse_primary: grouped expressions ---

#[test]
fn parse_primary_parses_parenthesized_expression() {
    let result = parse_expr_from("(filesize < 100)").unwrap();

    // grouping is transparent — returns inner expression directly
    assert!(matches!(
        result,
        ExprNode::Binary {
            operator: BinaryOperator::LessThan,
            ..
        }
    ));
}

#[test]
fn parse_primary_parses_nested_parentheses() {
    let result = parse_expr_from("((filesize < 100))").unwrap();

    assert!(matches!(
        result,
        ExprNode::Binary {
            operator: BinaryOperator::LessThan,
            ..
        }
    ));
}

// --- parse_primary: all of ---

#[test]
fn parse_primary_parses_all_of_them() {
    let result = parse_expr_from("all of them").unwrap();

    assert!(matches!(result, ExprNode::AllOfThem));
}

#[test]
fn parse_primary_parses_all_of_pattern() {
    let result = parse_expr_from("all of ($s*)").unwrap();

    assert!(matches!(result, ExprNode::AllOf { pattern } if pattern == "$s"));
}

// --- error cases ---

#[test]
fn parse_primary_returns_err_on_unexpected_token() {
    let result = parse_expr_from("}");

    assert!(result.is_err());
}

#[test]
fn parse_primary_returns_err_on_empty_input() {
    let result = parse_expr_from("");

    assert!(result.is_err());
}

#[test]
fn parse_primary_returns_err_on_unclosed_paren() {
    let result = parse_expr_from("(filesize < 100");

    assert!(result.is_err());
}
