//! Token implementation.
//!
//! This module implements the tokens of the YARA lexer and of the lexer for
//! the contents of hex strings.

use vstd::prelude::*;

use crate::parser::span::Span;
use crate::text::{
    char_debug, decimal, owned, push_decimal, spec_char_debug, spec_str_debug, str_debug,
};

verus! {

/// A token produced by the lexer.
///
/// Stores the token's type and source location in a span.
#[derive(Debug)]
pub struct Token {
    /// The token's classification and associated value.
    pub token_type: TokenType,
    /// The token's location via line and column number
    pub span: Span,
}

/// Represents a lexical token recognized by the YARA lexer.
#[derive(Debug)]
pub enum TokenType {
    /// A standard identifier such as a rule name, metadata key,
    /// module name, or function name.
    Identifier(String),
    /// A YARA string identifier such as `$a` or `$filename`.
    StringIdentifier(String),
    /// A quoted string literal.
    StringLiteral(String),
    /// A regular expression.
    Regex(String),
    /// A String of hexadecimal bytes
    HexString(String),
    /// A reserved YARA keyword.
    Keyword(String),
    /// A numeric literal, e.g. `100`, `0x5a4d` or `100KB`.
    Number(String),
    /// Greater-than operator (`>`).
    GThan,
    /// Greater-than-or-equal operator (`>=`).
    GEThan,
    /// Less-than operator (`<`).
    LThan,
    /// Less-than-or-equal operator (`<=`).
    LEThan,
    /// Assignment operator (`=`).
    Equals,
    /// Equality operator (`==`).
    EqualsEquals,
    /// Inequality operator (`!=`).
    NotEquals,
    /// Minus operator (`-`).
    Minus,
    /// Plus operator (`+`).
    Plus,
    /// Colon separator (`:`).
    Colon,
    /// Comma separator (`,`).
    Comma,
    /// Left brace (`{`).
    LBrace,
    /// Right brace (`}`).
    RBrace,
    /// Left parenthesis (`(`).
    LParen,
    /// Right parenthesis (`)`).
    RParen,
    /// Forward slash (`/`).
    FSlash,
    /// Wildcard operator (`*`).
    Star,
    /// Member access operator (`.`).
    Dot,
    /// At symbol (`@`).
    AtSymbol,
    /// An unrecognized character encountered during lexing.
    Unknown(char),
}

/// The mathematical value of a [`TokenType`]: its variant, with every text
/// payload taken as its sequence of characters.
pub enum TokenTypeView {
    Identifier(Seq<char>),
    StringIdentifier(Seq<char>),
    StringLiteral(Seq<char>),
    Regex(Seq<char>),
    HexString(Seq<char>),
    Keyword(Seq<char>),
    Number(Seq<char>),
    GThan,
    GEThan,
    LThan,
    LEThan,
    Equals,
    EqualsEquals,
    NotEquals,
    Minus,
    Plus,
    Colon,
    Comma,
    LBrace,
    RBrace,
    LParen,
    RParen,
    FSlash,
    Star,
    Dot,
    AtSymbol,
    Unknown(char),
}

impl View for TokenType {
    type V = TokenTypeView;

    open spec fn view(&self) -> TokenTypeView {
        match self {
            TokenType::Identifier(s) => TokenTypeView::Identifier(s@),
            TokenType::StringIdentifier(s) => TokenTypeView::StringIdentifier(s@),
            TokenType::StringLiteral(s) => TokenTypeView::StringLiteral(s@),
            TokenType::Regex(s) => TokenTypeView::Regex(s@),
            TokenType::HexString(s) => TokenTypeView::HexString(s@),
            TokenType::Keyword(s) => TokenTypeView::Keyword(s@),
            TokenType::Number(s) => TokenTypeView::Number(s@),
            TokenType::GThan => TokenTypeView::GThan,
            TokenType::GEThan => TokenTypeView::GEThan,
            TokenType::LThan => TokenTypeView::LThan,
            TokenType::LEThan => TokenTypeView::LEThan,
            TokenType::Equals => TokenTypeView::Equals,
            TokenType::EqualsEquals => TokenTypeView::EqualsEquals,
            TokenType::NotEquals => TokenTypeView::NotEquals,
            TokenType::Minus => TokenTypeView::Minus,
            TokenType::Plus => TokenTypeView::Plus,
            TokenType::Colon => TokenTypeView::Colon,
            TokenType::Comma => TokenTypeView::Comma,
            TokenType::LBrace => TokenTypeView::LBrace,
            TokenType::RBrace => TokenTypeView::RBrace,
            TokenType::LParen => TokenTypeView::LParen,
            TokenType::RParen => TokenTypeView::RParen,
            TokenType::FSlash => TokenTypeView::FSlash,
            TokenType::Star => TokenTypeView::Star,
            TokenType::Dot => TokenTypeView::Dot,
            TokenType::AtSymbol => TokenTypeView::AtSymbol,
            TokenType::Unknown(c) => TokenTypeView::Unknown(*c),
        }
    }
}

/// The `Debug` rendering of a token type, e.g. `Identifier("rule_a")` or
/// `RBrace`.
pub open spec fn token_type_debug(t: TokenTypeView) -> Seq<char> {
    match t {
        TokenTypeView::Identifier(s) => "Identifier("@ + spec_str_debug(s) + ")"@,
        TokenTypeView::StringIdentifier(s) => "StringIdentifier("@ + spec_str_debug(s) + ")"@,
        TokenTypeView::StringLiteral(s) => "StringLiteral("@ + spec_str_debug(s) + ")"@,
        TokenTypeView::Regex(s) => "Regex("@ + spec_str_debug(s) + ")"@,
        TokenTypeView::HexString(s) => "HexString("@ + spec_str_debug(s) + ")"@,
        TokenTypeView::Keyword(s) => "Keyword("@ + spec_str_debug(s) + ")"@,
        TokenTypeView::Number(s) => "Number("@ + spec_str_debug(s) + ")"@,
        TokenTypeView::GThan => "GThan"@,
        TokenTypeView::GEThan => "GEThan"@,
        TokenTypeView::LThan => "LThan"@,
        TokenTypeView::LEThan => "LEThan"@,
        TokenTypeView::Equals => "Equals"@,
        TokenTypeView::EqualsEquals => "EqualsEquals"@,
        TokenTypeView::NotEquals => "NotEquals"@,
        TokenTypeView::Minus => "Minus"@,
        TokenTypeView::Plus => "Plus"@,
        TokenTypeView::Colon => "Colon"@,
        TokenTypeView::Comma => "Comma"@,
        TokenTypeView::LBrace => "LBrace"@,
        TokenTypeView::RBrace => "RBrace"@,
        TokenTypeView::LParen => "LParen"@,
        TokenTypeView::RParen => "RParen"@,
        TokenTypeView::FSlash => "FSlash"@,
        TokenTypeView::Star => "Star"@,
        TokenTypeView::Dot => "Dot"@,
        TokenTypeView::AtSymbol => "AtSymbol"@,
        TokenTypeView::Unknown(c) => "Unknown("@ + spec_char_debug(c) + ")"@,
    }
}

/// Renders `prefix` followed by `{payload:?}` and `)`.
fn debug_with_text(prefix: &str, payload: &String) -> (r: String)
    ensures
        r@ == prefix@ + spec_str_debug(payload@) + ")"@,
{
    let mut s = owned(prefix);
    let d = str_debug(payload.as_str());
    s.append(d.as_str());
    s.append(")");
    s
}

impl TokenType {
    /// Returns whether two token types are the same variant with the same
    /// payload.
    pub fn same_as(&self, other: &TokenType) -> (b: bool)
        ensures
            b == (self@ == other@),
    {
        match (self, other) {
            (TokenType::Identifier(a), TokenType::Identifier(b)) => *a == *b,
            (TokenType::StringIdentifier(a), TokenType::StringIdentifier(b)) => *a == *b,
            (TokenType::StringLiteral(a), TokenType::StringLiteral(b)) => *a == *b,
            (TokenType::Regex(a), TokenType::Regex(b)) => *a == *b,
            (TokenType::HexString(a), TokenType::HexString(b)) => *a == *b,
            (TokenType::Keyword(a), TokenType::Keyword(b)) => *a == *b,
            (TokenType::Number(a), TokenType::Number(b)) => *a == *b,
            (TokenType::GThan, TokenType::GThan) => true,
            (TokenType::GEThan, TokenType::GEThan) => true,
            (TokenType::LThan, TokenType::LThan) => true,
            (TokenType::LEThan, TokenType::LEThan) => true,
            (TokenType::Equals, TokenType::Equals) => true,
            (TokenType::EqualsEquals, TokenType::EqualsEquals) => true,
            (TokenType::NotEquals, TokenType::NotEquals) => true,
            (TokenType::Minus, TokenType::Minus) => true,
            (TokenType::Plus, TokenType::Plus) => true,
            (TokenType::Colon, TokenType::Colon) => true,
            (TokenType::Comma, TokenType::Comma) => true,
            (TokenType::LBrace, TokenType::LBrace) => true,
            (TokenType::RBrace, TokenType::RBrace) => true,
            (TokenType::LParen, TokenType::LParen) => true,
            (TokenType::RParen, TokenType::RParen) => true,
            (TokenType::FSlash, TokenType::FSlash) => true,
            (TokenType::Star, TokenType::Star) => true,
            (TokenType::Dot, TokenType::Dot) => true,
            (TokenType::AtSymbol, TokenType::AtSymbol) => true,
            (TokenType::Unknown(a), TokenType::Unknown(b)) => *a == *b,
            _ => false,
        }
    }

    /// Renders the token type as its derived `Debug` output does.
    pub fn debug_string(&self) -> (r: String)
        ensures
            r@ == token_type_debug(self@),
    {
        match self {
            TokenType::Identifier(s) => debug_with_text("Identifier(", s),
            TokenType::StringIdentifier(s) => debug_with_text("StringIdentifier(", s),
            TokenType::StringLiteral(s) => debug_with_text("StringLiteral(", s),
            TokenType::Regex(s) => debug_with_text("Regex(", s),
            TokenType::HexString(s) => debug_with_text("HexString(", s),
            TokenType::Keyword(s) => debug_with_text("Keyword(", s),
            TokenType::Number(s) => debug_with_text("Number(", s),
            TokenType::GThan => owned("GThan"),
            TokenType::GEThan => owned("GEThan"),
            TokenType::LThan => owned("LThan"),
            TokenType::LEThan => owned("LEThan"),
            TokenType::Equals => owned("Equals"),
            TokenType::EqualsEquals => owned("EqualsEquals"),
            TokenType::NotEquals => owned("NotEquals"),
            TokenType::Minus => owned("Minus"),
            TokenType::Plus => owned("Plus"),
            TokenType::Colon => owned("Colon"),
            TokenType::Comma => owned("Comma"),
            TokenType::LBrace => owned("LBrace"),
            TokenType::RBrace => owned("RBrace"),
            TokenType::LParen => owned("LParen"),
            TokenType::RParen => owned("RParen"),
            TokenType::FSlash => owned("FSlash"),
            TokenType::Star => owned("Star"),
            TokenType::Dot => owned("Dot"),
            TokenType::AtSymbol => owned("AtSymbol"),
            TokenType::Unknown(c) => {
                let mut s = owned("Unknown(");
                let d = char_debug(*c);
                s.append(d.as_str());
                s.append(")");
                s
            },
        }
    }
}

/// A token produced while lexing the contents of a YARA hex string.
///
/// Hex tokens are never mixed into the main [`Token`] stream; no [`Span`]
/// is attached, since hex-string findings are reported at the granularity
/// of the whole string.
#[derive(PartialEq, Eq, Structural, Debug, Clone, Copy)]
pub struct HexToken {
    /// The token's classification and associated value.
    pub token_type: HexTokenType,
}

/// Represents a lexical token recognized within a YARA hex string.
#[derive(PartialEq, Eq, Structural, Debug, Clone, Copy)]
pub enum HexTokenType {
    /// A fully specified byte, e.g. `4D`.
    Byte(u8),
    /// A fully wildcarded byte (`??`).
    Wildcard,
    /// A byte with one nibble wildcarded, e.g. `?D` or `D?`.
    NibbleWildcard {
        /// High nibble, or `None` if wildcarded.
        high: Option<u8>,
        /// Low nibble, or `None` if wildcarded.
        low: Option<u8>,
    },
    /// A jump bound number, e.g. the `4` in `[4-6]`.
    Number(u32),
    /// Dash separating jump bounds (`-`).
    Dash,
    /// Left bracket (`[`), opening a jump.
    LBracket,
    /// Right bracket (`]`), closing a jump.
    RBracket,
    /// Left parenthesis (`(`), opening an alternation.
    LParen,
    /// Right parenthesis (`)`), closing an alternation.
    RParen,
    /// Pipe (`|`) separating alternation branches.
    Pipe,
    /// An unknown character, kept so that the parser rather than the lexer
    /// reports it.
    Unknown(char),
}

/// The `Debug` rendering of an optional nibble, `Some(10)` or `None`.
pub open spec fn option_u8_debug(o: Option<u8>) -> Seq<char> {
    match o {
        Some(v) => "Some("@ + decimal(v as nat) + ")"@,
        None => "None"@,
    }
}

/// The `Debug` rendering of a hex token type, e.g. `Byte(170)`, `Dash` or
/// `NibbleWildcard { high: Some(10), low: None }`.
pub open spec fn hex_token_type_debug(t: HexTokenType) -> Seq<char> {
    match t {
        HexTokenType::Byte(b) => "Byte("@ + decimal(b as nat) + ")"@,
        HexTokenType::Wildcard => "Wildcard"@,
        HexTokenType::NibbleWildcard { high, low } => "NibbleWildcard { high: "@ + option_u8_debug(
            high,
        ) + ", low: "@ + option_u8_debug(low) + " }"@,
        HexTokenType::Number(n) => "Number("@ + decimal(n as nat) + ")"@,
        HexTokenType::Dash => "Dash"@,
        HexTokenType::LBracket => "LBracket"@,
        HexTokenType::RBracket => "RBracket"@,
        HexTokenType::LParen => "LParen"@,
        HexTokenType::RParen => "RParen"@,
        HexTokenType::Pipe => "Pipe"@,
        HexTokenType::Unknown(c) => "Unknown("@ + spec_char_debug(c) + ")"@,
    }
}

/// Appends the `Debug` rendering of an optional nibble.
fn push_option_u8_debug(s: &mut String, o: Option<u8>)
    ensures
        final(s)@ == old(s)@ + option_u8_debug(o),
{
    match o {
        Some(v) => {
            s.append("Some(");
            push_decimal(v as u64, s);
            s.append(")");
        },
        None => {
            s.append("None");
        },
    }
}

impl HexTokenType {
    /// Renders the hex token type as its derived `Debug` output does.
    pub fn debug_string(&self) -> (r: String)
        ensures
            r@ == hex_token_type_debug(*self),
    {
        match self {
            HexTokenType::Byte(b) => {
                let mut s = owned("Byte(");
                push_decimal(*b as u64, &mut s);
                s.append(")");
                s
            },
            HexTokenType::Wildcard => owned("Wildcard"),
            HexTokenType::NibbleWildcard { high, low } => {
                let mut s = owned("NibbleWildcard { high: ");
                push_option_u8_debug(&mut s, *high);
                s.append(", low: ");
                push_option_u8_debug(&mut s, *low);
                s.append(" }");
                s
            },
            HexTokenType::Number(n) => {
                let mut s = owned("Number(");
                push_decimal(*n as u64, &mut s);
                s.append(")");
                s
            },
            HexTokenType::Dash => owned("Dash"),
            HexTokenType::LBracket => owned("LBracket"),
            HexTokenType::RBracket => owned("RBracket"),
            HexTokenType::LParen => owned("LParen"),
            HexTokenType::RParen => owned("RParen"),
            HexTokenType::Pipe => owned("Pipe"),
            HexTokenType::Unknown(c) => {
                let mut s = owned("Unknown(");
                let d = char_debug(*c);
                s.append(d.as_str());
                s.append(")");
                s
            },
        }
    }
}

} // verus!
