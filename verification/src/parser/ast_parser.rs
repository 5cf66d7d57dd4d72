//! Recursive-descent parsers that turn token streams into syntax trees.
//!
//! [`AstParser`] is the cursor over the main YARA token stream that the
//! section parsers (`meta`, `strings`, `condition`) share; `hex` holds the
//! separate parser for the contents of hex strings.


pub mod condition;
pub mod hex;
pub mod meta;
pub mod rule;
pub mod strings;

pub use rule::parse_rule;

use vstd::prelude::*;

use crate::parser::token::{Token, TokenType, TokenTypeView, token_type_debug};
use crate::text::{owned, str_eq};

verus! {

/// The type of the token at `pos`, if there is one.
pub open spec fn tok_at(toks: Seq<Token>, pos: int) -> Option<TokenTypeView> {
    if 0 <= pos < toks.len() {
        Some(toks[pos].token_type@)
    } else {
        None
    }
}

/// The position after the token at `pos`, if there is one; `pos` itself at
/// the end of the tokens.
pub open spec fn a_advanced(toks: Seq<Token>, pos: int) -> int {
    if pos < toks.len() {
        pos + 1
    } else {
        pos
    }
}

/// Whether the token at `pos` has type `t`.
pub open spec fn a_check(toks: Seq<Token>, pos: int, t: TokenTypeView) -> bool {
    tok_at(toks, pos) == Some(t)
}

/// Whether the token at `pos` is the keyword `kw`.
pub open spec fn a_is_keyword(toks: Seq<Token>, pos: int, kw: Seq<char>) -> bool {
    a_check(toks, pos, TokenTypeView::Keyword(kw))
}

/// The message for an input that ends where a token was expected.
pub open spec fn eof_message() -> Seq<char> {
    "Unexpected EOF"@
}

/// The message for a token of type `found` where `what` was expected.
pub open spec fn found_message(what: Seq<char>, found: TokenTypeView) -> Seq<char> {
    what + token_type_debug(found)
}

/// What consuming a token of type `expected` at `pos` gives.
pub open spec fn a_expect(toks: Seq<Token>, pos: int, expected: TokenTypeView) -> Result<
    int,
    Seq<char>,
> {
    match tok_at(toks, pos) {
        None => Err(eof_message()),
        Some(t) => if t == expected {
            Ok(pos + 1)
        } else {
            Err("Expected "@ + token_type_debug(expected) + ", found "@ + token_type_debug(t))
        },
    }
}

/// What consuming a number at `pos` gives: its text.
pub open spec fn a_number(toks: Seq<Token>, pos: int) -> Result<(Seq<char>, int), Seq<char>> {
    match tok_at(toks, pos) {
        None => Err(eof_message()),
        Some(TokenTypeView::Number(n)) => Ok((n, pos + 1)),
        Some(t) => Err(found_message("Expected Number, found "@, t)),
    }
}

/// What consuming a boolean keyword at `pos` gives.
pub open spec fn a_boolean(toks: Seq<Token>, pos: int) -> Result<(bool, int), Seq<char>> {
    match tok_at(toks, pos) {
        None => Err(eof_message()),
        Some(TokenTypeView::Keyword(k)) => if k == "true"@ {
            Ok((true, pos + 1))
        } else if k == "false"@ {
            Ok((false, pos + 1))
        } else {
            Err("Expected boolean, found keyword '"@ + k + "'"@)
        },
        Some(t) => Err(found_message("Expected boolean, found "@, t)),
    }
}

/// What consuming an identifier at `pos` gives: its text.
pub open spec fn a_identifier(toks: Seq<Token>, pos: int) -> Result<(Seq<char>, int), Seq<char>> {
    match tok_at(toks, pos) {
        None => Err(eof_message()),
        Some(TokenTypeView::Identifier(n)) => Ok((n, pos + 1)),
        Some(t) => Err(found_message("Expected identifier, found "@, t)),
    }
}

/// What consuming a string literal at `pos` gives: its text.
pub open spec fn a_string_literal(toks: Seq<Token>, pos: int) -> Result<(Seq<char>, int), Seq<char>> {
    match tok_at(toks, pos) {
        None => Err(eof_message()),
        Some(TokenTypeView::StringLiteral(n)) => Ok((n, pos + 1)),
        Some(t) => Err(found_message("Expected StringLiteral, found "@, t)),
    }
}

/// What consuming a string identifier at `pos` gives: its text.
pub open spec fn a_string_identifier(toks: Seq<Token>, pos: int) -> Result<
    (Seq<char>, int),
    Seq<char>,
> {
    match tok_at(toks, pos) {
        None => Err(eof_message()),
        Some(TokenTypeView::StringIdentifier(n)) => Ok((n, pos + 1)),
        Some(t) => Err(found_message("Expected string identifier, found "@, t)),
    }
}

/// What consuming the keyword `kw` at `pos` gives.
pub open spec fn a_keyword(toks: Seq<Token>, pos: int, kw: Seq<char>) -> Result<int, Seq<char>> {
    match tok_at(toks, pos) {
        None => Err(eof_message()),
        Some(t) => if t == TokenTypeView::Keyword(kw) {
            Ok(pos + 1)
        } else {
            Err("Expected keyword '"@ + kw + "', found "@ + token_type_debug(t))
        },
    }
}

/// What consuming any keyword at `pos` gives: its text.
pub open spec fn a_any_keyword(toks: Seq<Token>, pos: int) -> Result<(Seq<char>, int), Seq<char>> {
    match tok_at(toks, pos) {
        None => Err(eof_message()),
        Some(TokenTypeView::Keyword(k)) => Ok((k, pos + 1)),
        Some(t) => Err(found_message("Expected keyword, found "@, t)),
    }
}

/// A cursor over the tokens of a YARA file, shared by the section parsers.
pub struct AstParser {
    /// Complete token stream produced by the lexer.
    tokens: Vec<Token>,
    /// Current parser position.
    pos: usize,
}

impl AstParser {
    /// The tokens the parser reads.
    pub closed spec fn spec_tokens(&self) -> Seq<Token> {
        self.tokens@
    }

    /// The index of the next token to be read.
    pub closed spec fn spec_pos(&self) -> int {
        self.pos as int
    }

    /// The cursor stands within the tokens or right after them.
    pub closed spec fn wf(&self) -> bool {
        self.pos <= self.tokens@.len()
    }

    /// Creates a parser positioned at the start of `tokens`.
    pub fn new(tokens: Vec<Token>) -> (r: Self)
        ensures
            r.spec_tokens() == tokens@,
            r.spec_pos() == 0,
            r.wf(),
    {
        Self { tokens, pos: 0 }
    }

    /// Hands the tokens back, consuming the parser.
    pub fn into_tokens(self) -> (r: Vec<Token>)
        ensures
            r@ == self.spec_tokens(),
    {
        self.tokens
    }

    /// Returns whether the current token has type `token_type`.
    pub fn check(&self, token_type: &TokenType) -> (b: bool)
        requires
            self.wf(),
        ensures
            b == a_check(self.spec_tokens(), self.spec_pos(), token_type@),
    {
        match self.peek() {
            Some(t) => t.token_type.same_as(token_type),
            None => false,
        }
    }

    /// Returns the current token without consuming it.
    pub fn peek(&self) -> (r: Option<&Token>)
        requires
            self.wf(),
        ensures
            r == (if self.spec_pos() < self.spec_tokens().len() {
                Some(&self.spec_tokens()[self.spec_pos()])
            } else {
                None
            }),
    {
        if self.pos < self.tokens.len() {
            Some(&self.tokens[self.pos])
        } else {
            None
        }
    }

    /// Returns whether the current token is the keyword `keyword`.
    pub fn peek_keyword(&self, keyword: &str) -> (b: bool)
        requires
            self.wf(),
        ensures
            b == a_is_keyword(self.spec_tokens(), self.spec_pos(), keyword@),
    {
        match self.peek() {
            Some(Token { token_type: TokenType::Keyword(k), .. }) => str_eq(k.as_str(), keyword),
            _ => false,
        }
    }

    /// Returns whether the current token is a string identifier.
    pub fn peek_string_identifier(&self) -> (b: bool)
        requires
            self.wf(),
        ensures
            b == (tok_at(self.spec_tokens(), self.spec_pos()) matches Some(
                TokenTypeView::StringIdentifier(_),
            )),
    {
        match self.peek() {
            Some(Token { token_type: TokenType::StringIdentifier(_), .. }) => true,
            _ => false,
        }
    }

    /// Consumes the current token, if there is one.
    pub fn advance(&mut self)
        requires
            old(self).wf(),
        ensures
            final(self).wf(),
            final(self).spec_tokens() == old(self).spec_tokens(),
            final(self).spec_pos() == (if old(self).spec_pos() < old(self).spec_tokens().len() {
                old(self).spec_pos() + 1
            } else {
                old(self).spec_pos()
            }),
    {
        if self.pos < self.tokens.len() {
            self.pos = self.pos + 1;
        }
    }

    /// Consumes a token of type `expected`.
    ///
    /// # Errors
    ///
    /// Returns an error naming both types when the current token has another
    /// type, or when no token is left.
    pub fn expect(&mut self, expected: &TokenType) -> (r: Result<(), String>)
        requires
            old(self).wf(),
        ensures
            final(self).wf(),
            final(self).spec_tokens() == old(self).spec_tokens(),
            match a_expect(old(self).spec_tokens(), old(self).spec_pos(), expected@) {
                Ok(p) => r is Ok && final(self).spec_pos() == p,
                Err(m) => r matches Err(e) && e@ == m && final(self).spec_pos() == old(
                    self,
                ).spec_pos(),
            },
    {
        match self.peek() {
            Some(t) => {
                if t.token_type.same_as(expected) {
                    self.advance();
                    Ok(())
                } else {
                    let mut m = owned("Expected ");
                    let d = expected.debug_string();
                    m.append(d.as_str());
                    m.append(", found ");
                    let f = t.token_type.debug_string();
                    m.append(f.as_str());
                    Err(m)
                }
            },
            None => Err(owned("Unexpected EOF")),
        }
    }

    /// `what` followed by the `Debug` rendering of the current token type.
    fn found_error(&self, what: &str) -> (r: String)
        requires
            self.wf(),
            self.spec_pos() < self.spec_tokens().len(),
        ensures
            r@ == found_message(what@, self.spec_tokens()[self.spec_pos()].token_type@),
    {
        let mut m = owned(what);
        let d = self.tokens[self.pos].token_type.debug_string();
        m.append(d.as_str());
        m
    }

    /// Consumes a number and returns its text.
    ///
    /// # Errors
    ///
    /// Returns an error when the current token is not a number, or when no
    /// token is left.
    pub fn expect_number(&mut self) -> (r: Result<String, String>)
        requires
            old(self).wf(),
        ensures
            final(self).wf(),
            final(self).spec_tokens() == old(self).spec_tokens(),
            match a_number(old(self).spec_tokens(), old(self).spec_pos()) {
                Ok((v, p)) => r matches Ok(s) && s@ == v && final(self).spec_pos() == p,
                Err(m) => r matches Err(e) && e@ == m && final(self).spec_pos() == a_advanced(
                    old(self).spec_tokens(),
                    old(self).spec_pos(),
                ),
            },
    {
        let r = match self.peek() {
            Some(Token { token_type: TokenType::Number(num), .. }) => Ok(num.clone()),
            Some(_) => Err(self.found_error("Expected Number, found ")),
            None => Err(owned("Unexpected EOF")),
        };
        self.advance();
        r
    }

    /// Consumes the keyword `true` or `false` and returns its value.
    ///
    /// # Errors
    ///
    /// Returns an error when the current token is another keyword or no
    /// keyword, or when no token is left.
    pub fn expect_boolean(&mut self) -> (r: Result<bool, String>)
        requires
            old(self).wf(),
        ensures
            final(self).wf(),
            final(self).spec_tokens() == old(self).spec_tokens(),
            match a_boolean(old(self).spec_tokens(), old(self).spec_pos()) {
                Ok((v, p)) => r == Ok::<bool, String>(v) && final(self).spec_pos() == p,
                Err(m) => r matches Err(e) && e@ == m && final(self).spec_pos() == a_advanced(
                    old(self).spec_tokens(),
                    old(self).spec_pos(),
                ),
            },
    {
        let r = match self.peek() {
            Some(Token { token_type: TokenType::Keyword(bool_val), .. }) => {
                if str_eq(bool_val.as_str(), "true") {
                    Ok(true)
                } else if str_eq(bool_val.as_str(), "false") {
                    Ok(false)
                } else {
                    let mut m = owned("Expected boolean, found keyword '");
                    m.append(bool_val.as_str());
                    m.append("'");
                    Err(m)
                }
            },
            Some(_) => Err(self.found_error("Expected boolean, found ")),
            None => Err(owned("Unexpected EOF")),
        };
        self.advance();
        r
    }

    /// Consumes an identifier and returns its text.
    ///
    /// # Errors
    ///
    /// Returns an error when the current token is not an identifier, or when
    /// no token is left.
    pub fn expect_identifier(&mut self) -> (r: Result<String, String>)
        requires
            old(self).wf(),
        ensures
            final(self).wf(),
            final(self).spec_tokens() == old(self).spec_tokens(),
            match a_identifier(old(self).spec_tokens(), old(self).spec_pos()) {
                Ok((v, p)) => r matches Ok(s) && s@ == v && final(self).spec_pos() == p,
                Err(m) => r matches Err(e) && e@ == m && final(self).spec_pos() == a_advanced(
                    old(self).spec_tokens(),
                    old(self).spec_pos(),
                ),
            },
    {
        let r = match self.peek() {
            Some(Token { token_type: TokenType::Identifier(name), .. }) => Ok(name.clone()),
            Some(_) => Err(self.found_error("Expected identifier, found ")),
            None => Err(owned("Unexpected EOF")),
        };
        self.advance();
        r
    }

    /// Consumes a string literal and returns its text.
    ///
    /// # Errors
    ///
    /// Returns an error when the current token is not a string literal, or
    /// when no token is left.
    pub fn expect_string_literal(&mut self) -> (r: Result<String, String>)
        requires
            old(self).wf(),
        ensures
            final(self).wf(),
            final(self).spec_tokens() == old(self).spec_tokens(),
            match a_string_literal(old(self).spec_tokens(), old(self).spec_pos()) {
                Ok((v, p)) => r matches Ok(s) && s@ == v && final(self).spec_pos() == p,
                Err(m) => r matches Err(e) && e@ == m && final(self).spec_pos() == a_advanced(
                    old(self).spec_tokens(),
                    old(self).spec_pos(),
                ),
            },
    {
        let r = match self.peek() {
            Some(Token { token_type: TokenType::StringLiteral(name), .. }) => Ok(name.clone()),
            Some(_) => Err(self.found_error("Expected StringLiteral, found ")),
            None => Err(owned("Unexpected EOF")),
        };
        self.advance();
        r
    }

    /// Consumes a string identifier and returns its text.
    ///
    /// # Errors
    ///
    /// Returns an error when the current token is not a string identifier,
    /// or when no token is left.
    pub fn expect_string_identifier(&mut self) -> (r: Result<String, String>)
        requires
            old(self).wf(),
        ensures
            final(self).wf(),
            final(self).spec_tokens() == old(self).spec_tokens(),
            match a_string_identifier(old(self).spec_tokens(), old(self).spec_pos()) {
                Ok((v, p)) => r matches Ok(s) && s@ == v && final(self).spec_pos() == p,
                Err(m) => r matches Err(e) && e@ == m && final(self).spec_pos() == a_advanced(
                    old(self).spec_tokens(),
                    old(self).spec_pos(),
                ),
            },
    {
        let r = match self.peek() {
            Some(Token { token_type: TokenType::StringIdentifier(name), .. }) => Ok(name.clone()),
            Some(_) => Err(self.found_error("Expected string identifier, found ")),
            None => Err(owned("Unexpected EOF")),
        };
        self.advance();
        r
    }

    /// Consumes the keyword `keyword`.
    ///
    /// # Errors
    ///
    /// Returns an error when the current token is not that keyword, or when
    /// no token is left.
    pub fn expect_keyword(&mut self, keyword: &str) -> (r: Result<(), String>)
        requires
            old(self).wf(),
        ensures
            final(self).wf(),
            final(self).spec_tokens() == old(self).spec_tokens(),
            match a_keyword(old(self).spec_tokens(), old(self).spec_pos(), keyword@) {
                Ok(p) => r is Ok && final(self).spec_pos() == p,
                Err(m) => r matches Err(e) && e@ == m && final(self).spec_pos() == a_advanced(
                    old(self).spec_tokens(),
                    old(self).spec_pos(),
                ),
            },
    {
        let r = match self.peek() {
            Some(Token { token_type: TokenType::Keyword(found), .. }) if str_eq(
                found.as_str(),
                keyword,
            ) => Ok(()),
            Some(t) => {
                let mut m = owned("Expected keyword '");
                m.append(keyword);
                m.append("', found ");
                let d = t.token_type.debug_string();
                m.append(d.as_str());
                Err(m)
            },
            None => Err(owned("Unexpected EOF")),
        };
        self.advance();
        r
    }

    /// Consumes any keyword and returns its text.
    ///
    /// # Errors
    ///
    /// Returns an error when the current token is not a keyword, or when no
    /// token is left.
    pub fn expect_any_keyword(&mut self) -> (r: Result<String, String>)
        requires
            old(self).wf(),
        ensures
            final(self).wf(),
            final(self).spec_tokens() == old(self).spec_tokens(),
            match a_any_keyword(old(self).spec_tokens(), old(self).spec_pos()) {
                Ok((v, p)) => r matches Ok(s) && s@ == v && final(self).spec_pos() == p,
                Err(m) => r matches Err(e) && e@ == m && final(self).spec_pos() == a_advanced(
                    old(self).spec_tokens(),
                    old(self).spec_pos(),
                ),
            },
    {
        let r = match self.peek() {
            Some(Token { token_type: TokenType::Keyword(keyword), .. }) => Ok(keyword.clone()),
            Some(_) => Err(self.found_error("Expected keyword, found ")),
            None => Err(owned("Unexpected EOF")),
        };
        self.advance();
        r
    }
}

} // verus!
