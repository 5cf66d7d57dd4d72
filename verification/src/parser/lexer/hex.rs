//! Lexing of the contents of a YARA hex string.
//!
//! This module tokenizes the *interior* of a hex string - the raw text
//! between an unescaped `{` and `}` - turning it into a stream of
//! [`HexToken`]s consumed by the hex AST parser.
//!
//! Hex strings are not part of the main YARA grammar. They are a small,
//! self-contained grammar of their own (bytes, wildcards, jumps, and
//! alternations), which is why they get a dedicated lexer.

use vstd::prelude::*;

use crate::parser::token::{HexToken, HexTokenType};
use crate::text::{
    result_view, chars_of, hex_value, is_ascii_digit, is_ascii_hexdigit, is_whitespace, owned,
    spec_hex_value, spec_is_ascii_digit, spec_is_ascii_hexdigit, spec_is_whitespace,
    string_from_chars,
};

verus! {

/// A hex digit or `?`: a character that may stand in a byte, wildcard or
/// nibble-wildcard atom.
pub open spec fn spec_is_hex_atom_char(c: char) -> bool {
    c == '?' || spec_is_ascii_hexdigit(c)
}

/// What [`parse_nibble`] returns for `c`.
pub open spec fn spec_parse_nibble(c: char) -> Result<Option<u8>, Seq<char>> {
    if c == '?' {
        Ok(None)
    } else if spec_is_ascii_hexdigit(c) {
        Ok(Some(spec_hex_value(c)))
    } else {
        Err("Invalid hex digit: '"@.push(c) + "'"@)
    }
}

/// The value of a run of decimal digits.
pub open spec fn digits_value(d: Seq<char>) -> nat
    decreases d.len(),
{
    if d.len() == 0 {
        0
    } else {
        digits_value(d.drop_last()) * 10 + (d.last() as u32 - '0' as u32) as nat
    }
}

/// The end of the run of decimal digits that starts at `i`.
pub open spec fn digit_run_end(s: Seq<char>, i: int) -> int
    decreases s.len() - i,
{
    if i < 0 || i >= s.len() || !spec_is_ascii_digit(s[i]) {
        i
    } else {
        digit_run_end(s, i + 1)
    }
}

/// The token that a byte, wildcard or nibble-wildcard atom becomes, from its
/// two nibbles (`None` for `?`).
pub open spec fn atom_token(high: Option<u8>, low: Option<u8>) -> HexTokenType {
    match (high, low) {
        (Some(h), Some(l)) => HexTokenType::Byte((h * 16 + l) as u8),
        (None, None) => HexTokenType::Wildcard,
        (high, low) => HexTokenType::NibbleWildcard { high, low },
    }
}

/// Prepends `pre` to a successful token list; an error stays as it is.
pub open spec fn prepend_tokens(pre: Seq<HexToken>, r: Result<Seq<HexToken>, Seq<char>>) -> Result<
    Seq<HexToken>,
    Seq<char>,
> {
    match r {
        Ok(t) => Ok(pre + t),
        Err(e) => Err(e),
    }
}

/// One token, prepended to what the rest of the input lexes to.
pub open spec fn then_token(t: HexTokenType, r: Result<Seq<HexToken>, Seq<char>>) -> Result<
    Seq<HexToken>,
    Seq<char>,
> {
    prepend_tokens(seq![HexToken { token_type: t }], r)
}

/// What the hex lexer makes of `s` from position `i` on, `in_jump` telling
/// whether an unclosed `[` precedes `i`.
///
/// Whitespace separates tokens. `[`, `]`, `-`, `(`, `)` and `|` are tokens of
/// their own; `[` enters a jump and `]` leaves it. Inside a jump a run of
/// digits is a jump bound; outside one, a hex digit or `?` starts a
/// two-character atom. Any other character becomes an unknown token. Input
/// that ends inside a jump is an error.
pub open spec fn hex_lex(s: Seq<char>, i: int, in_jump: bool) -> Result<Seq<HexToken>, Seq<char>>
    decreases s.len() - i,
{
    if i < 0 || i >= s.len() {
        if in_jump {
            Err("Unterminated jump in hex string: missing ']'"@)
        } else {
            Ok(Seq::empty())
        }
    } else {
        let c = s[i];
        if spec_is_whitespace(c) {
            hex_lex(s, i + 1, in_jump)
        } else if c == '[' {
            then_token(HexTokenType::LBracket, hex_lex(s, i + 1, true))
        } else if c == ']' {
            then_token(HexTokenType::RBracket, hex_lex(s, i + 1, false))
        } else if c == '-' {
            then_token(HexTokenType::Dash, hex_lex(s, i + 1, in_jump))
        } else if c == '(' {
            then_token(HexTokenType::LParen, hex_lex(s, i + 1, in_jump))
        } else if c == ')' {
            then_token(HexTokenType::RParen, hex_lex(s, i + 1, in_jump))
        } else if c == '|' {
            then_token(HexTokenType::Pipe, hex_lex(s, i + 1, in_jump))
        } else if in_jump && spec_is_ascii_digit(c) {
            let j = digit_run_end(s, i);
            let digits = s.subrange(i, j);
            if digits_value(digits) > u32::MAX {
                Err(
                    "Invalid jump bound '"@ + digits + "': number too large to fit in target type"@,
                )
            } else if i < j <= s.len() {
                then_token(HexTokenType::Number(digits_value(digits) as u32), hex_lex(s, j, in_jump))
            } else {
                Err(Seq::empty())
            }
        } else if !in_jump && spec_is_hex_atom_char(c) {
            if i + 1 >= s.len() {
                Err("Unexpected EOF inside hex byte"@)
            } else if !spec_is_hex_atom_char(s[i + 1]) {
                Err("Invalid second character in hex byte: '"@.push(s[i + 1]) + "'"@)
            } else {
                then_token(
                    atom_token(spec_parse_nibble(c)->Ok_0, spec_parse_nibble(s[i + 1])->Ok_0),
                    hex_lex(s, i + 2, in_jump),
                )
            }
        } else {
            then_token(HexTokenType::Unknown(c), hex_lex(s, i + 1, in_jump))
        }
    }
}

/// What [`tokenize_hex`] returns for the text `s`.
pub open spec fn spec_tokenize_hex(s: Seq<char>) -> Result<Seq<HexToken>, Seq<char>> {
    hex_lex(s, 0, false)
}

/// Stateful lexer over the characters of a hex string's contents.
///
/// No position in the source is reported: hex string findings are reported
/// at the granularity of the whole string.
struct HexLexer {
    /// The characters of the hex string's contents.
    chars: Vec<char>,
    /// Index of the next character to be read.
    pos: usize,
}

impl HexLexer {
    /// Creates a new hex lexer over the provided hex string contents.
    fn new(source: &str) -> (r: Self)
        ensures
            r.chars@ == source@,
            r.pos == 0,
    {
        Self { chars: chars_of(source), pos: 0 }
    }

    /// Returns the next character without consuming it.
    fn peek(&self) -> (r: Option<char>)
        ensures
            r == (if self.pos < self.chars@.len() {
                Some(self.chars@[self.pos as int])
            } else {
                None
            }),
    {
        if self.pos < self.chars.len() {
            Some(self.chars[self.pos])
        } else {
            None
        }
    }

    /// Consumes and returns the next character.
    fn advance(&mut self) -> (r: Option<char>)
        requires
            old(self).pos <= old(self).chars@.len(),
        ensures
            final(self).chars == old(self).chars,
            r == (if old(self).pos < old(self).chars@.len() {
                Some(old(self).chars@[old(self).pos as int])
            } else {
                None
            }),
            final(self).pos == (if old(self).pos < old(self).chars@.len() {
                old(self).pos + 1
            } else {
                old(self).pos as int
            }),
    {
        if self.pos < self.chars.len() {
            let c = self.chars[self.pos];
            self.pos = self.pos + 1;
            Some(c)
        } else {
            None
        }
    }
}

/// Returns whether `ch` may appear as one half of a byte, wildcard, or
/// nibble-wildcard atom (a hex digit or `?`).
pub fn is_hex_atom_char(ch: char) -> (b: bool)
    ensures
        b == spec_is_hex_atom_char(ch),
{
    ch == '?' || is_ascii_hexdigit(ch)
}

/// Parses a single hex nibble character: `Ok(Some(value))` for a hex digit,
/// `Ok(None)` for a wildcard (`?`).
///
/// # Errors
///
/// Returns an error if `ch` is neither a valid hex digit nor `?`.
pub fn parse_nibble(ch: char) -> (r: Result<Option<u8>, String>)
    ensures
        match (r, spec_parse_nibble(ch)) {
            (Ok(v), Ok(w)) => v == w,
            (Err(e), Err(m)) => e@ == m,
            _ => false,
        },
{
    if ch == '?' {
        Ok(None)
    } else if is_ascii_hexdigit(ch) {
        Ok(Some(hex_value(ch)))
    } else {
        let mut m = owned("Invalid hex digit: '");
        m.push(ch);
        m.append("'");
        Err(m)
    }
}

proof fn lemma_digit_run_end_bounds(s: Seq<char>, i: int)
    requires
        0 <= i <= s.len(),
    ensures
        i <= digit_run_end(s, i) <= s.len(),
        forall|k: int| i <= k < digit_run_end(s, i) ==> spec_is_ascii_digit(#[trigger] s[k]),
        digit_run_end(s, i) < s.len() ==> !spec_is_ascii_digit(s[digit_run_end(s, i)]),
    decreases s.len() - i,
{
    if i < s.len() && spec_is_ascii_digit(s[i]) {
        lemma_digit_run_end_bounds(s, i + 1);
    }
}

proof fn lemma_digits_value_grows(d: Seq<char>, c: char)
    requires
        spec_is_ascii_digit(c),
    ensures
        digits_value(d.push(c)) >= digits_value(d) * 10,
        digits_value(d.push(c)) == digits_value(d) * 10 + (c as u32 - '0' as u32) as nat,
{
    assert(d.push(c).drop_last() == d);
}

proof fn lemma_prepend_then(pre: Seq<HexToken>, t: HexTokenType, r: Result<Seq<HexToken>, Seq<char>>)
    ensures
        prepend_tokens(pre, then_token(t, r)) == prepend_tokens(pre.push(HexToken { token_type: t }), r),
{
    if let Ok(rest) = r {
        assert(pre + (seq![HexToken { token_type: t }] + rest) =~= pre.push(HexToken { token_type: t }) + rest);
    }
}

/// Converts the raw contents of a YARA hex string into a sequence of
/// [`HexToken`]s.
///
/// Digits are only ever interpreted as jump bounds while lexing inside
/// a `[...]` jump - everywhere else, a digit (or `?`) is the start of a
/// byte, wildcard, or nibble-wildcard atom.
///
/// # Errors
///
/// Returns an error if:
/// - A byte or nibble-wildcard atom is missing its second character.
/// - A byte or nibble-wildcard atom has a second character that is not a
///   hex digit or `?`.
/// - A jump bound contains a number too large to fit a `u32`.
/// - A `[` is never closed with a matching `]`.
pub fn tokenize_hex(source: &str) -> (r: Result<Vec<HexToken>, String>)
    ensures
        result_view(r) == spec_tokenize_hex(source@),
{
    let mut lexer = HexLexer::new(source);
    let mut tokens: Vec<HexToken> = Vec::new();
    let mut in_jump = false;
    let ghost s = source@;

    loop
        invariant
            s == source@,
            lexer.chars@ == s,
            lexer.pos <= s.len(),
            spec_tokenize_hex(s) == prepend_tokens(tokens@, hex_lex(s, lexer.pos as int, in_jump)),
        ensures
            lexer.pos == s.len(),
            spec_tokenize_hex(s) == prepend_tokens(tokens@, hex_lex(s, lexer.pos as int, in_jump)),
        decreases s.len() - lexer.pos,
    {
        let ghost i = lexer.pos as int;
        let ghost before = tokens@;
        let ghost old_jump = in_jump;
        let next = lexer.advance();
        let ch = match next {
            Some(ch) => ch,
            None => {
                break;
            },
        };
        if is_whitespace(ch) {
        } else if ch == '[' {
            in_jump = true;
            tokens.push(HexToken { token_type: HexTokenType::LBracket });
            proof { lemma_prepend_then(before, HexTokenType::LBracket, hex_lex(s, i + 1, true)); }
        } else if ch == ']' {
            in_jump = false;
            tokens.push(HexToken { token_type: HexTokenType::RBracket });
            proof { lemma_prepend_then(before, HexTokenType::RBracket, hex_lex(s, i + 1, false)); }
        } else if ch == '-' {
            tokens.push(HexToken { token_type: HexTokenType::Dash });
            proof { lemma_prepend_then(before, HexTokenType::Dash, hex_lex(s, i + 1, in_jump)); }
        } else if ch == '(' {
            tokens.push(HexToken { token_type: HexTokenType::LParen });
            proof { lemma_prepend_then(before, HexTokenType::LParen, hex_lex(s, i + 1, in_jump)); }
        } else if ch == ')' {
            tokens.push(HexToken { token_type: HexTokenType::RParen });
            proof { lemma_prepend_then(before, HexTokenType::RParen, hex_lex(s, i + 1, in_jump)); }
        } else if ch == '|' {
            tokens.push(HexToken { token_type: HexTokenType::Pipe });
            proof { lemma_prepend_then(before, HexTokenType::Pipe, hex_lex(s, i + 1, in_jump)); }
        } else if in_jump && is_ascii_digit(ch) {
            // Inside `[...]`, digits form a jump bound (e.g. the `4` in
            // `[4-6]`), not a byte nibble.
            let mut num: Vec<char> = Vec::new();
            num.push(ch);
            let mut value: u32 = (ch as u32 - 48) as u32;
            let mut overflow = false;
            proof {
                lemma_digit_run_end_bounds(s, i);
                assert(num@ == s.subrange(i, i + 1));
                lemma_digits_value_grows(Seq::<char>::empty(), ch);
                assert(Seq::<char>::empty().push(ch) == num@);
            }
            loop
                invariant
                    lexer.chars@ == s,
                    i < lexer.pos <= digit_run_end(s, i) <= s.len(),
                    num@ == s.subrange(i, lexer.pos as int),
                    overflow == (digits_value(num@) > u32::MAX),
                    !overflow ==> value == digits_value(num@),
                    forall|k: int| i <= k < digit_run_end(s, i) ==> spec_is_ascii_digit(#[trigger] s[k]),
                    digit_run_end(s, i) < s.len() ==> !spec_is_ascii_digit(s[digit_run_end(s, i)]),
                ensures
                    lexer.chars@ == s,
                    lexer.pos == digit_run_end(s, i),
                    num@ == s.subrange(i, lexer.pos as int),
                    overflow == (digits_value(num@) > u32::MAX),
                    !overflow ==> value == digits_value(num@),
                decreases s.len() - lexer.pos,
            {
                let next = lexer.peek();
                match next {
                    Some(d) => {
                        if is_ascii_digit(d) {
                            let ghost old_num = num@;
                            num.push(d);
                            lexer.advance();
                            proof {
                                lemma_digits_value_grows(old_num, d);
                                assert(num@ == s.subrange(i, lexer.pos as int));
                            }
                            if !overflow {
                                let v: u64 = value as u64 * 10 + (d as u32 - 48) as u64;
                                if v > 4294967295 {
                                    overflow = true;
                                } else {
                                    value = v as u32;
                                }
                            }
                        } else {
                            break;
                        }
                    },
                    None => {
                        break;
                    },
                }
            }
            assert(lexer.pos == digit_run_end(s, i));
            let ghost j = lexer.pos as int;
            if overflow {
                let digits = string_from_chars(num.as_slice());
                let mut m = owned("Invalid jump bound '");
                m.append(digits.as_str());
                m.append("': number too large to fit in target type");
                proof {
                    assert(hex_lex(s, i, old_jump) == Err::<Seq<HexToken>, Seq<char>>(m@));
                    assert(spec_tokenize_hex(s) == Err::<Seq<HexToken>, Seq<char>>(m@));
                }
                return Err(m);
            }
            tokens.push(HexToken { token_type: HexTokenType::Number(value) });
            proof { lemma_prepend_then(before, HexTokenType::Number(value), hex_lex(s, j, in_jump)); }
        } else if !in_jump && is_hex_atom_char(ch) {
            // Outside a jump, a hex digit or `?` is the first half of a
            // byte/wildcard/nibble-wildcard atom - always consumed in pairs.
            let high = match parse_nibble(ch) {
                Ok(h) => h,
                Err(e) => {
                    return Err(e);
                },
            };
            let second = match lexer.advance() {
                Some(c) => c,
                None => {
                    proof {
                        assert(hex_lex(s, i, old_jump) == Err::<Seq<HexToken>, Seq<char>>(
                            "Unexpected EOF inside hex byte"@,
                        ));
                    }
                    return Err(owned("Unexpected EOF inside hex byte"));
                },
            };
            if !is_hex_atom_char(second) {
                let mut m = owned("Invalid second character in hex byte: '");
                m.push(second);
                m.append("'");
                proof {
                    assert(hex_lex(s, i, old_jump) == Err::<Seq<HexToken>, Seq<char>>(m@));
                    assert(spec_tokenize_hex(s) == Err::<Seq<HexToken>, Seq<char>>(m@));
                }
                return Err(m);
            }
            let low = match parse_nibble(second) {
                Ok(l) => l,
                Err(e) => {
                    return Err(e);
                },
            };
            let token_type = match (high, low) {
                (Some(h), Some(l)) => HexTokenType::Byte(h * 16 + l),
                (None, None) => HexTokenType::Wildcard,
                (high, low) => HexTokenType::NibbleWildcard { high, low },
            };
            tokens.push(HexToken { token_type });
            proof {
                assert(token_type == atom_token(high, low));
                lemma_prepend_then(before, token_type, hex_lex(s, i + 2, in_jump));
            }
        } else {
            tokens.push(HexToken { token_type: HexTokenType::Unknown(ch) });
            proof { lemma_prepend_then(before, HexTokenType::Unknown(ch), hex_lex(s, i + 1, in_jump)); }
        }
        assert(spec_tokenize_hex(s) == prepend_tokens(tokens@, hex_lex(s, lexer.pos as int, in_jump)));
    }
    if in_jump {
        return Err(owned("Unterminated jump in hex string: missing ']'"));
    }
    Ok(tokens)
}

} // verus!
