//! Recursive-descent parsing of YARA hex string contents.
//!
//! Hex strings are not part of the main YARA grammar - they are a small,
//! self-contained grammar of their own (bytes, wildcards, jumps, and
//! alternations). [`HexAstParser`] is therefore a fully separate parser
//! from the main grammar's parser, with its own cursor over its own token
//! type.

use vstd::prelude::*;

use crate::parser::{
    lexer::hex::{spec_tokenize_hex, tokenize_hex},
    syntax::hex::{HexAtom, HexAtomView, HexExprNode, HexNode, HexNodeView, hex_atom_view,
        hex_atoms_view, hex_branches_view},
    token::{HexToken, HexTokenType, hex_token_type_debug},
};
use crate::text::{owned, result_view};

verus! {

/// The message for an input that ends where a token was expected.
pub open spec fn hex_eof_message() -> Seq<char> {
    "Unexpected EOF in hex string"@
}

/// What consuming a token of type `expected` at `pos` gives: the position
/// after it, or the error.
pub open spec fn h_expect(toks: Seq<HexToken>, pos: int, expected: HexTokenType) -> Result<
    int,
    Seq<char>,
> {
    if 0 <= pos < toks.len() {
        if toks[pos].token_type == expected {
            Ok(pos + 1)
        } else {
            Err(
                "Expected "@ + hex_token_type_debug(expected) + ", found "@ + hex_token_type_debug(
                    toks[pos].token_type,
                ),
            )
        }
    } else {
        Err(hex_eof_message())
    }
}

/// What consuming a jump bound at `pos` gives.
pub open spec fn h_number(toks: Seq<HexToken>, pos: int) -> Result<(u32, int), Seq<char>> {
    if 0 <= pos < toks.len() {
        match toks[pos].token_type {
            HexTokenType::Number(n) => Ok((n, pos + 1)),
            t => Err("Expected jump bound, found "@ + hex_token_type_debug(t)),
        }
    } else {
        Err(hex_eof_message())
    }
}

/// Whether the token at `pos` has type `t`.
pub open spec fn h_check(toks: Seq<HexToken>, pos: int, t: HexTokenType) -> bool {
    0 <= pos < toks.len() && toks[pos].token_type == t
}

/// What parsing a jump that opens at `pos` gives: `[n]`, `[n-m]`, `[n-]`,
/// `[-m]` or `[-]`.
pub open spec fn h_jump(toks: Seq<HexToken>, pos: int) -> Result<(HexAtomView, int), Seq<char>> {
    match h_expect(toks, pos, HexTokenType::LBracket) {
        Err(e) => Err(e),
        Ok(p1) => {
            let min: Result<(Option<u32>, int), Seq<char>> = if h_check(
                toks,
                p1,
                HexTokenType::Dash,
            ) {
                Ok((None, p1))
            } else {
                match h_number(toks, p1) {
                    Ok((n, p)) => Ok((Some(n), p)),
                    Err(e) => Err(e),
                }
            };
            match min {
                Err(e) => Err(e),
                Ok((min, p2)) => {
                    let max: Result<(Option<u32>, int), Seq<char>> = if h_check(
                        toks,
                        p2,
                        HexTokenType::Dash,
                    ) {
                        if h_check(toks, p2 + 1, HexTokenType::RBracket) {
                            Ok((None, p2 + 1))
                        } else {
                            match h_number(toks, p2 + 1) {
                                Ok((n, p)) => Ok((Some(n), p)),
                                Err(e) => Err(e),
                            }
                        }
                    } else {
                        Ok((min, p2))
                    };
                    match max {
                        Err(e) => Err(e),
                        Ok((max, p3)) => match h_expect(toks, p3, HexTokenType::RBracket) {
                            Err(e) => Err(e),
                            Ok(p4) => Ok((HexAtomView::Jump { min, max }, p4)),
                        },
                    }
                },
            }
        },
    }
}

/// `a` in front of a parsed sequence; an error stays as it is.
pub open spec fn h_cons(a: HexAtomView, r: Result<(Seq<HexAtomView>, int), Seq<char>>) -> Result<
    (Seq<HexAtomView>, int),
    Seq<char>,
> {
    match r {
        Ok((rest, q)) => Ok((seq![a] + rest, q)),
        Err(e) => Err(e),
    }
}

/// What parsing a sequence of atoms from `pos` gives: the atoms, and the
/// position of the first token not consumed. The sequence ends, without
/// consuming it, at a `|`, a `)` or the end of the tokens.
pub open spec fn h_seq(toks: Seq<HexToken>, pos: int) -> Result<(Seq<HexAtomView>, int), Seq<char>>
    decreases toks.len() - pos, 2int,
{
    if pos < 0 || pos >= toks.len() {
        Ok((Seq::empty(), pos))
    } else {
        match toks[pos].token_type {
            HexTokenType::Pipe | HexTokenType::RParen => Ok((Seq::empty(), pos)),
            HexTokenType::Byte(b) => h_cons(HexAtomView::Byte(b), h_seq(toks, pos + 1)),
            HexTokenType::Wildcard => h_cons(HexAtomView::Wildcard, h_seq(toks, pos + 1)),
            HexTokenType::NibbleWildcard { high, low } => h_cons(
                HexAtomView::NibbleWildcard { high, low },
                h_seq(toks, pos + 1),
            ),
            HexTokenType::LBracket => match h_jump(toks, pos) {
                Err(e) => Err(e),
                Ok((a, q)) => if pos < q <= toks.len() {
                    h_cons(a, h_seq(toks, q))
                } else {
                    Err(Seq::empty())
                },
            },
            HexTokenType::LParen => match h_alt(toks, pos) {
                Err(e) => Err(e),
                Ok((a, q)) => if pos < q <= toks.len() {
                    h_cons(a, h_seq(toks, q))
                } else {
                    Err(Seq::empty())
                },
            },
            t => Err("Unexpected token in hex string: "@ + hex_token_type_debug(t)),
        }
    }
}

/// What parsing an alternation that opens at `pos` gives.
pub open spec fn h_alt(toks: Seq<HexToken>, pos: int) -> Result<(HexAtomView, int), Seq<char>>
    decreases toks.len() - pos, 1int,
{
    match h_expect(toks, pos, HexTokenType::LParen) {
        Err(e) => Err(e),
        Ok(p1) => if pos < p1 <= toks.len() {
            match h_seq(toks, p1) {
                Err(e) => Err(e),
                Ok((first, q)) => if p1 <= q <= toks.len() {
                    h_alt_rest(toks, q, seq![first])
                } else {
                    Err(Seq::empty())
                },
            }
        } else {
            Err(Seq::empty())
        },
    }
}

/// The rest of an alternation from `pos`, after the branches parsed so far:
/// further `| sequence` branches, then the closing `)`.
pub open spec fn h_alt_rest(toks: Seq<HexToken>, pos: int, branches: Seq<Seq<HexAtomView>>) -> Result<
    (HexAtomView, int),
    Seq<char>,
>
    decreases toks.len() - pos, 0int,
{
    if 0 <= pos < toks.len() && toks[pos].token_type == HexTokenType::Pipe {
        match h_seq(toks, pos + 1) {
            Err(e) => Err(e),
            Ok((b, q)) => if pos < q <= toks.len() {
                h_alt_rest(toks, q, branches.push(b))
            } else {
                Err(Seq::empty())
            },
        }
    } else {
        match h_expect(toks, pos, HexTokenType::RParen) {
            Err(e) => Err(e),
            Ok(p) => if branches.len() < 2 {
                Err("Alternation must have at least two branches"@)
            } else {
                Ok((HexAtomView::Alternation(branches), p))
            },
        }
    }
}

/// What [`parse_hex_string`] returns for the text `s`.
pub open spec fn spec_parse_hex_string(s: Seq<char>) -> Result<HexNodeView, Seq<char>> {
    match spec_tokenize_hex(s) {
        Err(e) => Err(e),
        Ok(toks) => match h_seq(toks, 0) {
            Err(e) => Err(e),
            Ok((atoms, q)) => if 0 <= q < toks.len() {
                Err(
                    "Unexpected trailing token in hex string: "@ + hex_token_type_debug(
                        toks[q].token_type,
                    ),
                )
            } else {
                Ok(HexNodeView { atoms, original_string: s })
            },
        },
    }
}

/// A jump, when it parses, consumes at least its opening bracket and stays
/// within the tokens.
pub proof fn lemma_h_jump_positions(toks: Seq<HexToken>, pos: int)
    requires
        0 <= pos <= toks.len(),
    ensures
        h_jump(toks, pos) matches Ok((_, q)) ==> pos < q <= toks.len(),
{
}

/// A sequence, when it parses, ends at or after where it starts and within
/// the tokens.
pub proof fn lemma_h_seq_positions(toks: Seq<HexToken>, pos: int)
    requires
        0 <= pos <= toks.len(),
    ensures
        h_seq(toks, pos) matches Ok((_, q)) ==> pos <= q <= toks.len(),
    decreases toks.len() - pos, 2int,
{
    if pos < toks.len() {
        match toks[pos].token_type {
            HexTokenType::Pipe | HexTokenType::RParen => {},
            HexTokenType::LBracket => {
                lemma_h_jump_positions(toks, pos);
                if let Ok((_, q)) = h_jump(toks, pos) {
                    lemma_h_seq_positions(toks, q);
                }
            },
            HexTokenType::LParen => {
                lemma_h_alt_positions(toks, pos);
                if let Ok((_, q)) = h_alt(toks, pos) {
                    lemma_h_seq_positions(toks, q);
                }
            },
            _ => {
                lemma_h_seq_positions(toks, pos + 1);
            },
        }
    }
}

/// An alternation, when it parses, consumes at least its opening
/// parenthesis and stays within the tokens.
pub proof fn lemma_h_alt_positions(toks: Seq<HexToken>, pos: int)
    requires
        0 <= pos <= toks.len(),
    ensures
        h_alt(toks, pos) matches Ok((_, q)) ==> pos < q <= toks.len(),
    decreases toks.len() - pos, 1int,
{
    if pos < toks.len() && toks[pos].token_type == HexTokenType::LParen {
        lemma_h_seq_positions(toks, pos + 1);
        if let Ok((first, q)) = h_seq(toks, pos + 1) {
            lemma_h_alt_rest_positions(toks, q, seq![first]);
        }
    }
}

/// The rest of an alternation, when it parses, consumes at least the
/// closing parenthesis and stays within the tokens.
pub proof fn lemma_h_alt_rest_positions(toks: Seq<HexToken>, pos: int, branches: Seq<Seq<HexAtomView>>)
    requires
        0 <= pos <= toks.len(),
    ensures
        h_alt_rest(toks, pos, branches) matches Ok((_, q)) ==> pos < q <= toks.len(),
    decreases toks.len() - pos, 0int,
{
    if 0 <= pos < toks.len() && toks[pos].token_type == HexTokenType::Pipe {
        lemma_h_seq_positions(toks, pos + 1);
        if let Ok((b, q)) = h_seq(toks, pos + 1) {
            if pos < q <= toks.len() {
                lemma_h_alt_rest_positions(toks, q, branches.push(b));
            }
        }
    }
}

/// A hex atom in which every alternation, at any depth, has at least two
/// branches.
pub open spec fn hex_atom_wf(a: HexAtomView) -> bool
    decreases a,
{
    match a {
        HexAtomView::Alternation(bs) => bs.len() >= 2 && forall|i: int, j: int|
            0 <= i < bs.len() && 0 <= j < bs[i].len() ==> hex_atom_wf(#[trigger] bs[i][j]),
        _ => true,
    }
}

/// A sequence of well-formed hex atoms.
pub open spec fn hex_seq_wf(s: Seq<HexAtomView>) -> bool {
    forall|i: int| 0 <= i < s.len() ==> hex_atom_wf(#[trigger] s[i])
}

proof fn lemma_h_seq_wf(toks: Seq<HexToken>, pos: int)
    requires
        0 <= pos <= toks.len(),
    ensures
        h_seq(toks, pos) matches Ok((atoms, _)) ==> hex_seq_wf(atoms),
    decreases toks.len() - pos, 2int,
{
    if pos < toks.len() {
        match toks[pos].token_type {
            HexTokenType::Pipe | HexTokenType::RParen => {},
            HexTokenType::LBracket => {
                lemma_h_jump_positions(toks, pos);
                if let Ok((a, q)) = h_jump(toks, pos) {
                    lemma_h_seq_wf(toks, q);
                    lemma_h_seq_wf_cons(a, h_seq(toks, q));
                }
            },
            HexTokenType::LParen => {
                lemma_h_alt_positions(toks, pos);
                lemma_h_alt_wf(toks, pos);
                if let Ok((a, q)) = h_alt(toks, pos) {
                    lemma_h_seq_wf(toks, q);
                    lemma_h_seq_wf_cons(a, h_seq(toks, q));
                }
            },
            HexTokenType::Byte(b) => {
                lemma_h_seq_wf(toks, pos + 1);
                lemma_h_seq_wf_cons(HexAtomView::Byte(b), h_seq(toks, pos + 1));
            },
            HexTokenType::Wildcard => {
                lemma_h_seq_wf(toks, pos + 1);
                lemma_h_seq_wf_cons(HexAtomView::Wildcard, h_seq(toks, pos + 1));
            },
            HexTokenType::NibbleWildcard { high, low } => {
                lemma_h_seq_wf(toks, pos + 1);
                lemma_h_seq_wf_cons(HexAtomView::NibbleWildcard { high, low }, h_seq(toks, pos + 1));
            },
            _ => {},
        }
    }
}

proof fn lemma_h_seq_wf_cons(a: HexAtomView, r: Result<(Seq<HexAtomView>, int), Seq<char>>)
    requires
        hex_atom_wf(a),
        r matches Ok((rest, _)) ==> hex_seq_wf(rest),
    ensures
        h_cons(a, r) matches Ok((atoms, _)) ==> hex_seq_wf(atoms),
{
    if let Ok((rest, q)) = r {
        let atoms = seq![a] + rest;
        assert forall|i: int| 0 <= i < atoms.len() implies hex_atom_wf(#[trigger] atoms[i]) by {
            if i > 0 {
                assert(atoms[i] == rest[i - 1]);
            }
        }
    }
}

proof fn lemma_h_alt_wf(toks: Seq<HexToken>, pos: int)
    requires
        0 <= pos <= toks.len(),
    ensures
        h_alt(toks, pos) matches Ok((a, _)) ==> hex_atom_wf(a),
    decreases toks.len() - pos, 1int,
{
    if pos < toks.len() && toks[pos].token_type == HexTokenType::LParen {
        lemma_h_seq_positions(toks, pos + 1);
        lemma_h_seq_wf(toks, pos + 1);
        if let Ok((first, q)) = h_seq(toks, pos + 1) {
            lemma_h_alt_rest_wf(toks, q, seq![first]);
        }
    }
}

proof fn lemma_h_alt_rest_wf(toks: Seq<HexToken>, pos: int, branches: Seq<Seq<HexAtomView>>)
    requires
        0 <= pos <= toks.len(),
        forall|i: int| 0 <= i < branches.len() ==> hex_seq_wf(#[trigger] branches[i]),
    ensures
        h_alt_rest(toks, pos, branches) matches Ok((a, _)) ==> hex_atom_wf(a),
    decreases toks.len() - pos, 0int,
{
    if 0 <= pos < toks.len() && toks[pos].token_type == HexTokenType::Pipe {
        lemma_h_seq_positions(toks, pos + 1);
        lemma_h_seq_wf(toks, pos + 1);
        if let Ok((b, q)) = h_seq(toks, pos + 1) {
            if pos < q <= toks.len() {
                let nb = branches.push(b);
                assert forall|i: int| 0 <= i < nb.len() implies hex_seq_wf(#[trigger] nb[i]) by {
                    if i < branches.len() {
                        assert(nb[i] == branches[i]);
                    }
                }
                lemma_h_alt_rest_wf(toks, q, nb);
            }
        }
    } else {
        if let Ok((a, _)) = h_alt_rest(toks, pos, branches) {
            assert(a == HexAtomView::Alternation(branches));
            assert forall|i: int, j: int|
                0 <= i < branches.len() && 0 <= j < branches[i].len() implies hex_atom_wf(
                #[trigger] branches[i][j],
            ) by {
                assert(hex_seq_wf(branches[i]));
            }
        }
    }
}

/// Whether the token at `i` has type `t`.
pub open spec fn hex_token_at(toks: Seq<HexToken>, i: int, t: HexTokenType) -> bool {
    0 <= i < toks.len() && toks[i].token_type == t
}

/// The bounds of a jump are the numbers written in it: `[n-m]` is a jump
/// of at least `n` and at most `m` bytes, `[n]` of exactly `n`, `[n-]` of
/// at least `n`, `[-m]` of at most `m`, and `[-]` of any number; each ends
/// after its closing bracket.
pub proof fn lemma_jump_bounds(toks: Seq<HexToken>, pos: int, n: u32, m: u32)
    ensures
        hex_token_at(toks, pos, HexTokenType::LBracket) && hex_token_at(
            toks,
            pos + 1,
            HexTokenType::Number(n),
        ) && hex_token_at(toks, pos + 2, HexTokenType::Dash) && hex_token_at(
            toks,
            pos + 3,
            HexTokenType::Number(m),
        ) && hex_token_at(toks, pos + 4, HexTokenType::RBracket) ==> h_jump(toks, pos) == Ok::<
            (HexAtomView, int),
            Seq<char>,
        >((HexAtomView::Jump { min: Some(n), max: Some(m) }, pos + 5)),
        hex_token_at(toks, pos, HexTokenType::LBracket) && hex_token_at(
            toks,
            pos + 1,
            HexTokenType::Number(n),
        ) && hex_token_at(toks, pos + 2, HexTokenType::RBracket) ==> h_jump(toks, pos) == Ok::<
            (HexAtomView, int),
            Seq<char>,
        >((HexAtomView::Jump { min: Some(n), max: Some(n) }, pos + 3)),
        hex_token_at(toks, pos, HexTokenType::LBracket) && hex_token_at(
            toks,
            pos + 1,
            HexTokenType::Number(n),
        ) && hex_token_at(toks, pos + 2, HexTokenType::Dash) && hex_token_at(
            toks,
            pos + 3,
            HexTokenType::RBracket,
        ) ==> h_jump(toks, pos) == Ok::<(HexAtomView, int), Seq<char>>(
            (HexAtomView::Jump { min: Some(n), max: None }, pos + 4),
        ),
        hex_token_at(toks, pos, HexTokenType::LBracket) && hex_token_at(
            toks,
            pos + 1,
            HexTokenType::Dash,
        ) && hex_token_at(toks, pos + 2, HexTokenType::Number(m)) && hex_token_at(
            toks,
            pos + 3,
            HexTokenType::RBracket,
        ) ==> h_jump(toks, pos) == Ok::<(HexAtomView, int), Seq<char>>(
            (HexAtomView::Jump { min: None, max: Some(m) }, pos + 4),
        ),
        hex_token_at(toks, pos, HexTokenType::LBracket) && hex_token_at(
            toks,
            pos + 1,
            HexTokenType::Dash,
        ) && hex_token_at(toks, pos + 2, HexTokenType::RBracket) ==> h_jump(toks, pos) == Ok::<
            (HexAtomView, int),
            Seq<char>,
        >((HexAtomView::Jump { min: None, max: None }, pos + 3)),
{
}

/// Every alternation in a parsed hex string, at any depth, has at least
/// two branches: a hex string holding one with fewer is refused.
pub proof fn lemma_parsed_hex_alternations_have_two_branches(s: Seq<char>)
    ensures
        spec_parse_hex_string(s) matches Ok(node) ==> hex_seq_wf(node.atoms),
{
    if let Ok(toks) = spec_tokenize_hex(s) {
        lemma_h_seq_wf(toks, 0);
    }
}

/// Recursive-descent parser for the contents of a YARA hex string.
///
/// Consumes a stream of [`HexToken`]s produced by [`tokenize_hex`] and
/// produces a sequence of [`HexAtom`]s.
pub struct HexAstParser {
    /// Complete token stream produced by the hex lexer.
    tokens: Vec<HexToken>,
    /// Current parser position.
    pos: usize,
}

impl HexAstParser {
    /// The tokens the parser reads.
    pub closed spec fn spec_tokens(&self) -> Seq<HexToken> {
        self.tokens@
    }

    /// The index of the next token to be read.
    pub closed spec fn spec_pos(&self) -> int {
        self.pos as int
    }

    /// The cursor stands within the tokens or right after them.
    pub closed spec fn wf(&self) -> bool {
        self.pos <= self.tokens@.len()
    }

    /// Creates a new hex parser instance positioned at the start of the
    /// token stream.
    pub fn new(tokens: Vec<HexToken>) -> (r: Self)
        ensures
            r.spec_tokens() == tokens@,
            r.spec_pos() == 0,
            r.wf(),
    {
        Self { tokens, pos: 0 }
    }

    /// Returns the current token without consuming it.
    pub fn peek(&self) -> (r: Option<&HexToken>)
        requires
            self.wf(),
        ensures
            r == (if self.spec_pos() < self.spec_tokens().len() {
                Some(&self.spec_tokens()[self.spec_pos()])
            } else {
                None
            }),
    {
        if self.pos < self.tokens.len() {
            Some(&self.tokens[self.pos])
        } else {
            None
        }
    }

    /// Checks whether the current token matches the provided token type.
    fn check(&self, token_type: &HexTokenType) -> (b: bool)
        requires
            self.wf(),
        ensures
            b == h_check(self.spec_tokens(), self.spec_pos(), *token_type),
    {
        match self.peek() {
            Some(t) => t.token_type == *token_type,
            None => false,
        }
    }

    /// Consumes the current token, if there is one.
    fn advance(&mut self)
        requires
            old(self).wf(),
        ensures
            final(self).wf(),
            final(self).spec_tokens() == old(self).spec_tokens(),
            final(self).spec_pos() == (if old(self).spec_pos() < old(self).spec_tokens().len() {
                old(self).spec_pos() + 1
            } else {
                old(self).spec_pos()
            }),
    {
        if self.pos < self.tokens.len() {
            self.pos = self.pos + 1;
        }
    }

    /// Consumes a token and verifies it matches the expected type.
    ///
    /// # Errors
    ///
    /// Returns an error naming both types when the current token has another
    /// type, or when no token is left.
    pub fn expect(&mut self, expected: &HexTokenType) -> (r: Result<(), String>)
        requires
            old(self).wf(),
        ensures
            final(self).wf(),
            final(self).spec_tokens() == old(self).spec_tokens(),
            match h_expect(old(self).spec_tokens(), old(self).spec_pos(), *expected) {
                Ok(p) => r is Ok && final(self).spec_pos() == p,
                Err(m) => r matches Err(e) && e@ == m && final(self).spec_pos() == old(
                    self,
                ).spec_pos(),
            },
    {
        match self.peek() {
            Some(t) => {
                if t.token_type == *expected {
                    self.advance();
                    Ok(())
                } else {
                    let mut m = owned("Expected ");
                    let d = expected.debug_string();
                    m.append(d.as_str());
                    m.append(", found ");
                    let f = t.token_type.debug_string();
                    m.append(f.as_str());
                    Err(m)
                }
            },
            None => Err(owned("Unexpected EOF in hex string")),
        }
    }

    /// Consumes a jump bound number.
    ///
    /// # Errors
    ///
    /// Returns an error when the current token is not a number, or when no
    /// token is left.
    pub fn expect_number(&mut self) -> (r: Result<u32, String>)
        requires
            old(self).wf(),
        ensures
            final(self).wf(),
            final(self).spec_tokens() == old(self).spec_tokens(),
            match h_number(old(self).spec_tokens(), old(self).spec_pos()) {
                Ok((n, p)) => r == Ok::<u32, String>(n) && final(self).spec_pos() == p,
                Err(m) => r matches Err(e) && e@ == m && final(self).spec_pos() == (if old(
                    self,
                ).spec_pos() < old(self).spec_tokens().len() {
                    old(self).spec_pos() + 1
                } else {
                    old(self).spec_pos()
                }),
            },
    {
        let tok = match self.peek() {
            Some(t) => *t,
            None => {
                return Err(owned("Unexpected EOF in hex string"));
            },
        };
        self.advance();
        match tok.token_type {
            HexTokenType::Number(n) => Ok(n),
            other => {
                let mut m = owned("Expected jump bound, found ");
                let f = other.debug_string();
                m.append(f.as_str());
                Err(m)
            },
        }
    }

    /// Parses a sequence of hex atoms.
    ///
    /// Stops without consuming the terminator when it encounters a
    /// [`HexTokenType::Pipe`], a [`HexTokenType::RParen`], or the end of
    /// the token stream - the caller decides what either means. This is
    /// what lets a single function parse both the top-level hex string
    /// and every branch of an alternation.
    ///
    /// # Errors
    ///
    /// Returns an error on a token that cannot start an atom, or on a
    /// malformed jump or alternation.
    pub fn parse_sequence(&mut self) -> (r: Result<Vec<HexAtom>, String>)
        requires
            old(self).wf(),
        ensures
            final(self).wf(),
            final(self).spec_tokens() == old(self).spec_tokens(),
            match h_seq(old(self).spec_tokens(), old(self).spec_pos()) {
                Ok((atoms, p)) => r matches Ok(v) && hex_atoms_view(v@) == atoms
                    && final(self).spec_pos() == p,
                Err(m) => r matches Err(e) && e@ == m,
            },
        decreases old(self).spec_tokens().len() - old(self).spec_pos(), 2int,
    {
        let mut atoms: Vec<HexAtom> = Vec::new();
        let ghost toks = self.tokens@;
        let ghost start = self.pos as int;
        proof {
            lemma_h_seq_positions(toks, start);
        }
        loop
            invariant
                self.wf(),
                self.tokens@ == toks,
                toks == old(self).spec_tokens(),
                start == old(self).spec_pos(),
                start <= self.pos,
                h_seq(toks, start) == h_prefix(hex_atoms_view(atoms@), h_seq(toks, self.pos as int)),
            ensures
                self.wf(),
                self.tokens@ == toks,
                h_seq(toks, start) == h_prefix(hex_atoms_view(atoms@), h_seq(toks, self.pos as int)),
                h_seq(toks, self.pos as int) == Ok::<(Seq<HexAtomView>, int), Seq<char>>(
                    (Seq::empty(), self.pos as int),
                ),
            decreases toks.len() - self.pos,
        {
            let ghost p = self.pos as int;
            let ghost before = atoms@;
            proof {
                lemma_h_seq_positions(toks, p);
                lemma_h_jump_positions(toks, p);
                lemma_h_alt_positions(toks, p);
            }
            let tok = match self.peek() {
                None => {
                    break;
                },
                Some(t) => *t,
            };
            match tok.token_type {
                HexTokenType::Pipe | HexTokenType::RParen => {
                    break;
                },
                HexTokenType::Byte(byte) => {
                    self.advance();
                    atoms.push(HexAtom::Byte(byte));
                    proof {
                        lemma_atoms_view_push(before, HexAtom::Byte(byte));
                        lemma_h_prefix_cons(hex_atoms_view(before), HexAtomView::Byte(byte),
                            h_seq(toks, p + 1));
                    }
                },
                HexTokenType::Wildcard => {
                    self.advance();
                    atoms.push(HexAtom::Wildcard);
                    proof {
                        lemma_atoms_view_push(before, HexAtom::Wildcard);
                        lemma_h_prefix_cons(hex_atoms_view(before), HexAtomView::Wildcard,
                            h_seq(toks, p + 1));
                    }
                },
                HexTokenType::NibbleWildcard { high, low } => {
                    self.advance();
                    atoms.push(HexAtom::NibbleWildcard { high, low });
                    proof {
                        lemma_atoms_view_push(before, HexAtom::NibbleWildcard { high, low });
                        lemma_h_prefix_cons(hex_atoms_view(before),
                            HexAtomView::NibbleWildcard { high, low }, h_seq(toks, p + 1));
                    }
                },
                HexTokenType::LBracket => {
                    let jump = match self.parse_jump() {
                        Ok(j) => j,
                        Err(e) => {
                            return Err(e);
                        },
                    };
                    let ghost q = self.pos as int;
                    atoms.push(jump);
                    proof {
                        lemma_atoms_view_push(before, jump);
                        lemma_h_prefix_cons(hex_atoms_view(before), hex_atom_view(jump),
                            h_seq(toks, q));
                    }
                },
                HexTokenType::LParen => {
                    let alternation = match self.parse_alternation() {
                        Ok(a) => a,
                        Err(e) => {
                            return Err(e);
                        },
                    };
                    let ghost q = self.pos as int;
                    atoms.push(alternation);
                    proof {
                        lemma_atoms_view_push(before, alternation);
                        lemma_h_prefix_cons(hex_atoms_view(before), hex_atom_view(alternation),
                            h_seq(toks, q));
                    }
                },
                other => {
                    let mut m = owned("Unexpected token in hex string: ");
                    let d = other.debug_string();
                    m.append(d.as_str());
                    return Err(m);
                },
            }
        }
        proof {
            lemma_h_prefix_end(hex_atoms_view(atoms@), self.pos as int);
        }
        Ok(atoms)
    }

    /// Parses a jump, e.g. `[4-6]`, `[4]`, `[4-]`, `[-]`.
    ///
    /// # Errors
    ///
    /// Returns an error when a bound is not a number or the jump is not
    /// closed by `]`.
    pub fn parse_jump(&mut self) -> (r: Result<HexAtom, String>)
        requires
            old(self).wf(),
        ensures
            final(self).wf(),
            final(self).spec_tokens() == old(self).spec_tokens(),
            match h_jump(old(self).spec_tokens(), old(self).spec_pos()) {
                Ok((a, p)) => r matches Ok(v) && hex_atom_view(v) == a && final(self).spec_pos()
                    == p,
                Err(m) => r matches Err(e) && e@ == m,
            },
    {
        match self.expect(&HexTokenType::LBracket) {
            Ok(()) => {},
            Err(e) => {
                return Err(e);
            },
        }
        let min = if self.check(&HexTokenType::Dash) {
            None
        } else {
            match self.expect_number() {
                Ok(n) => Some(n),
                Err(e) => {
                    return Err(e);
                },
            }
        };
        let max = if self.check(&HexTokenType::Dash) {
            self.advance();
            if self.check(&HexTokenType::RBracket) {
                None
            } else {
                match self.expect_number() {
                    Ok(n) => Some(n),
                    Err(e) => {
                        return Err(e);
                    },
                }
            }
        } else {
            // No dash present: an exact jump, e.g. `[4]`. min and max match.
            min
        };
        match self.expect(&HexTokenType::RBracket) {
            Ok(()) => {},
            Err(e) => {
                return Err(e);
            },
        }
        Ok(HexAtom::Jump { min, max })
    }

    /// Parses an alternation, e.g. `( AA | BB CC )`.
    ///
    /// # Errors
    ///
    /// Returns an error when a branch is malformed, when the alternation is
    /// not closed by `)`, or when it has fewer than two branches.
    pub fn parse_alternation(&mut self) -> (r: Result<HexAtom, String>)
        requires
            old(self).wf(),
        ensures
            final(self).wf(),
            final(self).spec_tokens() == old(self).spec_tokens(),
            match h_alt(old(self).spec_tokens(), old(self).spec_pos()) {
                Ok((a, p)) => r matches Ok(v) && hex_atom_view(v) == a && final(self).spec_pos()
                    == p,
                Err(m) => r matches Err(e) && e@ == m,
            },
        decreases old(self).spec_tokens().len() - old(self).spec_pos(), 1int,
    {
        let ghost toks = self.tokens@;
        let ghost start = self.pos as int;
        proof {
            lemma_h_alt_positions(toks, start);
        }
        match self.expect(&HexTokenType::LParen) {
            Ok(()) => {},
            Err(e) => {
                return Err(e);
            },
        }
        let ghost p1 = self.pos as int;
        proof {
            lemma_h_seq_positions(toks, p1);
        }
        let first = match self.parse_sequence() {
            Ok(s) => s,
            Err(e) => {
                return Err(e);
            },
        };
        let mut branches: Vec<Vec<HexAtom>> = Vec::new();
        branches.push(first);
        proof {
            lemma_branches_view_push(Seq::empty(), first);
        }
        loop
            invariant
                self.wf(),
                self.tokens@ == toks,
                toks == old(self).spec_tokens(),
                start == old(self).spec_pos(),
                start < self.pos,
                h_alt(toks, start) == h_alt_rest(toks, self.pos as int, hex_branches_view(
                    branches@,
                )),
            ensures
                self.wf(),
                self.tokens@ == toks,
                h_alt(toks, start) == h_alt_rest(toks, self.pos as int, hex_branches_view(
                    branches@,
                )),
                !h_check(toks, self.pos as int, HexTokenType::Pipe),
            decreases toks.len() - self.pos,
        {
            if !self.check(&HexTokenType::Pipe) {
                break;
            }
            let ghost q = self.pos as int;
            let ghost before = branches@;
            self.advance();
            proof {
                lemma_h_seq_positions(toks, q + 1);
                lemma_h_alt_rest_positions(toks, q, hex_branches_view(before));
            }
            let branch = match self.parse_sequence() {
                Ok(s) => s,
                Err(e) => {
                    return Err(e);
                },
            };
            branches.push(branch);
            proof {
                lemma_branches_view_push(before, branch);
            }
        }
        match self.expect(&HexTokenType::RParen) {
            Ok(()) => {},
            Err(e) => {
                return Err(e);
            },
        }
        proof {
            lemma_branches_view_len(branches@);
        }
        if branches.len() < 2 {
            return Err(owned("Alternation must have at least two branches"));
        }
        Ok(HexAtom::Alternation(branches))
    }
}

/// `pre` in front of a parsed sequence; an error stays as it is.
pub open spec fn h_prefix(pre: Seq<HexAtomView>, r: Result<(Seq<HexAtomView>, int), Seq<char>>) -> Result<
    (Seq<HexAtomView>, int),
    Seq<char>,
> {
    match r {
        Ok((rest, q)) => Ok((pre + rest, q)),
        Err(e) => Err(e),
    }
}

proof fn lemma_h_prefix_cons(
    pre: Seq<HexAtomView>,
    a: HexAtomView,
    r: Result<(Seq<HexAtomView>, int), Seq<char>>,
)
    ensures
        h_prefix(pre, h_cons(a, r)) == h_prefix(pre.push(a), r),
{
    if let Ok((rest, q)) = r {
        assert(pre + (seq![a] + rest) =~= pre.push(a) + rest);
    }
}

proof fn lemma_h_prefix_end(pre: Seq<HexAtomView>, q: int)
    ensures
        h_prefix(pre, Ok((Seq::empty(), q))) == Ok::<(Seq<HexAtomView>, int), Seq<char>>((pre, q)),
{
    assert(pre + Seq::<HexAtomView>::empty() =~= pre);
}

proof fn lemma_atoms_view_push(s: Seq<HexAtom>, a: HexAtom)
    ensures
        hex_atoms_view(s.push(a)) == hex_atoms_view(s).push(hex_atom_view(a)),
{
    assert(s.push(a).drop_last() == s);
}

proof fn lemma_branches_view_len(s: Seq<Vec<HexAtom>>)
    ensures
        hex_branches_view(s).len() == s.len(),
    decreases s.len(),
{
    if s.len() > 0 {
        lemma_branches_view_len(s.drop_last());
    }
}

proof fn lemma_branches_view_push(s: Seq<Vec<HexAtom>>, b: Vec<HexAtom>)
    ensures
        hex_branches_view(s.push(b)) == hex_branches_view(s).push(hex_atoms_view(b@)),
{
    assert(s.push(b).drop_last() == s);
}

/// Parses the contents of a YARA hex string into a [`HexNode`].
///
/// # Arguments
///
/// * `hex_string` (`&str`) - the raw text between a hex string's braces,
///   e.g. `4D 5A ?? [4-6] ( AA | BB )`.
///
/// # Returns
///
/// Returns a [`HexNode`] containing both the parsed structure and the
/// original raw text.
///
/// # Errors
///
/// Returns an error if the hex string is malformed.
pub fn parse_hex_string(hex_string: &str) -> (r: Result<HexNode, String>)
    ensures
        result_view(r) == spec_parse_hex_string(hex_string@),
{
    let hex_tokens = match tokenize_hex(hex_string) {
        Ok(t) => t,
        Err(e) => {
            return Err(e);
        },
    };
    if hex_tokens.len() == 0 {
        proof {
            reveal_with_fuel(h_seq, 1);
        }
        return Ok(HexNode {
            expression: HexExprNode { atoms: Vec::new() },
            original_string: owned(hex_string),
        });
    }
    let mut hex_parser = HexAstParser::new(hex_tokens);
    let atoms = match hex_parser.parse_sequence() {
        Ok(a) => a,
        Err(e) => {
            return Err(e);
        },
    };
    if let Some(token) = hex_parser.peek() {
        let mut m = owned("Unexpected trailing token in hex string: ");
        let d = token.token_type.debug_string();
        m.append(d.as_str());
        return Err(m);
    }
    Ok(HexNode { expression: HexExprNode { atoms }, original_string: owned(hex_string) })
}

} // verus!
