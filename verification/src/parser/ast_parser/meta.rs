//! Parsing of YARA meta sections.
//!
//! The `meta` section contains key-value pairs that provide descriptive
//! information about a rule. This module converts metadata tokens into
//! collections of [`MetaEntryNode`] values.

use vstd::prelude::*;

use crate::parser::{
    ast_parser::{AstParser, a_expect, a_identifier, a_is_keyword, tok_at},
    syntax::{
        MetaEntryNode, MetaValue,
        meta::{MetaEntryView, MetaValueView},
    },
    token::{Token, TokenType, TokenTypeView},
};
use crate::text::owned;

verus! {

/// What parsing a meta value at `pos` gives: a string literal, a number, or
/// the keyword `true` or `false`.
pub open spec fn m_value(toks: Seq<Token>, pos: int) -> Result<(MetaValueView, int), Seq<char>> {
    match tok_at(toks, pos) {
        Some(TokenTypeView::StringLiteral(s)) => Ok((MetaValueView::String(s), pos + 1)),
        Some(TokenTypeView::Number(n)) => Ok((MetaValueView::Number(n), pos + 1)),
        Some(TokenTypeView::Keyword(k)) => if k == "true"@ {
            Ok((MetaValueView::Boolean(true), pos + 1))
        } else if k == "false"@ {
            Ok((MetaValueView::Boolean(false), pos + 1))
        } else {
            Err("Expected meta value"@)
        },
        _ => Err("Expected meta value"@),
    }
}

/// What parsing meta entries `key = value` from `pos` up to the keyword
/// `strings` gives, after the entries `acc`.
pub open spec fn m_entries(toks: Seq<Token>, pos: int, acc: Seq<MetaEntryView>) -> Result<
    (Seq<MetaEntryView>, int),
    Seq<char>,
>
    decreases toks.len() - pos,
{
    if a_is_keyword(toks, pos, "strings"@) {
        Ok((acc, pos))
    } else {
        match a_identifier(toks, pos) {
            Err(e) => Err(e),
            Ok((key, p1)) => match a_expect(toks, p1, TokenTypeView::Equals) {
                Err(e) => Err(e),
                Ok(p2) => match m_value(toks, p2) {
                    Err(e) => Err(e),
                    Ok((value, p3)) => if pos < p3 <= toks.len() {
                        m_entries(toks, p3, acc.push(MetaEntryView { key, value }))
                    } else {
                        Err(Seq::empty())
                    },
                },
            },
        }
    }
}

/// What [`parse_meta`] gives for the tokens `toks` read from `pos`.
pub open spec fn spec_parse_meta(toks: Seq<Token>, pos: int) -> Result<
    (Seq<MetaEntryView>, int),
    Seq<char>,
> {
    m_entries(toks, pos, Seq::empty())
}

/// Parsing meta entries never moves backwards, and stays within the tokens.
pub proof fn lemma_m_entries_pos(toks: Seq<Token>, pos: int, acc: Seq<MetaEntryView>)
    requires
        0 <= pos <= toks.len(),
    ensures
        m_entries(toks, pos, acc) matches Ok((_, q)) ==> pos <= q <= toks.len(),
    decreases toks.len() - pos,
{
    if !a_is_keyword(toks, pos, "strings"@) {
        if let Ok((key, p1)) = a_identifier(toks, pos) {
            if let Ok(p2) = a_expect(toks, p1, TokenTypeView::Equals) {
                if let Ok((value, p3)) = m_value(toks, p2) {
                    if pos < p3 <= toks.len() {
                        lemma_m_entries_pos(toks, p3, acc.push(MetaEntryView { key, value }));
                    }
                }
            }
        }
    }
}

/// Parses the `meta` section of a YARA rule.
///
/// This function consumes metadata entries until the beginning of the
/// `strings` section is encountered; the `strings` keyword itself is not
/// consumed. Each entry consists of an identifier key, an equals sign, and
/// a value: a string literal, a number, or `true`/`false`.
///
/// # Errors
///
/// Returns an error if:
/// - A metadata key is not a valid identifier.
/// - An equals sign is missing.
/// - A metadata value is not a supported type.
/// - The input ends unexpectedly while parsing metadata.
pub fn parse_meta(parser: &mut AstParser) -> (r: Result<Vec<MetaEntryNode>, String>)
    requires
        old(parser).wf(),
    ensures
        final(parser).wf(),
        final(parser).spec_tokens() == old(parser).spec_tokens(),
        match spec_parse_meta(old(parser).spec_tokens(), old(parser).spec_pos()) {
            Ok((v, p)) => r matches Ok(x) && x@.map_values(|m: MetaEntryNode| m@) == v
                && final(parser).spec_pos() == p,
            Err(m) => r matches Err(x) && x@ == m,
        },
{
    let mut meta_entries: Vec<MetaEntryNode> = Vec::new();
    let ghost toks = parser.spec_tokens();
    let ghost start = parser.spec_pos();
    assert(meta_entries@.map_values(|m: MetaEntryNode| m@) =~= Seq::<MetaEntryView>::empty());
    loop
        invariant
            parser.wf(),
            parser.spec_tokens() == toks,
            toks == old(parser).spec_tokens(),
            start == old(parser).spec_pos(),
            spec_parse_meta(toks, start) == m_entries(
                toks,
                parser.spec_pos(),
                meta_entries@.map_values(|m: MetaEntryNode| m@),
            ),
        ensures
            parser.wf(),
            parser.spec_tokens() == toks,
            spec_parse_meta(toks, start) == m_entries(
                toks,
                parser.spec_pos(),
                meta_entries@.map_values(|m: MetaEntryNode| m@),
            ),
            a_is_keyword(toks, parser.spec_pos(), "strings"@),
        decreases toks.len() - parser.spec_pos(),
    {
        if parser.peek_keyword("strings") {
            break;
        }
        let ghost p = parser.spec_pos();
        let key = match parser.expect_identifier() {
            Ok(k) => k,
            Err(e) => {
                return Err(e);
            },
        };
        match parser.expect(&TokenType::Equals) {
            Ok(()) => {},
            Err(e) => {
                return Err(e);
            },
        }
        let kind: u8 = match parser.peek() {
            Some(Token { token_type: TokenType::StringLiteral(_), .. }) => 0,
            Some(Token { token_type: TokenType::Number(_), .. }) => 1,
            _ => 2,
        };
        let value: MetaValue = if kind == 0 {
            match parser.expect_string_literal() {
                Ok(s) => MetaValue::String(s),
                Err(e) => {
                    return Err(e);
                },
            }
        } else if kind == 1 {
            match parser.expect_number() {
                Ok(n) => MetaValue::Number(n),
                Err(e) => {
                    return Err(e);
                },
            }
        } else if parser.peek_keyword("true") || parser.peek_keyword("false") {
            match parser.expect_boolean() {
                Ok(b) => MetaValue::Boolean(b),
                Err(e) => {
                    return Err(e);
                },
            }
        } else {
            return Err(owned("Expected meta value"));
        };
        let ghost before = meta_entries@;
        let entry = MetaEntryNode { key, value };
        meta_entries.push(entry);
        proof {
            assert(meta_entries@.map_values(|m: MetaEntryNode| m@) =~= before.map_values(
                |m: MetaEntryNode| m@,
            ).push(entry@));
        }
    }
    Ok(meta_entries)
}

} // verus!
