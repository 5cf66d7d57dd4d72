//! Parsing of YARA string definitions.
//!
//! This module parses string declarations and their associated
//! modifiers, producing [`StringNode`] values suitable for AST
//! construction and later analysis.

use vstd::prelude::*;

use crate::parser::{
    ast_parser::{AstParser, a_expect, a_is_keyword, a_string_identifier, a_string_literal, tok_at},
    syntax::{
        StringModifier, StringNode,
        strings::{StringNodeView, StringType, StringTypeView},
    },
    token::{Token, TokenType, TokenTypeView},
};

verus! {

/// The modifier a token stands for, if any: the keywords `wide`, `ascii`,
/// `fullword`, `nocase`, `xor`, `base64` and `base64wide`.
pub open spec fn modifier_of(t: Option<TokenTypeView>) -> Option<StringModifier> {
    match t {
        Some(TokenTypeView::Keyword(k)) => if k == "wide"@ {
            Some(StringModifier::Wide)
        } else if k == "ascii"@ {
            Some(StringModifier::Ascii)
        } else if k == "fullword"@ {
            Some(StringModifier::Fullword)
        } else if k == "nocase"@ {
            Some(StringModifier::Nocase)
        } else if k == "xor"@ {
            Some(StringModifier::Xor)
        } else if k == "base64"@ {
            Some(StringModifier::Base64)
        } else if k == "base64wide"@ {
            Some(StringModifier::Base64Wide)
        } else {
            None
        },
        _ => None,
    }
}

/// The run of modifiers from `pos`: the modifiers, and the position after
/// them.
pub open spec fn s_modifiers(toks: Seq<Token>, pos: int) -> (Seq<StringModifier>, int)
    decreases toks.len() - pos,
{
    match modifier_of(tok_at(toks, pos)) {
        Some(m) => {
            let (rest, q) = s_modifiers(toks, pos + 1);
            (seq![m] + rest, q)
        },
        None => (Seq::empty(), pos),
    }
}

/// What parsing string declarations `$id = "text" modifiers` from `pos` up
/// to the keyword `condition` gives, after the declarations `acc`.
pub open spec fn s_entries(toks: Seq<Token>, pos: int, acc: Seq<StringNodeView>) -> Result<
    (Seq<StringNodeView>, int),
    Seq<char>,
>
    decreases toks.len() - pos,
{
    if a_is_keyword(toks, pos, "condition"@) {
        Ok((acc, pos))
    } else {
        match a_string_identifier(toks, pos) {
            Err(e) => Err(e),
            Ok((identifier, p1)) => match a_expect(toks, p1, TokenTypeView::Equals) {
                Err(e) => Err(e),
                Ok(p2) => match a_string_literal(toks, p2) {
                    Err(e) => Err(e),
                    Ok((text, p3)) => {
                        let (modifiers, p4) = s_modifiers(toks, p3);
                        if pos < p4 <= toks.len() {
                            s_entries(
                                toks,
                                p4,
                                acc.push(
                                    StringNodeView {
                                        identifier,
                                        value: StringTypeView::Text(text),
                                        modifiers,
                                    },
                                ),
                            )
                        } else {
                            Err(Seq::empty())
                        }
                    },
                },
            },
        }
    }
}

/// What [`parse_strings`] gives for the tokens `toks` read from `pos`.
pub open spec fn spec_parse_strings(toks: Seq<Token>, pos: int) -> Result<
    (Seq<StringNodeView>, int),
    Seq<char>,
> {
    s_entries(toks, pos, Seq::empty())
}

proof fn lemma_s_modifiers_pos(toks: Seq<Token>, pos: int)
    requires
        0 <= pos <= toks.len(),
    ensures
        pos <= s_modifiers(toks, pos).1 <= toks.len(),
    decreases toks.len() - pos,
{
    if modifier_of(tok_at(toks, pos)) is Some {
        lemma_s_modifiers_pos(toks, pos + 1);
    }
}

/// Parsing string declarations never moves backwards, and stays within the
/// tokens.
pub proof fn lemma_s_entries_pos(toks: Seq<Token>, pos: int, acc: Seq<StringNodeView>)
    requires
        0 <= pos <= toks.len(),
    ensures
        s_entries(toks, pos, acc) matches Ok((_, q)) ==> pos <= q <= toks.len(),
    decreases toks.len() - pos,
{
    if !a_is_keyword(toks, pos, "condition"@) {
        if let Ok((identifier, p1)) = a_string_identifier(toks, pos) {
            if let Ok(p2) = a_expect(toks, p1, TokenTypeView::Equals) {
                if let Ok((text, p3)) = a_string_literal(toks, p2) {
                    let (modifiers, p4) = s_modifiers(toks, p3);
                    if pos < p4 <= toks.len() {
                        lemma_s_entries_pos(
                            toks,
                            p4,
                            acc.push(
                                StringNodeView {
                                    identifier,
                                    value: StringTypeView::Text(text),
                                    modifiers,
                                },
                            ),
                        );
                    }
                }
            }
        }
    }
}

/// The modifier the current token stands for, if any.
fn peek_modifier(parser: &AstParser) -> (r: Option<StringModifier>)
    requires
        parser.wf(),
    ensures
        r == modifier_of(tok_at(parser.spec_tokens(), parser.spec_pos())),
{
    if parser.peek_keyword("wide") {
        Some(StringModifier::Wide)
    } else if parser.peek_keyword("ascii") {
        Some(StringModifier::Ascii)
    } else if parser.peek_keyword("fullword") {
        Some(StringModifier::Fullword)
    } else if parser.peek_keyword("nocase") {
        Some(StringModifier::Nocase)
    } else if parser.peek_keyword("xor") {
        Some(StringModifier::Xor)
    } else if parser.peek_keyword("base64") {
        Some(StringModifier::Base64)
    } else if parser.peek_keyword("base64wide") {
        Some(StringModifier::Base64Wide)
    } else {
        None
    }
}

/// Parses the `strings` section of a YARA rule.
///
/// This function consumes string declarations until the beginning of
/// the `condition` section is encountered; the `condition` keyword itself
/// is not consumed. Each string declaration consists of a string
/// identifier, an equals sign, a string literal, and zero or more string
/// modifiers: `wide`, `ascii`, `fullword`, `nocase`, `xor`, `base64`,
/// `base64wide`.
///
/// # Errors
///
/// Returns an error if:
/// - A string identifier is missing or malformed.
/// - An equals sign is missing.
/// - A string literal is missing or invalid.
/// - The input ends unexpectedly while parsing string declarations.
pub fn parse_strings(parser: &mut AstParser) -> (r: Result<Vec<StringNode>, String>)
    requires
        old(parser).wf(),
    ensures
        final(parser).wf(),
        final(parser).spec_tokens() == old(parser).spec_tokens(),
        match spec_parse_strings(old(parser).spec_tokens(), old(parser).spec_pos()) {
            Ok((v, p)) => r matches Ok(x) && x@.map_values(|s: StringNode| s@) == v
                && final(parser).spec_pos() == p,
            Err(m) => r matches Err(x) && x@ == m,
        },
{
    let mut strings: Vec<StringNode> = Vec::new();
    let ghost toks = parser.spec_tokens();
    let ghost start = parser.spec_pos();
    assert(strings@.map_values(|s: StringNode| s@) =~= Seq::<StringNodeView>::empty());
    loop
        invariant
            parser.wf(),
            parser.spec_tokens() == toks,
            toks == old(parser).spec_tokens(),
            start == old(parser).spec_pos(),
            spec_parse_strings(toks, start) == s_entries(
                toks,
                parser.spec_pos(),
                strings@.map_values(|s: StringNode| s@),
            ),
        ensures
            parser.wf(),
            parser.spec_tokens() == toks,
            spec_parse_strings(toks, start) == s_entries(
                toks,
                parser.spec_pos(),
                strings@.map_values(|s: StringNode| s@),
            ),
            a_is_keyword(toks, parser.spec_pos(), "condition"@),
        decreases toks.len() - parser.spec_pos(),
    {
        if parser.peek_keyword("condition") {
            break;
        }
        let ghost p = parser.spec_pos();
        let identifier = match parser.expect_string_identifier() {
            Ok(i) => i,
            Err(e) => {
                return Err(e);
            },
        };
        match parser.expect(&TokenType::Equals) {
            Ok(()) => {},
            Err(e) => {
                return Err(e);
            },
        }
        let value = match parser.expect_string_literal() {
            Ok(v) => v,
            Err(e) => {
                return Err(e);
            },
        };
        let ghost p3 = parser.spec_pos();
        let mut modifiers: Vec<StringModifier> = Vec::new();
        proof {
            lemma_s_modifiers_pos(toks, p3);
            assert(modifiers@ + s_modifiers(toks, p3).0 =~= s_modifiers(toks, p3).0);
        }
        loop
            invariant
                parser.wf(),
                parser.spec_tokens() == toks,
                p3 <= parser.spec_pos() <= toks.len(),
                s_modifiers(toks, p3) == (
                    modifiers@ + s_modifiers(toks, parser.spec_pos()).0,
                    s_modifiers(toks, parser.spec_pos()).1,
                ),
            ensures
                parser.wf(),
                parser.spec_tokens() == toks,
                s_modifiers(toks, p3) == (modifiers@, parser.spec_pos()),
            decreases toks.len() - parser.spec_pos(),
        {
            let ghost q = parser.spec_pos();
            match peek_modifier(parser) {
                Some(m) => {
                    let ghost before = modifiers@;
                    parser.advance();
                    modifiers.push(m);
                    proof {
                        let (rest, q2) = s_modifiers(toks, q + 1);
                        assert(before + (seq![m] + rest) =~= modifiers@ + rest);
                    }
                },
                None => {
                    proof {
                        assert(modifiers@ + Seq::<StringModifier>::empty() =~= modifiers@);
                    }
                    break;
                },
            }
        }
        let ghost before = strings@;
        let node = StringNode { identifier, value: StringType::Text(value), modifiers };
        strings.push(node);
        proof {
            assert(strings@.map_values(|s: StringNode| s@) =~= before.map_values(
                |s: StringNode| s@,
            ).push(node@));
        }
    }
    Ok(strings)
}

} // verus!
