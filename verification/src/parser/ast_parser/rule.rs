//! Parsing of complete YARA rules and rule files.
//!
//! This module contains the entry point for AST construction. It
//! coordinates parsing of the `meta`, `strings`, and `condition`
//! sections and produces a complete [`RuleNode`] representation, and it
//! parses a whole file: its imports and its rules.

use vstd::prelude::*;

use crate::parser::{
    ast_parser::{
        AstParser, a_check, a_expect, a_identifier, a_is_keyword, a_keyword, a_string_literal,
        condition::{c_expr, lemma_c_expr_pos, parse_condition},
        meta::{lemma_m_entries_pos, parse_meta, spec_parse_meta},
        strings::{lemma_s_entries_pos, parse_strings, spec_parse_strings},
    },
    syntax::{
        ConditionNode, ExprNode, MetaEntryNode, StringNode,
        expr::ExprView,
        meta::MetaEntryView,
        rule::{RuleNode, RuleView},
        rule_file::{RuleFileNode, RuleFileView},
        strings::StringNodeView,
    },
    token::{Token, TokenType, TokenTypeView},
};

verus! {

/// What parsing an optional `meta:` section from `pos` gives.
pub open spec fn r_meta_section(toks: Seq<Token>, pos: int) -> Result<
    (Seq<MetaEntryView>, int),
    Seq<char>,
> {
    if a_is_keyword(toks, pos, "meta"@) {
        match a_expect(toks, pos + 1, TokenTypeView::Colon) {
            Err(e) => Err(e),
            Ok(q) => spec_parse_meta(toks, q),
        }
    } else {
        Ok((Seq::empty(), pos))
    }
}

/// What parsing an optional `strings:` section from `pos` gives.
pub open spec fn r_strings_section(toks: Seq<Token>, pos: int) -> Result<
    (Seq<StringNodeView>, int),
    Seq<char>,
> {
    if a_is_keyword(toks, pos, "strings"@) {
        match a_expect(toks, pos + 1, TokenTypeView::Colon) {
            Err(e) => Err(e),
            Ok(q) => spec_parse_strings(toks, q),
        }
    } else {
        Ok((Seq::empty(), pos))
    }
}

/// What parsing an optional `condition:` section from `pos` gives. The
/// colon after `condition` is consumed when present and passed over when
/// missing; a rule without a condition section gets an identifier with
/// empty text as its condition.
pub open spec fn r_condition_section(toks: Seq<Token>, pos: int) -> Result<(ExprView, int), Seq<char>> {
    if a_is_keyword(toks, pos, "condition"@) {
        let q = if a_check(toks, pos + 1, TokenTypeView::Colon) {
            pos + 2
        } else {
            pos + 1
        };
        match c_expr(toks, q) {
            Ok((e, p)) => Ok((e, p)),
            Err((m, _)) => Err(m),
        }
    } else {
        Ok((ExprView::Identifier(Seq::empty()), pos))
    }
}

/// What parsing the sections of a rule's body from `pos`, up to and
/// including its closing brace, gives, for a rule named `name`.
pub open spec fn r_body(toks: Seq<Token>, pos: int, name: Seq<char>) -> Result<
    (RuleView, int),
    Seq<char>,
> {
    match r_meta_section(toks, pos) {
        Err(e) => Err(e),
        Ok((meta, p4)) => match r_strings_section(toks, p4) {
            Err(e) => Err(e),
            Ok((strings, p5)) => match r_condition_section(toks, p5) {
                Err(e) => Err(e),
                Ok((condition, p6)) => match a_expect(toks, p6, TokenTypeView::RBrace) {
                    Err(e) => Err(e),
                    Ok(p7) => Ok(
                        (
                            RuleView {
                                name,
                                is_global: false,
                                is_private: false,
                                tags: Seq::empty(),
                                meta,
                                strings,
                                condition,
                            },
                            p7,
                        ),
                    ),
                },
            },
        },
    }
}

/// What parsing a rule `rule name { meta: ... strings: ... condition: ... }`
/// from `pos` gives. Each section is optional; they come in this order.
#[verifier::opaque]
pub open spec fn r_rule(toks: Seq<Token>, pos: int) -> Result<(RuleView, int), Seq<char>> {
    match a_keyword(toks, pos, "rule"@) {
        Err(e) => Err(e),
        Ok(p1) => match a_identifier(toks, p1) {
            Err(e) => Err(e),
            Ok((name, p2)) => match a_expect(toks, p2, TokenTypeView::LBrace) {
                Err(e) => Err(e),
                Ok(p3) => r_body(toks, p3, name),
            },
        },
    }
}

/// What parsing the rest of a file from `pos` gives, after the imports and
/// rules read so far: `import "module"` items and rules, to the end of the
/// tokens.
pub open spec fn f_items(
    toks: Seq<Token>,
    pos: int,
    imports: Seq<Seq<char>>,
    rules: Seq<RuleView>,
) -> Result<RuleFileView, Seq<char>>
    decreases toks.len() - pos,
{
    if pos < 0 || pos >= toks.len() {
        Ok(RuleFileView { imports, rules })
    } else if a_is_keyword(toks, pos, "import"@) {
        match a_string_literal(toks, pos + 1) {
            Err(e) => Err(e),
            Ok((module, q)) => if pos < q <= toks.len() {
                f_items(toks, q, imports.push(module), rules)
            } else {
                Err(Seq::empty())
            },
        }
    } else {
        match r_rule(toks, pos) {
            Err(e) => Err(e),
            Ok((rule, q)) => if pos < q <= toks.len() {
                f_items(toks, q, imports, rules.push(rule))
            } else {
                Err(Seq::empty())
            },
        }
    }
}

/// What parsing a whole file's tokens gives.
pub open spec fn spec_parse_rule_file(toks: Seq<Token>) -> Result<RuleFileView, Seq<char>> {
    f_items(toks, 0, Seq::empty(), Seq::empty())
}

/// A rule, when it parses, consumes at least its `rule` keyword and stays
/// within the tokens.
pub proof fn lemma_r_rule_pos(toks: Seq<Token>, pos: int)
    requires
        0 <= pos <= toks.len(),
    ensures
        r_rule(toks, pos) matches Ok((_, q)) ==> pos < q <= toks.len(),
{
    reveal(r_rule);
    if let Ok(p1) = a_keyword(toks, pos, "rule"@) {
        if let Ok((name, p2)) = a_identifier(toks, p1) {
            if let Ok(p3) = a_expect(toks, p2, TokenTypeView::LBrace) {
                if a_is_keyword(toks, p3, "meta"@) {
                    if let Ok(q) = a_expect(toks, p3 + 1, TokenTypeView::Colon) {
                        lemma_m_entries_pos(toks, q, Seq::empty());
                    }
                }
                assert(r_rule(toks, pos) == r_body(toks, p3, name));
                if let Ok((meta, p4)) = r_meta_section(toks, p3) {
                    if a_is_keyword(toks, p4, "strings"@) {
                        if let Ok(q) = a_expect(toks, p4 + 1, TokenTypeView::Colon) {
                            lemma_s_entries_pos(toks, q, Seq::empty());
                        }
                    }
                    if let Ok((strings, p5)) = r_strings_section(toks, p4) {
                        if a_is_keyword(toks, p5, "condition"@) {
                            let q = if a_check(toks, p5 + 1, TokenTypeView::Colon) {
                                p5 + 2
                            } else {
                                p5 + 1
                            };
                            lemma_c_expr_pos(toks, q);
                        }
                    }
                }
            }
        }
    }
}

/// Parses an optional `meta:` section.
fn parse_meta_section(parser: &mut AstParser) -> (r: Result<Vec<MetaEntryNode>, String>)
    requires
        old(parser).wf(),
    ensures
        final(parser).wf(),
        final(parser).spec_tokens() == old(parser).spec_tokens(),
        match r_meta_section(old(parser).spec_tokens(), old(parser).spec_pos()) {
            Ok((v, p)) => r matches Ok(x) && x@.map_values(|m: MetaEntryNode| m@) == v
                && final(parser).spec_pos() == p,
            Err(m) => r matches Err(x) && x@ == m,
        },
{
    if parser.peek_keyword("meta") {
        parser.advance();
        match parser.expect(&TokenType::Colon) {
            Ok(()) => {},
            Err(e) => {
                return Err(e);
            },
        }
        parse_meta(parser)
    } else {
        let meta: Vec<MetaEntryNode> = Vec::new();
        assert(meta@.map_values(|m: MetaEntryNode| m@) =~= Seq::<MetaEntryView>::empty());
        Ok(meta)
    }
}

/// Parses an optional `strings:` section.
fn parse_strings_section(parser: &mut AstParser) -> (r: Result<Vec<StringNode>, String>)
    requires
        old(parser).wf(),
    ensures
        final(parser).wf(),
        final(parser).spec_tokens() == old(parser).spec_tokens(),
        match r_strings_section(old(parser).spec_tokens(), old(parser).spec_pos()) {
            Ok((v, p)) => r matches Ok(x) && x@.map_values(|s: StringNode| s@) == v
                && final(parser).spec_pos() == p,
            Err(m) => r matches Err(x) && x@ == m,
        },
{
    if parser.peek_keyword("strings") {
        parser.advance();
        match parser.expect(&TokenType::Colon) {
            Ok(()) => {},
            Err(e) => {
                return Err(e);
            },
        }
        parse_strings(parser)
    } else {
        let strings: Vec<StringNode> = Vec::new();
        assert(strings@.map_values(|s: StringNode| s@) =~= Seq::<StringNodeView>::empty());
        Ok(strings)
    }
}

/// Parses an optional `condition:` section.
fn parse_condition_section(parser: &mut AstParser) -> (r: Result<ConditionNode, String>)
    requires
        old(parser).wf(),
    ensures
        final(parser).wf(),
        final(parser).spec_tokens() == old(parser).spec_tokens(),
        match r_condition_section(old(parser).spec_tokens(), old(parser).spec_pos()) {
            Ok((v, p)) => r matches Ok(x) && x.expression@ == v && final(parser).spec_pos() == p,
            Err(m) => r matches Err(x) && x@ == m,
        },
{
    if parser.peek_keyword("condition") {
        parser.advance();
        // A missing colon after `condition` is passed over.
        let _ = parser.expect(&TokenType::Colon);
        parse_condition(parser)
    } else {
        Ok(ConditionNode { expression: ExprNode::Identifier(String::new()) })
    }
}

/// Parses the sections of a rule's body, and its closing brace.
fn parse_rule_body(parser: &mut AstParser, name: String) -> (r: Result<RuleNode, String>)
    requires
        old(parser).wf(),
    ensures
        final(parser).wf(),
        final(parser).spec_tokens() == old(parser).spec_tokens(),
        match r_body(old(parser).spec_tokens(), old(parser).spec_pos(), name@) {
            Ok((v, p)) => r matches Ok(x) && x@ == v && final(parser).spec_pos() == p,
            Err(m) => r matches Err(x) && x@ == m,
        },
{
    let meta = match parse_meta_section(parser) {
        Ok(m) => m,
        Err(e) => {
            return Err(e);
        },
    };
    let strings = match parse_strings_section(parser) {
        Ok(s) => s,
        Err(e) => {
            return Err(e);
        },
    };
    let condition = match parse_condition_section(parser) {
        Ok(c) => c,
        Err(e) => {
            return Err(e);
        },
    };
    match parser.expect(&TokenType::RBrace) {
        Ok(()) => {},
        Err(e) => {
            return Err(e);
        },
    }
    let rule = RuleNode {
        name,
        is_global: false,
        is_private: false,
        tags: Vec::new(),
        meta,
        strings,
        condition,
    };
    proof {
        assert(rule.tags@.map_values(|t: String| t@) =~= Seq::<Seq<char>>::empty());
    }
    Ok(rule)
}

/// Parses one rule at the parser's position.
fn parse_rule_at(parser: &mut AstParser) -> (r: Result<RuleNode, String>)
    requires
        old(parser).wf(),
    ensures
        final(parser).wf(),
        final(parser).spec_tokens() == old(parser).spec_tokens(),
        match r_rule(old(parser).spec_tokens(), old(parser).spec_pos()) {
            Ok((v, p)) => r matches Ok(x) && x@ == v && final(parser).spec_pos() == p,
            Err(m) => r matches Err(x) && x@ == m,
        },
{
    reveal(r_rule);
    match parser.expect_keyword("rule") {
        Ok(()) => {},
        Err(e) => {
            return Err(e);
        },
    }
    let name = match parser.expect_identifier() {
        Ok(n) => n,
        Err(e) => {
            return Err(e);
        },
    };
    match parser.expect(&TokenType::LBrace) {
        Ok(()) => {},
        Err(e) => {
            return Err(e);
        },
    }
    parse_rule_body(parser, name)
}

/// Parses a single YARA rule from `tokens`: the keyword `rule`, the rule's
/// name, and a body in braces holding optional `meta:`, `strings:` and
/// `condition:` sections, in that order. Tokens after the closing brace
/// are left unread.
///
/// # Errors
///
/// Returns an error when a section is malformed, or when a keyword, the
/// name or a brace is missing.
pub fn parse_rule(tokens: Vec<Token>) -> (r: Result<RuleNode, String>)
    ensures
        match r_rule(tokens@, 0) {
            Ok((v, _)) => r matches Ok(x) && x@ == v,
            Err(m) => r matches Err(x) && x@ == m,
        },
{
    let mut parser = AstParser::new(tokens);
    parse_rule_at(&mut parser)
}

/// Parses `import "module"` and returns the module's name.
fn parse_import(parser: &mut AstParser) -> (r: Result<String, String>)
    requires
        old(parser).wf(),
        a_is_keyword(old(parser).spec_tokens(), old(parser).spec_pos(), "import"@),
    ensures
        final(parser).wf(),
        final(parser).spec_tokens() == old(parser).spec_tokens(),
        match a_string_literal(old(parser).spec_tokens(), old(parser).spec_pos() + 1) {
            Ok((v, p)) => r matches Ok(x) && x@ == v && final(parser).spec_pos() == p,
            Err(m) => r matches Err(x) && x@ == m,
        },
{
    parser.advance();
    parser.expect_string_literal()
}

impl AstParser {
    /// Parses a whole YARA file: `import "module"` items and rules, until
    /// the tokens run out. The tokens are handed back with the file, so
    /// that token-aware cops can use them without lexing the file again.
    ///
    /// # Errors
    ///
    /// Returns the first error met while parsing an import or a rule.
    pub fn parse_rule_file_with_tokens(parser: AstParser) -> (r: Result<
        (RuleFileNode, Vec<Token>),
        String,
    >)
        requires
            parser.wf(),
        ensures
            match f_items(
                parser.spec_tokens(),
                parser.spec_pos(),
                Seq::empty(),
                Seq::empty(),
            ) {
                Ok(v) => r matches Ok((file, toks)) && file@ == v && toks@
                    == parser.spec_tokens(),
                Err(m) => r matches Err(x) && x@ == m,
            },
    {
        let mut parser = parser;
        let ghost toks = parser.spec_tokens();
        let ghost start = parser.spec_pos();
        let mut imports: Vec<String> = Vec::new();
        let mut rules: Vec<RuleNode> = Vec::new();
        proof {
            assert(imports@.map_values(|t: String| t@) =~= Seq::<Seq<char>>::empty());
            assert(rules@.map_values(|t: RuleNode| t@) =~= Seq::<RuleView>::empty());
        }
        #[verifier::loop_isolation(false)]
        while parser.peek().is_some()
            invariant
                parser.wf(),
                parser.spec_tokens() == toks,
                f_items(toks, start, Seq::empty(), Seq::empty()) == f_items(
                    toks,
                    parser.spec_pos(),
                    imports@.map_values(|t: String| t@),
                    rules@.map_values(|t: RuleNode| t@),
                ),
            decreases toks.len() - parser.spec_pos(),
        {
            let ghost p = parser.spec_pos();
            if parser.peek_keyword("import") {
                let module = match parse_import(&mut parser) {
                    Ok(m) => m,
                    Err(e) => {
                        return Err(e);
                    },
                };
                let ghost before = imports@;
                imports.push(module);
                proof {
                    assert(imports@.map_values(|t: String| t@) =~= before.map_values(
                        |t: String| t@,
                    ).push(module@));
                }
            } else {
                proof {
                    lemma_r_rule_pos(toks, p);
                }
                let rule = match parse_rule_at(&mut parser) {
                    Ok(r) => r,
                    Err(e) => {
                        return Err(e);
                    },
                };
                let ghost before = rules@;
                rules.push(rule);
                proof {
                    assert(rules@.map_values(|t: RuleNode| t@) =~= before.map_values(
                        |t: RuleNode| t@,
                    ).push(rule@));
                }
            }
        }
        let file = RuleFileNode { imports, rules };
        Ok((file, parser.into_tokens()))
    }
}

} // verus!
