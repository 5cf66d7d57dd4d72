//! Parsing of YARA condition blocks.
//!
//! This module converts tokens from a `condition:` section into
//! expression trees represented by [`ConditionNode`] and [`ExprNode`].
//! It implements operator precedence and grouping semantics used by
//! YARA condition expressions: `or` binds loosest, then `and`, then the
//! comparisons `==`, `<`, `>`, `<=`, `>=`; each level associates to the
//! left.

use vstd::prelude::*;

use crate::parser::{
    ast_parser::{
        AstParser, a_advanced, a_check, a_expect, a_identifier, a_is_keyword, a_keyword, a_string_identifier,
        eof_message, tok_at,
    },
    syntax::{
        BinaryOperator, ConditionNode, ExprNode,
        expr::{ExprView, expr_view, exprs_view},
    },
    token::{Token, TokenType, TokenTypeView, token_type_debug},
};
use crate::text::owned;

verus! {

/// The result of parsing an expression from a position: the tree and the
/// position after it, or the error message and the position the parser
/// stops at.
pub type ExprParse = Result<(ExprView, int), (Seq<char>, int)>;

/// The result of parsing an argument list.
pub type ArgsParse = Result<(Seq<ExprView>, int), (Seq<char>, int)>;

/// The binary tree `left op right`.
pub open spec fn bin(left: ExprView, op: BinaryOperator, right: ExprView) -> ExprView {
    ExprView::Binary { left: Box::new(left), operator: op, right: Box::new(right) }
}

/// The comparison operator a token stands for, if any.
pub open spec fn comparison_operator(t: Option<TokenTypeView>) -> Option<BinaryOperator> {
    match t {
        Some(TokenTypeView::EqualsEquals) => Some(BinaryOperator::Equals),
        Some(TokenTypeView::LThan) => Some(BinaryOperator::LessThan),
        Some(TokenTypeView::GThan) => Some(BinaryOperator::GreaterThan),
        Some(TokenTypeView::LEThan) => Some(BinaryOperator::LessThanEqual),
        Some(TokenTypeView::GEThan) => Some(BinaryOperator::GreaterThanEqual),
        _ => None,
    }
}

/// What parsing an expression from `pos` gives: a chain of `and`
/// expressions joined by `or`, grouped to the left.
pub open spec fn c_or(toks: Seq<Token>, pos: int) -> ExprParse
    decreases toks.len() - pos, 4int,
{
    match c_and(toks, pos) {
        Err(e) => Err(e),
        Ok((left, q)) => if pos < q <= toks.len() {
            c_or_rest(toks, q, left)
        } else {
            Err((Seq::empty(), pos))
        },
    }
}

/// Further `or` operands from `pos`, after the expression `left`.
pub open spec fn c_or_rest(toks: Seq<Token>, pos: int, left: ExprView) -> ExprParse
    decreases toks.len() - pos, 0int,
{
    if a_is_keyword(toks, pos, "or"@) {
        match c_and(toks, pos + 1) {
            Err(e) => Err(e),
            Ok((right, q)) => if pos < q <= toks.len() {
                c_or_rest(toks, q, bin(left, BinaryOperator::Or, right))
            } else {
                Err((Seq::empty(), pos))
            },
        }
    } else {
        Ok((left, pos))
    }
}

/// What parsing a chain of comparisons joined by `and` from `pos` gives,
/// grouped to the left.
pub open spec fn c_and(toks: Seq<Token>, pos: int) -> ExprParse
    decreases toks.len() - pos, 3int,
{
    match c_cmp(toks, pos) {
        Err(e) => Err(e),
        Ok((left, q)) => if pos < q <= toks.len() {
            c_and_rest(toks, q, left)
        } else {
            Err((Seq::empty(), pos))
        },
    }
}

/// Further `and` operands from `pos`, after the expression `left`.
pub open spec fn c_and_rest(toks: Seq<Token>, pos: int, left: ExprView) -> ExprParse
    decreases toks.len() - pos, 0int,
{
    if a_is_keyword(toks, pos, "and"@) {
        match c_cmp(toks, pos + 1) {
            Err(e) => Err(e),
            Ok((right, q)) => if pos < q <= toks.len() {
                c_and_rest(toks, q, bin(left, BinaryOperator::And, right))
            } else {
                Err((Seq::empty(), pos))
            },
        }
    } else {
        Ok((left, pos))
    }
}

/// What parsing a chain of primaries joined by comparison operators from
/// `pos` gives, grouped to the left.
pub open spec fn c_cmp(toks: Seq<Token>, pos: int) -> ExprParse
    decreases toks.len() - pos, 2int,
{
    match c_primary(toks, pos) {
        Err(e) => Err(e),
        Ok((left, q)) => if pos < q <= toks.len() {
            c_cmp_rest(toks, q, left)
        } else {
            Err((Seq::empty(), pos))
        },
    }
}

/// Further comparison operands from `pos`, after the expression `left`.
pub open spec fn c_cmp_rest(toks: Seq<Token>, pos: int, left: ExprView) -> ExprParse
    decreases toks.len() - pos, 0int,
{
    match comparison_operator(tok_at(toks, pos)) {
        Some(op) => match c_primary(toks, pos + 1) {
            Err(e) => Err(e),
            Ok((right, q)) => if pos < q <= toks.len() {
                c_cmp_rest(toks, q, bin(left, op, right))
            } else {
                Err((Seq::empty(), pos))
            },
        },
        None => Ok((left, pos)),
    }
}

/// What parsing `( $prefix * )` from `pos` gives: the string identifier.
pub open spec fn c_pattern(toks: Seq<Token>, pos: int) -> Result<
    (Seq<char>, int),
    (Seq<char>, int),
> {
    match a_expect(toks, pos, TokenTypeView::LParen) {
        Err(e) => Err((e, pos)),
        Ok(p1) => match a_string_identifier(toks, p1) {
            Err(e) => Err((e, a_advanced(toks, p1))),
            Ok((pattern, p2)) => match a_expect(toks, p2, TokenTypeView::Star) {
                Err(e) => Err((e, p2)),
                Ok(p3) => match a_expect(toks, p3, TokenTypeView::RParen) {
                    Err(e) => Err((e, p3)),
                    Ok(p4) => Ok((pattern, p4)),
                },
            },
        },
    }
}

/// What parsing an argument list from `pos` up to, not including, its
/// closing `)` gives, after the arguments `acc`. Arguments may be separated
/// by commas.
pub open spec fn c_args(toks: Seq<Token>, pos: int, acc: Seq<ExprView>) -> ArgsParse
    decreases toks.len() - pos, 5int,
{
    if a_check(toks, pos, TokenTypeView::RParen) {
        Ok((acc, pos))
    } else {
        match c_or(toks, pos) {
            Err(e) => Err(e),
            Ok((arg, q)) => if pos < q <= toks.len() {
                let q2 = if a_check(toks, q, TokenTypeView::Comma) {
                    q + 1
                } else {
                    q
                };
                c_args(toks, q2, acc.push(arg))
            } else {
                Err((Seq::empty(), pos))
            },
        }
    }
}

/// What parsing `( arguments )` from `pos`, the position of its `(`, gives.
pub open spec fn c_call_args(toks: Seq<Token>, pos: int) -> ArgsParse
    decreases toks.len() - pos, 0int,
{
    match a_expect(toks, pos, TokenTypeView::LParen) {
        Err(e) => Err((e, pos)),
        Ok(p1) => if pos < p1 <= toks.len() {
            match c_args(toks, p1, Seq::empty()) {
                Err(e) => Err(e),
                Ok((args, p2)) => match a_expect(toks, p2, TokenTypeView::RParen) {
                    Err(e) => Err((e, p2)),
                    Ok(p3) => Ok((args, p3)),
                },
            }
        } else {
            Err((Seq::empty(), pos))
        },
    }
}

/// What parsing a primary expression from `pos` gives: a number, possibly
/// counting strings (`2 of them`, `2 of ($s*)`); a string literal; a string
/// identifier; an identifier, a function call or a module function call; a
/// parenthesized expression, which stands for itself; or `all of them` /
/// `all of ($s*)`.
pub open spec fn c_primary(toks: Seq<Token>, pos: int) -> ExprParse
    decreases toks.len() - pos, 1int,
{
    match tok_at(toks, pos) {
        None => Err((eof_message(), pos)),
        Some(TokenTypeView::Number(n)) => {
            let p = pos + 1;
            if a_is_keyword(toks, p, "of"@) {
                if a_is_keyword(toks, p + 1, "them"@) {
                    Ok((ExprView::Of { count: Box::new(ExprView::Number(n)), pattern: "them"@ }, p + 2))
                } else {
                    match c_pattern(toks, p + 1) {
                        Err(e) => Err(e),
                        Ok((pattern, q)) => Ok(
                            (ExprView::Of { count: Box::new(ExprView::Number(n)), pattern }, q),
                        ),
                    }
                }
            } else {
                Ok((ExprView::Number(n), p))
            }
        },
        Some(TokenTypeView::StringLiteral(s)) => Ok((ExprView::StringLiteral(s), pos + 1)),
        Some(TokenTypeView::StringIdentifier(s)) => Ok((ExprView::Identifier(s), pos + 1)),
        Some(TokenTypeView::Identifier(ident)) => {
            let p = pos + 1;
            if a_check(toks, p, TokenTypeView::Dot) {
                match a_identifier(toks, p + 1) {
                    Err(e) => Err((e, a_advanced(toks, p + 1))),
                    Ok((function, p2)) => if pos < p2 <= toks.len() {
                        match c_call_args(toks, p2) {
                            Err(e) => Err(e),
                            Ok((arguments, p3)) => Ok(
                                (ExprView::ModuleFunction { module: ident, function, arguments }, p3),
                            ),
                        }
                    } else {
                        Err((Seq::empty(), pos))
                    },
                }
            } else if a_check(toks, p, TokenTypeView::LParen) {
                match c_call_args(toks, p) {
                    Err(e) => Err(e),
                    Ok((arguments, p3)) => Ok(
                        (ExprView::FunctionCall { name: ident, arguments }, p3),
                    ),
                }
            } else {
                Ok((ExprView::Identifier(ident), p))
            }
        },
        Some(TokenTypeView::LParen) => match c_or(toks, pos + 1) {
            Err(e) => Err(e),
            Ok((e, q)) => match a_expect(toks, q, TokenTypeView::RParen) {
                Err(m) => Err((m, q)),
                Ok(q2) => Ok((e, q2)),
            },
        },
        Some(TokenTypeView::Keyword(k)) => if k == "all"@ {
            match a_keyword(toks, pos + 1, "of"@) {
                Err(e) => Err((e, a_advanced(toks, pos + 1))),
                Ok(p2) => if a_is_keyword(toks, p2, "them"@) {
                    Ok((ExprView::AllOfThem, p2 + 1))
                } else {
                    match c_pattern(toks, p2) {
                        Err(e) => Err(e),
                        Ok((pattern, q)) => Ok((ExprView::AllOf { pattern }, q)),
                    }
                },
            }
        } else {
            Err(("Unexpected token "@ + token_type_debug(TokenTypeView::Keyword(k)), pos))
        },
        Some(t) => Err(("Unexpected token "@ + token_type_debug(t), pos)),
    }
}

/// What [`parse_condition`] and [`parse_expr`] give for the tokens `toks`
/// read from `pos`.
pub open spec fn c_expr(toks: Seq<Token>, pos: int) -> ExprParse {
    c_or(toks, pos)
}

/// An expression, when it parses, consumes at least one token and stays
/// within the tokens.
pub proof fn lemma_c_expr_pos(toks: Seq<Token>, pos: int)
    requires
        0 <= pos <= toks.len(),
    ensures
        c_expr(toks, pos) matches Ok((_, q)) ==> pos < q <= toks.len(),
{
    lemma_c_or_pos(toks, pos);
}

/// Positions only move forward, and stay within the tokens.
proof fn lemma_c_or_pos(toks: Seq<Token>, pos: int)
    requires
        0 <= pos <= toks.len(),
    ensures
        c_or(toks, pos) matches Ok((_, q)) ==> pos < q <= toks.len(),
    decreases toks.len() - pos, 4int,
{
    lemma_c_and_pos(toks, pos);
    if let Ok((left, q)) = c_and(toks, pos) {
        lemma_c_or_rest_pos(toks, q, left);
    }
}

proof fn lemma_c_or_rest_pos(toks: Seq<Token>, pos: int, left: ExprView)
    requires
        0 <= pos <= toks.len(),
    ensures
        c_or_rest(toks, pos, left) matches Ok((_, q)) ==> pos <= q <= toks.len(),
    decreases toks.len() - pos, 0int,
{
    if a_is_keyword(toks, pos, "or"@) {
        lemma_c_and_pos(toks, pos + 1);
        if let Ok((right, q)) = c_and(toks, pos + 1) {
            lemma_c_or_rest_pos(toks, q, bin(left, BinaryOperator::Or, right));
        }
    }
}

proof fn lemma_c_and_pos(toks: Seq<Token>, pos: int)
    requires
        0 <= pos <= toks.len(),
    ensures
        c_and(toks, pos) matches Ok((_, q)) ==> pos < q <= toks.len(),
    decreases toks.len() - pos, 3int,
{
    lemma_c_cmp_pos(toks, pos);
    if let Ok((left, q)) = c_cmp(toks, pos) {
        lemma_c_and_rest_pos(toks, q, left);
    }
}

proof fn lemma_c_and_rest_pos(toks: Seq<Token>, pos: int, left: ExprView)
    requires
        0 <= pos <= toks.len(),
    ensures
        c_and_rest(toks, pos, left) matches Ok((_, q)) ==> pos <= q <= toks.len(),
    decreases toks.len() - pos, 0int,
{
    if a_is_keyword(toks, pos, "and"@) {
        lemma_c_cmp_pos(toks, pos + 1);
        if let Ok((right, q)) = c_cmp(toks, pos + 1) {
            lemma_c_and_rest_pos(toks, q, bin(left, BinaryOperator::And, right));
        }
    }
}

proof fn lemma_c_cmp_pos(toks: Seq<Token>, pos: int)
    requires
        0 <= pos <= toks.len(),
    ensures
        c_cmp(toks, pos) matches Ok((_, q)) ==> pos < q <= toks.len(),
    decreases toks.len() - pos, 2int,
{
    lemma_c_primary_pos(toks, pos);
    if let Ok((left, q)) = c_primary(toks, pos) {
        lemma_c_cmp_rest_pos(toks, q, left);
    }
}

proof fn lemma_c_cmp_rest_pos(toks: Seq<Token>, pos: int, left: ExprView)
    requires
        0 <= pos <= toks.len(),
    ensures
        c_cmp_rest(toks, pos, left) matches Ok((_, q)) ==> pos <= q <= toks.len(),
    decreases toks.len() - pos, 0int,
{
    if let Some(op) = comparison_operator(tok_at(toks, pos)) {
        lemma_c_primary_pos(toks, pos + 1);
        if let Ok((right, q)) = c_primary(toks, pos + 1) {
            lemma_c_cmp_rest_pos(toks, q, bin(left, op, right));
        }
    }
}

proof fn lemma_c_args_pos(toks: Seq<Token>, pos: int, acc: Seq<ExprView>)
    requires
        0 <= pos <= toks.len(),
    ensures
        c_args(toks, pos, acc) matches Ok((_, q)) ==> pos <= q <= toks.len(),
    decreases toks.len() - pos, 5int,
{
    if !a_check(toks, pos, TokenTypeView::RParen) {
        lemma_c_or_pos(toks, pos);
        if let Ok((arg, q)) = c_or(toks, pos) {
            let q2 = if a_check(toks, q, TokenTypeView::Comma) {
                q + 1
            } else {
                q
            };
            lemma_c_args_pos(toks, q2, acc.push(arg));
        }
    }
}

proof fn lemma_c_call_args_pos(toks: Seq<Token>, pos: int)
    requires
        0 <= pos <= toks.len(),
    ensures
        c_call_args(toks, pos) matches Ok((_, q)) ==> pos < q <= toks.len(),
    decreases toks.len() - pos, 0int,
{
    if pos < toks.len() {
        lemma_c_args_pos(toks, pos + 1, Seq::empty());
    }
}

proof fn lemma_c_primary_pos(toks: Seq<Token>, pos: int)
    requires
        0 <= pos <= toks.len(),
    ensures
        c_primary(toks, pos) matches Ok((_, q)) ==> pos < q <= toks.len(),
    decreases toks.len() - pos, 1int,
{
    if pos < toks.len() {
        match tok_at(toks, pos) {
            Some(TokenTypeView::Identifier(_)) => {
                if pos + 2 <= toks.len() {
                    lemma_c_call_args_pos(toks, pos + 1);
                }
                if pos + 3 <= toks.len() {
                    lemma_c_call_args_pos(toks, pos + 3);
                }
            },
            Some(TokenTypeView::LParen) => {
                lemma_c_or_pos(toks, pos + 1);
            },
            _ => {},
        }
    }
}

/// In a comparison `a OP b` of two primaries, followed by neither another
/// comparison operator nor `and`/`or`, the expression parsed is the binary
/// node whose left operand is `a`, the primary before the operator, whose
/// right operand is `b`, the primary after it, and whose operator is `OP`.
pub proof fn lemma_comparison_keeps_operand_order(
    toks: Seq<Token>,
    pos: int,
    a: ExprView,
    q: int,
    op: BinaryOperator,
    b: ExprView,
    q2: int,
)
    requires
        0 <= pos <= toks.len(),
        c_primary(toks, pos) == Ok::<(ExprView, int), (Seq<char>, int)>((a, q)),
        comparison_operator(tok_at(toks, q)) == Some(op),
        c_primary(toks, q + 1) == Ok::<(ExprView, int), (Seq<char>, int)>((b, q2)),
        comparison_operator(tok_at(toks, q2)) is None,
        !a_is_keyword(toks, q2, "and"@),
        !a_is_keyword(toks, q2, "or"@),
    ensures
        c_expr(toks, pos) == Ok::<(ExprView, int), (Seq<char>, int)>(
            (ExprView::Binary { left: Box::new(a), operator: op, right: Box::new(b) }, q2),
        ),
{
    lemma_c_primary_pos(toks, pos);
    assert(q < toks.len());
    lemma_c_primary_pos(toks, q + 1);
    let e = ExprView::Binary { left: Box::new(a), operator: op, right: Box::new(b) };
    assert(c_cmp_rest(toks, q2, e) == Ok::<(ExprView, int), (Seq<char>, int)>((e, q2)));
    assert(c_cmp_rest(toks, q, a) == Ok::<(ExprView, int), (Seq<char>, int)>((e, q2)));
    assert(c_cmp(toks, pos) == Ok::<(ExprView, int), (Seq<char>, int)>((e, q2)));
    assert(c_and_rest(toks, q2, e) == Ok::<(ExprView, int), (Seq<char>, int)>((e, q2)));
    assert(c_and(toks, pos) == Ok::<(ExprView, int), (Seq<char>, int)>((e, q2)));
    assert(c_or_rest(toks, q2, e) == Ok::<(ExprView, int), (Seq<char>, int)>((e, q2)));
}

/// In `a and b`, where `a` and `b` are comparisons and no further `and`
/// follows, the expression parsed by the `and` level is the binary node
/// with `a` on the left and `b` on the right.
pub proof fn lemma_and_keeps_operand_order(
    toks: Seq<Token>,
    pos: int,
    a: ExprView,
    q: int,
    b: ExprView,
    q2: int,
)
    requires
        0 <= pos <= toks.len(),
        c_cmp(toks, pos) == Ok::<(ExprView, int), (Seq<char>, int)>((a, q)),
        a_is_keyword(toks, q, "and"@),
        c_cmp(toks, q + 1) == Ok::<(ExprView, int), (Seq<char>, int)>((b, q2)),
        !a_is_keyword(toks, q2, "and"@),
    ensures
        c_and(toks, pos) == Ok::<(ExprView, int), (Seq<char>, int)>(
            (
                ExprView::Binary {
                    left: Box::new(a),
                    operator: BinaryOperator::And,
                    right: Box::new(b),
                },
                q2,
            ),
        ),
{
    lemma_c_cmp_pos(toks, pos);
    lemma_c_cmp_pos(toks, q + 1);
    let e = ExprView::Binary { left: Box::new(a), operator: BinaryOperator::And, right: Box::new(b) };
    assert(c_and_rest(toks, q2, e) == Ok::<(ExprView, int), (Seq<char>, int)>((e, q2)));
    assert(c_and_rest(toks, q, a) == Ok::<(ExprView, int), (Seq<char>, int)>((e, q2)));
}

/// In `a or b`, where `a` and `b` are `and` chains and no further `or`
/// follows, the expression parsed is the binary node with `a` on the left
/// and `b` on the right.
pub proof fn lemma_or_keeps_operand_order(
    toks: Seq<Token>,
    pos: int,
    a: ExprView,
    q: int,
    b: ExprView,
    q2: int,
)
    requires
        0 <= pos <= toks.len(),
        c_and(toks, pos) == Ok::<(ExprView, int), (Seq<char>, int)>((a, q)),
        a_is_keyword(toks, q, "or"@),
        c_and(toks, q + 1) == Ok::<(ExprView, int), (Seq<char>, int)>((b, q2)),
        !a_is_keyword(toks, q2, "or"@),
    ensures
        c_expr(toks, pos) == Ok::<(ExprView, int), (Seq<char>, int)>(
            (
                ExprView::Binary {
                    left: Box::new(a),
                    operator: BinaryOperator::Or,
                    right: Box::new(b),
                },
                q2,
            ),
        ),
{
    lemma_c_and_pos(toks, pos);
    lemma_c_and_pos(toks, q + 1);
    let e = ExprView::Binary { left: Box::new(a), operator: BinaryOperator::Or, right: Box::new(b) };
    assert(c_or_rest(toks, q2, e) == Ok::<(ExprView, int), (Seq<char>, int)>((e, q2)));
    assert(c_or_rest(toks, q, a) == Ok::<(ExprView, int), (Seq<char>, int)>((e, q2)));
}

/// What parsing a condition section's body from `pos` gives: its
/// expression and the position after it, or the error.
pub open spec fn spec_parse_condition(toks: Seq<Token>, pos: int) -> ExprParse {
    match c_expr(toks, pos) {
        Ok((e, p)) => Ok((e, p)),
        Err((m, q)) => Err((m, q)),
    }
}

/// Parsing a condition gives what parsing an expression from the same
/// tokens and position gives: the same expression, ending at the same
/// position, or the same error, stopping at the same position.
pub proof fn lemma_condition_is_expression(toks: Seq<Token>, pos: int)
    ensures
        spec_parse_condition(toks, pos) == c_expr(toks, pos),
{
}

/// Parses a YARA condition block into a condition AST node.
///
/// This function serves as the entry point for condition parsing.
/// It parses the root expression contained within the condition
/// section and wraps it in a [`ConditionNode`].
///
/// # Errors
///
/// Returns an error if:
/// - the condition expression contains invalid syntax
/// - the condition expression ends unexpectedly
pub fn parse_condition(parser: &mut AstParser) -> (r: Result<ConditionNode, String>)
    requires
        old(parser).wf(),
    ensures
        final(parser).wf(),
        final(parser).spec_tokens() == old(parser).spec_tokens(),
        match spec_parse_condition(old(parser).spec_tokens(), old(parser).spec_pos()) {
            Ok((e, p)) => r matches Ok(v) && v.expression@ == e && final(parser).spec_pos() == p,
            Err((m, q)) => r matches Err(x) && x@ == m && final(parser).spec_pos() == q,
        },
{
    match parse_expr(parser) {
        Ok(expression) => Ok(ConditionNode { expression }),
        Err(e) => Err(e),
    }
}

/// Parses a YARA expression, starting at the lowest-precedence operator
/// level.
///
/// # Errors
///
/// Returns an error if the expression contains invalid syntax or cannot be
/// parsed.
pub fn parse_expr(parser: &mut AstParser) -> (r: Result<ExprNode, String>)
    requires
        old(parser).wf(),
    ensures
        final(parser).wf(),
        final(parser).spec_tokens() == old(parser).spec_tokens(),
        match c_expr(old(parser).spec_tokens(), old(parser).spec_pos()) {
            Ok((e, p)) => r matches Ok(v) && v@ == e && final(parser).spec_pos() == p,
            Err((m, q)) => r matches Err(x) && x@ == m && final(parser).spec_pos() == q,
        },
    decreases old(parser).spec_tokens().len() - old(parser).spec_pos(), 5int,
{
    parse_or(parser)
}

/// Parses a logical OR expression; OR has the lowest precedence level.
fn parse_or(parser: &mut AstParser) -> (r: Result<ExprNode, String>)
    requires
        old(parser).wf(),
    ensures
        final(parser).wf(),
        final(parser).spec_tokens() == old(parser).spec_tokens(),
        match c_or(old(parser).spec_tokens(), old(parser).spec_pos()) {
            Ok((e, p)) => r matches Ok(v) && v@ == e && final(parser).spec_pos() == p,
            Err((m, q)) => r matches Err(x) && x@ == m && final(parser).spec_pos() == q,
        },
    decreases old(parser).spec_tokens().len() - old(parser).spec_pos(), 4int,
{
    let ghost toks = parser.spec_tokens();
    let ghost start = parser.spec_pos();
    proof {
        lemma_c_and_pos(toks, start);
    }
    let mut left = match parse_and(parser) {
        Ok(e) => e,
        Err(e) => {
            return Err(e);
        },
    };
    loop
        invariant
            parser.wf(),
            parser.spec_tokens() == toks,
            toks == old(parser).spec_tokens(),
            start == old(parser).spec_pos(),
            start < parser.spec_pos() <= toks.len(),
            c_or(toks, start) == c_or_rest(toks, parser.spec_pos(), left@),
        ensures
            parser.wf(),
            parser.spec_tokens() == toks,
            c_or(toks, start) == c_or_rest(toks, parser.spec_pos(), left@),
            !a_is_keyword(toks, parser.spec_pos(), "or"@),
        decreases toks.len() - parser.spec_pos(),
    {
        if !parser.peek_keyword("or") {
            break;
        }
        parser.advance();
        let ghost q = parser.spec_pos();
        proof {
            lemma_c_and_pos(toks, q);
        }
        let right = match parse_and(parser) {
            Ok(e) => e,
            Err(e) => {
                return Err(e);
            },
        };
        left = ExprNode::Binary {
            left: Box::new(left),
            operator: BinaryOperator::Or,
            right: Box::new(right),
        };
    }
    Ok(left)
}

/// Parses a logical AND expression; AND has higher precedence than OR.
fn parse_and(parser: &mut AstParser) -> (r: Result<ExprNode, String>)
    requires
        old(parser).wf(),
    ensures
        final(parser).wf(),
        final(parser).spec_tokens() == old(parser).spec_tokens(),
        match c_and(old(parser).spec_tokens(), old(parser).spec_pos()) {
            Ok((e, p)) => r matches Ok(v) && v@ == e && final(parser).spec_pos() == p,
            Err((m, q)) => r matches Err(x) && x@ == m && final(parser).spec_pos() == q,
        },
    decreases old(parser).spec_tokens().len() - old(parser).spec_pos(), 3int,
{
    let ghost toks = parser.spec_tokens();
    let ghost start = parser.spec_pos();
    proof {
        lemma_c_cmp_pos(toks, start);
    }
    let mut left = match parse_comparison(parser) {
        Ok(e) => e,
        Err(e) => {
            return Err(e);
        },
    };
    loop
        invariant
            parser.wf(),
            parser.spec_tokens() == toks,
            toks == old(parser).spec_tokens(),
            start == old(parser).spec_pos(),
            start < parser.spec_pos() <= toks.len(),
            c_and(toks, start) == c_and_rest(toks, parser.spec_pos(), left@),
        ensures
            parser.wf(),
            parser.spec_tokens() == toks,
            c_and(toks, start) == c_and_rest(toks, parser.spec_pos(), left@),
            !a_is_keyword(toks, parser.spec_pos(), "and"@),
        decreases toks.len() - parser.spec_pos(),
    {
        if !parser.peek_keyword("and") {
            break;
        }
        parser.advance();
        let ghost q = parser.spec_pos();
        proof {
            lemma_c_cmp_pos(toks, q);
        }
        let right = match parse_comparison(parser) {
            Ok(e) => e,
            Err(e) => {
                return Err(e);
            },
        };
        left = ExprNode::Binary {
            left: Box::new(left),
            operator: BinaryOperator::And,
            right: Box::new(right),
        };
    }
    Ok(left)
}

/// The comparison operator the current token stands for, if any.
fn peek_comparison_operator(parser: &AstParser) -> (r: Option<BinaryOperator>)
    requires
        parser.wf(),
    ensures
        r == comparison_operator(tok_at(parser.spec_tokens(), parser.spec_pos())),
{
    match parser.peek() {
        Some(tok) => match &tok.token_type {
            TokenType::EqualsEquals => Some(BinaryOperator::Equals),
            TokenType::LThan => Some(BinaryOperator::LessThan),
            TokenType::GThan => Some(BinaryOperator::GreaterThan),
            TokenType::LEThan => Some(BinaryOperator::LessThanEqual),
            TokenType::GEThan => Some(BinaryOperator::GreaterThanEqual),
            _ => None,
        },
        None => None,
    }
}

/// Parses comparison operations: `==`, `<`, `>`, `<=` and `>=`, e.g.
/// `filesize < 100KB`.
fn parse_comparison(parser: &mut AstParser) -> (r: Result<ExprNode, String>)
    requires
        old(parser).wf(),
    ensures
        final(parser).wf(),
        final(parser).spec_tokens() == old(parser).spec_tokens(),
        match c_cmp(old(parser).spec_tokens(), old(parser).spec_pos()) {
            Ok((e, p)) => r matches Ok(v) && v@ == e && final(parser).spec_pos() == p,
            Err((m, q)) => r matches Err(x) && x@ == m && final(parser).spec_pos() == q,
        },
    decreases old(parser).spec_tokens().len() - old(parser).spec_pos(), 2int,
{
    let ghost toks = parser.spec_tokens();
    let ghost start = parser.spec_pos();
    proof {
        lemma_c_primary_pos(toks, start);
    }
    let mut left = match parse_primary(parser) {
        Ok(e) => e,
        Err(e) => {
            return Err(e);
        },
    };
    loop
        invariant
            parser.wf(),
            parser.spec_tokens() == toks,
            toks == old(parser).spec_tokens(),
            start == old(parser).spec_pos(),
            start < parser.spec_pos() <= toks.len(),
            c_cmp(toks, start) == c_cmp_rest(toks, parser.spec_pos(), left@),
        ensures
            parser.wf(),
            parser.spec_tokens() == toks,
            c_cmp(toks, start) == c_cmp_rest(toks, parser.spec_pos(), left@),
            comparison_operator(tok_at(toks, parser.spec_pos())) is None,
        decreases toks.len() - parser.spec_pos(),
    {
        let op = match peek_comparison_operator(parser) {
            Some(op) => op,
            None => {
                break;
            },
        };
        parser.advance();
        let ghost q = parser.spec_pos();
        proof {
            lemma_c_primary_pos(toks, q);
        }
        let right = match parse_primary(parser) {
            Ok(e) => e,
            Err(e) => {
                return Err(e);
            },
        };
        left = ExprNode::Binary { left: Box::new(left), operator: op, right: Box::new(right) };
    }
    Ok(left)
}

/// Parses `( $prefix * )` and returns the string identifier.
fn parse_pattern(parser: &mut AstParser) -> (r: Result<String, String>)
    requires
        old(parser).wf(),
    ensures
        final(parser).wf(),
        final(parser).spec_tokens() == old(parser).spec_tokens(),
        match c_pattern(old(parser).spec_tokens(), old(parser).spec_pos()) {
            Ok((v, p)) => r matches Ok(x) && x@ == v && final(parser).spec_pos() == p,
            Err((m, q)) => r matches Err(x) && x@ == m && final(parser).spec_pos() == q,
        },
{
    match parser.expect(&TokenType::LParen) {
        Ok(()) => {},
        Err(e) => {
            return Err(e);
        },
    }
    let pattern = match parser.expect_string_identifier() {
        Ok(p) => p,
        Err(e) => {
            return Err(e);
        },
    };
    match parser.expect(&TokenType::Star) {
        Ok(()) => {},
        Err(e) => {
            return Err(e);
        },
    }
    match parser.expect(&TokenType::RParen) {
        Ok(()) => {},
        Err(e) => {
            return Err(e);
        },
    }
    Ok(pattern)
}

proof fn lemma_exprs_view_push(s: Seq<ExprNode>, e: ExprNode)
    ensures
        exprs_view(s.push(e)) == exprs_view(s).push(expr_view(e)),
{
    assert(s.push(e).drop_last() == s);
}

/// Parses `( arguments )`: expressions, optionally separated by commas,
/// up to the closing parenthesis.
fn parse_call_args(parser: &mut AstParser) -> (r: Result<Vec<ExprNode>, String>)
    requires
        old(parser).wf(),
    ensures
        final(parser).wf(),
        final(parser).spec_tokens() == old(parser).spec_tokens(),
        match c_call_args(old(parser).spec_tokens(), old(parser).spec_pos()) {
            Ok((v, p)) => r matches Ok(x) && exprs_view(x@) == v && final(parser).spec_pos() == p,
            Err((m, q)) => r matches Err(x) && x@ == m && final(parser).spec_pos() == q,
        },
    decreases old(parser).spec_tokens().len() - old(parser).spec_pos(), 0int,
{
    let ghost toks = parser.spec_tokens();
    let ghost start = parser.spec_pos();
    match parser.expect(&TokenType::LParen) {
        Ok(()) => {},
        Err(e) => {
            return Err(e);
        },
    }
    let ghost p1 = parser.spec_pos();
    let mut args: Vec<ExprNode> = Vec::new();
    proof {
        lemma_c_args_pos(toks, p1, Seq::empty());
    }
    loop
        invariant
            parser.wf(),
            parser.spec_tokens() == toks,
            toks == old(parser).spec_tokens(),
            start == old(parser).spec_pos(),
            start < p1 <= parser.spec_pos() <= toks.len(),
            c_call_args(toks, start) == match c_args(toks, parser.spec_pos(), exprs_view(args@)) {
                Err(e) => Err(e),
                Ok((args, p2)) => match a_expect(toks, p2, TokenTypeView::RParen) {
                    Err(e) => Err((e, p2)),
                    Ok(p3) => Ok((args, p3)),
                },
            },
        ensures
            parser.wf(),
            parser.spec_tokens() == toks,
            c_call_args(toks, start) == match a_expect(toks, parser.spec_pos(), TokenTypeView::RParen) {
                Err(e) => Err((e, parser.spec_pos())),
                Ok(p3) => Ok((exprs_view(args@), p3)),
            },
        decreases toks.len() - parser.spec_pos(),
    {
        if parser.check(&TokenType::RParen) {
            break;
        }
        let ghost p = parser.spec_pos();
        let ghost before = args@;
        proof {
            lemma_c_or_pos(toks, p);
        }
        let arg = match parse_expr(parser) {
            Ok(e) => e,
            Err(e) => {
                return Err(e);
            },
        };
        args.push(arg);
        proof {
            lemma_exprs_view_push(before, arg);
        }
        if parser.check(&TokenType::Comma) {
            parser.advance();
        }
    }
    match parser.expect(&TokenType::RParen) {
        Ok(()) => {},
        Err(e) => {
            return Err(e);
        },
    }
    Ok(args)
}

/// Parses a primary expression: the leaf nodes of the condition expression
/// tree.
///
/// Supported expression types include numeric literals (`100`, `0x5A4D`,
/// `500KB`), string literals (`"hello"`), string identifiers (`$a`),
/// identifiers (`filesize`, `them`, `pe`), function calls (`uint16(0)`,
/// `pe.imphash()`), parenthesized expressions (`(filesize < 1MB)`), and
/// pattern matching constructs (`all of ($a*)`, `2 of them`).
///
/// Parenthesized expressions are returned as their contained expression.
fn parse_primary(parser: &mut AstParser) -> (r: Result<ExprNode, String>)
    requires
        old(parser).wf(),
    ensures
        final(parser).wf(),
        final(parser).spec_tokens() == old(parser).spec_tokens(),
        match c_primary(old(parser).spec_tokens(), old(parser).spec_pos()) {
            Ok((e, p)) => r matches Ok(v) && v@ == e && final(parser).spec_pos() == p,
            Err((m, q)) => r matches Err(x) && x@ == m && final(parser).spec_pos() == q,
        },
    decreases old(parser).spec_tokens().len() - old(parser).spec_pos(), 1int,
{
    let ghost toks = parser.spec_tokens();
    let ghost start = parser.spec_pos();
    let is_all = parser.peek_keyword("all");
    let kind: u8 = match parser.peek() {
        None => {
            return Err(owned("Unexpected EOF"));
        },
        Some(Token { token_type: TokenType::Number(_), .. }) => 0,
        Some(Token { token_type: TokenType::StringLiteral(_), .. }) => 1,
        Some(Token { token_type: TokenType::StringIdentifier(_), .. }) => 2,
        Some(Token { token_type: TokenType::Identifier(_), .. }) => 3,
        Some(Token { token_type: TokenType::LParen, .. }) => 4,
        Some(tok) => {
            if is_all {
                5
            } else {
            let mut m = owned("Unexpected token ");
            let d = tok.token_type.debug_string();
            m.append(d.as_str());
            return Err(m);
            }
        },
    };
    if kind == 0 {
        let count = match parser.expect_number() {
            Ok(c) => c,
            Err(e) => {
                return Err(e);
            },
        };
        proof {
            assert(expr_view(ExprNode::Number(count)) == ExprView::Number(count@));
        }
        if parser.peek_keyword("of") {
            parser.advance();
            if parser.peek_keyword("them") {
                parser.advance();
                return Ok(ExprNode::Of { count: Box::new(ExprNode::Number(count)), pattern: owned("them") });
            }
            let pattern = match parse_pattern(parser) {
                Ok(p) => p,
                Err(e) => {
                    return Err(e);
                },
            };
            return Ok(ExprNode::Of { count: Box::new(ExprNode::Number(count)), pattern });
        }
        Ok(ExprNode::Number(count))
    } else if kind == 1 {
        match parser.expect_string_literal() {
            Ok(s) => Ok(ExprNode::StringLiteral(s)),
            Err(e) => Err(e),
        }
    } else if kind == 2 {
        match parser.expect_string_identifier() {
            Ok(s) => Ok(ExprNode::Identifier(s)),
            Err(e) => Err(e),
        }
    } else if kind == 3 {
        let ident = match parser.expect_identifier() {
            Ok(s) => s,
            Err(e) => {
                return Err(e);
            },
        };
        if parser.check(&TokenType::Dot) {
            parser.advance();
            let function = match parser.expect_identifier() {
                Ok(s) => s,
                Err(e) => {
                    return Err(e);
                },
            };
            let ghost p2 = parser.spec_pos();
            proof {
                lemma_c_call_args_pos(toks, p2);
            }
            let arguments = match parse_call_args(parser) {
                Ok(a) => a,
                Err(e) => {
                    return Err(e);
                },
            };
            return Ok(ExprNode::ModuleFunction { module: ident, function, arguments });
        }
        if parser.check(&TokenType::LParen) {
            let arguments = match parse_call_args(parser) {
                Ok(a) => a,
                Err(e) => {
                    return Err(e);
                },
            };
            return Ok(ExprNode::FunctionCall { name: ident, arguments });
        }
        Ok(ExprNode::Identifier(ident))
    } else if kind == 4 {
        parser.advance();
        proof {
            lemma_c_or_pos(toks, start + 1);
        }
        let expr = match parse_expr(parser) {
            Ok(e) => e,
            Err(e) => {
                return Err(e);
            },
        };
        match parser.expect(&TokenType::RParen) {
            Ok(()) => {},
            Err(e) => {
                return Err(e);
            },
        }
        Ok(expr)
    } else {
        parser.advance();
        match parser.expect_keyword("of") {
            Ok(()) => {},
            Err(e) => {
                return Err(e);
            },
        }
        if parser.peek_keyword("them") {
            parser.advance();
            return Ok(ExprNode::AllOfThem);
        }
        let pattern = match parse_pattern(parser) {
            Ok(p) => p,
            Err(e) => {
                return Err(e);
            },
        };
        Ok(ExprNode::AllOf { pattern })
    }
}

} // verus!
