//! Condition operator spacing checks.
//!
//! This module implements the style cop that validates spacing around
//! operators in YARA condition blocks using lexer token spans.

use vstd::prelude::*;

use crate::linter::{
    context::LintContext,
    cop::{Category, Cop},
    finding::{Finding, FindingView, Severity, finding, findings_view, push_finding},
};
use crate::parser::syntax::rule_file::RuleFileNode;
use crate::parser::token::{Token, TokenType, TokenTypeView};
use crate::text::{owned, str_eq};

verus! {

/// Keywords that act as prefix operators: only the space after them is
/// checked.
pub open spec fn prefix_operator_keyword(k: Seq<char>) -> bool {
    k == "not"@ || k == "defined"@
}

/// Keywords that act as infix operators: the space on both sides is
/// checked.
pub open spec fn infix_operator_keyword(k: Seq<char>) -> bool {
    ||| k == "and"@
    ||| k == "or"@
    ||| k == "at"@
    ||| k == "in"@
    ||| k == "of"@
    ||| k == "contains"@
    ||| k == "icontains"@
    ||| k == "startswith"@
    ||| k == "istartswith"@
    ||| k == "endswith"@
    ||| k == "iendswith"@
    ||| k == "iequals"@
    ||| k == "matches"@
}

/// The operator a token stands for and whether it needs a space before it
/// too, if the token is one of the checked operators.
pub open spec fn spec_operator(t: TokenTypeView) -> Option<(Seq<char>, bool)> {
    match t {
        TokenTypeView::Keyword(k) => if prefix_operator_keyword(k) {
            Some((k, false))
        } else if infix_operator_keyword(k) {
            Some((k, true))
        } else {
            None
        },
        TokenTypeView::EqualsEquals => Some(("=="@, true)),
        TokenTypeView::NotEquals => Some(("!="@, true)),
        TokenTypeView::GThan => Some((">"@, true)),
        TokenTypeView::GEThan => Some((">="@, true)),
        TokenTypeView::LThan => Some(("<"@, true)),
        TokenTypeView::LEThan => Some(("<="@, true)),
        _ => None,
    }
}

/// The number of source characters a token occupies: the text of a name,
/// keyword or number; the text and its two delimiters for a string,
/// regular expression or hex string; two for a two-character operator; one
/// otherwise.
pub open spec fn spec_token_width(t: TokenTypeView) -> nat {
    match t {
        TokenTypeView::Identifier(v) => v.len(),
        TokenTypeView::StringIdentifier(v) => v.len(),
        TokenTypeView::Keyword(v) => v.len(),
        TokenTypeView::Number(v) => v.len(),
        TokenTypeView::StringLiteral(v) => v.len() + 2,
        TokenTypeView::Regex(v) => v.len() + 2,
        TokenTypeView::HexString(v) => v.len() + 2,
        TokenTypeView::GEThan => 2,
        TokenTypeView::LEThan => 2,
        TokenTypeView::EqualsEquals => 2,
        TokenTypeView::NotEquals => 2,
        _ => 1,
    }
}

/// Whether exactly one character separates two tokens: they are on the
/// same line and the right one starts one column after the left one ends.
pub open spec fn single_space_between(left: Token, right: Token) -> bool {
    left.span.line == right.span.line && right.span.column == left.span.column + spec_token_width(
        left.token_type@,
    ) + 1
}

/// Whether a `condition` keyword followed by a colon starts at `i`.
pub open spec fn condition_starts_at(toks: Seq<Token>, i: int) -> bool {
    &&& toks[i].token_type@ == TokenTypeView::Keyword("condition"@)
    &&& i + 1 < toks.len()
    &&& toks[i + 1].token_type@ is Colon
}

/// Whether the tokens before `n` leave the scan inside a condition
/// section: a `condition:` enters one, a closing brace leaves it.
pub open spec fn in_condition_before(toks: Seq<Token>, n: int) -> bool
    decreases n,
{
    if n <= 0 {
        false
    } else if !in_condition_before(toks, n - 1) {
        condition_starts_at(toks, n - 1)
    } else {
        !(toks[n - 1].token_type@ is RBrace)
    }
}

/// The operator at `i`, if it stands inside a condition section without a
/// single space where it needs one: before it (for operators other than
/// prefix ones) and after it.
pub open spec fn offense_at(toks: Seq<Token>, i: int) -> Option<Seq<char>> {
    if in_condition_before(toks, i) && !(toks[i].token_type@ is RBrace) {
        match spec_operator(toks[i].token_type@) {
            Some((op, lead)) => {
                let leading_ok = !lead || (i > 0 && single_space_between(toks[i - 1], toks[i]));
                let trailing_ok = i + 1 < toks.len() && single_space_between(toks[i], toks[i + 1]);
                if !leading_ok || !trailing_ok {
                    Some(op)
                } else {
                    None
                }
            },
            None => None,
        }
    } else {
        None
    }
}

/// The offending operators among the first `n` tokens, in order.
pub open spec fn offenses_upto(toks: Seq<Token>, n: int) -> Seq<Seq<char>>
    decreases n,
{
    if n <= 0 {
        Seq::empty()
    } else {
        offenses_upto(toks, n - 1) + match offense_at(toks, n - 1) {
            Some(op) => seq![op],
            None => Seq::empty(),
        }
    }
}

/// The message for an operator without single spacing.
pub open spec fn spacing_message(op: Seq<char>) -> Seq<char> {
    "Operator '"@ + op + "' does not have single spacing"@
}

/// The finding for an operator without single spacing.
pub open spec fn spacing_finding(op: Seq<char>) -> FindingView {
    finding("ConditionSpacing"@, Category::Style, spacing_message(op), Severity::Warning)
}

/// Validates spacing around operators in condition blocks.
///
/// The cop consumes the token stream produced during parsing and compares
/// adjacent token spans to require one character of separation around each
/// supported operator.
pub struct StyleConditionSpacing {
    /// Tokens produced by the lexer for the current YARA file.
    tokens: Vec<Token>,
}

impl StyleConditionSpacing {
    /// The tokens the cop inspects.
    pub closed spec fn spec_tokens(&self) -> Seq<Token> {
        self.tokens@
    }

    /// Creates a condition spacing cop for a token stream.
    pub fn new(tokens: Vec<Token>) -> (r: Self)
        ensures
            r.spec_tokens() == tokens@,
    {
        Self { tokens }
    }
}

impl Cop for StyleConditionSpacing {
    open spec fn spec_name(&self) -> Seq<char> {
        "ConditionSpacing"@
    }

    open spec fn spec_category(&self) -> Category {
        Category::Style
    }

    open spec fn spec_check(&self, file: &RuleFileNode) -> Seq<FindingView> {
        offenses_upto(self.spec_tokens(), self.spec_tokens().len() as int).map_values(
            |op: Seq<char>| spacing_finding(op),
        )
    }

    /// Returns `"ConditionSpacing"`.
    fn name(&self) -> &'static str {
        "ConditionSpacing"
    }

    /// Returns [`Category::Style`].
    fn category(&self) -> Category {
        Category::Style
    }

    /// Checks operator spacing within condition blocks.
    ///
    /// A warning is emitted once for each operator whose adjacent token spans
    /// do not indicate exactly one character of separation.
    fn check(&self, _context: &LintContext, findings: &mut Vec<Finding>) {
        let offenses = find_spacing_offenses(self.tokens.as_slice());
        let ghost ops = offenses_upto(self.tokens@, self.tokens@.len() as int);
        let ghost start = findings_view(findings@);
        let mut k: usize = 0;
        while k < offenses.len()
            invariant
                k <= offenses@.len(),
                offenses@.len() == ops.len(),
                forall|q: int| 0 <= q < ops.len() ==> #[trigger] offenses@[q]@ == ops[q],
                findings_view(findings@) == start + ops.take(k as int).map_values(
                    |op: Seq<char>| spacing_finding(op),
                ),
            decreases offenses.len() - k,
        {
            let mut m = owned("Operator '");
            m.append(offenses[k].as_str());
            m.append("' does not have single spacing");
            push_finding(
                findings,
                Finding {
                    rule: "ConditionSpacing",
                    category: Category::Style,
                    message: m,
                    severity: Severity::Warning,
                },
            );
            assert(ops.take(k + 1).map_values(|op: Seq<char>| spacing_finding(op)) =~= ops.take(
                k as int,
            ).map_values(|op: Seq<char>| spacing_finding(op)).push(spacing_finding(ops[k as int])));
            k += 1;
        }
        assert(ops.take(k as int) =~= ops);
    }
}

/// Finds condition operators with invalid spacing.
///
/// Only tokens between a `condition:` section marker and the rule's closing
/// brace are inspected.
pub fn find_spacing_offenses(tokens: &[Token]) -> (r: Vec<String>)
    ensures
        r@.map_values(|s: String| s@) == offenses_upto(tokens@, tokens@.len() as int),
{
    let mut out: Vec<String> = Vec::new();
    let mut in_condition = false;
    let mut index: usize = 0;
    while index < tokens.len()
        invariant
            index <= tokens@.len(),
            in_condition == in_condition_before(tokens@, index as int),
            out@.map_values(|s: String| s@) == offenses_upto(tokens@, index as int),
        decreases tokens.len() - index,
    {
        let ghost before = out@;
        let token = &tokens[index];
        if !in_condition {
            if is_condition_start(tokens, index) {
                in_condition = true;
            }
        } else if matches!(token.token_type, TokenType::RBrace) {
            in_condition = false;
        } else {
            match operator(token) {
                None => {},
                Some((op, requires_leading_space)) => {
                    let leading_is_valid = !requires_leading_space || (index > 0
                        && has_single_space_between(&tokens[index - 1], token));
                    let trailing_is_valid = index + 1 < tokens.len() && has_single_space_between(
                        token,
                        &tokens[index + 1],
                    );
                    if !leading_is_valid || !trailing_is_valid {
                        out.push(owned(op));
                    }
                },
            }
        }
        proof {
            assert(out@.map_values(|s: String| s@) =~= offenses_upto(tokens@, index + 1));
        }
        index += 1;
    }
    out
}

/// Whether a `condition` keyword followed by a colon starts at `index`.
fn is_condition_start(tokens: &[Token], index: usize) -> (b: bool)
    requires
        index < tokens@.len(),
    ensures
        b == condition_starts_at(tokens@, index as int),
{
    let is_keyword = match &tokens[index].token_type {
        TokenType::Keyword(keyword) => str_eq(keyword.as_str(), "condition"),
        _ => false,
    };
    is_keyword && index + 1 < tokens.len() && matches!(tokens[index + 1].token_type, TokenType::Colon)
}

/// Identifies supported condition operators.
///
/// The boolean in the returned pair indicates whether the operator requires
/// separation from a preceding token. Prefix operators only require trailing
/// separation.
pub fn operator(token: &Token) -> (r: Option<(&str, bool)>)
    ensures
        match spec_operator(token.token_type@) {
            Some((op, lead)) => r matches Some((o, l)) && o@ == op && l == lead,
            None => r is None,
        },
{
    match &token.token_type {
        TokenType::Keyword(keyword) => {
            let k = keyword.as_str();
            if str_eq(k, "not") || str_eq(k, "defined") {
                Some((k, false))
            } else if str_eq(k, "and") || str_eq(k, "or") || str_eq(k, "at") || str_eq(k, "in")
                || str_eq(k, "of") || str_eq(k, "contains") || str_eq(k, "icontains") || str_eq(
                k,
                "startswith",
            ) || str_eq(k, "istartswith") || str_eq(k, "endswith") || str_eq(k, "iendswith")
                || str_eq(k, "iequals") || str_eq(k, "matches") {
                Some((k, true))
            } else {
                None
            }
        },
        TokenType::EqualsEquals => Some(("==", true)),
        TokenType::NotEquals => Some(("!=", true)),
        TokenType::GThan => Some((">", true)),
        TokenType::GEThan => Some((">=", true)),
        TokenType::LThan => Some(("<", true)),
        TokenType::LEThan => Some(("<=", true)),
        _ => None,
    }
}

/// Determines whether two tokens have one character between them.
///
/// Tokens on different lines never have single spacing. For tokens on the
/// same line, the check compares the right token's starting column with the
/// left token's ending column.
pub fn has_single_space_between(left: &Token, right: &Token) -> (b: bool)
    ensures
        b == single_space_between(*left, *right),
{
    if left.span.line != right.span.line {
        return false;
    }
    if right.span.column <= left.span.column {
        return false;
    }
    let gap = right.span.column - left.span.column - 1;
    match token_width(&left.token_type) {
        Some(width) => gap == width,
        None => false,
    }
}

/// Returns the source width of a token: the number of source characters
/// it occupies, or `None` where that number does not fit in a `usize`.
pub fn token_width(token_type: &TokenType) -> (r: Option<usize>)
    ensures
        match r {
            Some(w) => w == spec_token_width(token_type@),
            None => spec_token_width(token_type@) > usize::MAX,
        },
{
    match token_type {
        TokenType::Identifier(value)
        | TokenType::StringIdentifier(value)
        | TokenType::Keyword(value)
        | TokenType::Number(value) => Some(value.as_str().unicode_len()),
        TokenType::StringLiteral(value) | TokenType::Regex(value) | TokenType::HexString(value) => {
            let n = value.as_str().unicode_len();
            if n <= usize::MAX - 2 {
                Some(n + 2)
            } else {
                None
            }
        },
        TokenType::GEThan | TokenType::LEThan | TokenType::EqualsEquals | TokenType::NotEquals => {
            Some(2)
        },
        _ => Some(1),
    }
}

} // verus!
