//! Expression nodes used in YARA condition blocks.

use vstd::prelude::*;

use crate::parser::syntax::operators::{BinaryOperator, UnaryOperator};

verus! {

/// Represents an expression within a YARA rule condition.
///
/// Expressions form a tree structure and may consist of literals,
/// identifiers, function calls, unary operations, or binary operations.
#[derive(Debug)]
pub enum ExprNode {
    /// A named identifier such as `filesize`, `them`, or a rule name.
    Identifier(String),
    /// A string literal value, e.g. `"hello"`.
    StringLiteral(String),
    /// A numeric literal value, e.g. `100`, `0x5a4d` or `100KB`.
    Number(String),
    /// A boolean literal, `true` or `false`.
    BoolLiteral(bool),
    /// A function call expression, e.g. `uint16(0)`.
    FunctionCall {
        /// Name of the function being called.
        name: String,
        /// Arguments passed to the function.
        arguments: Vec<ExprNode>,
    },
    /// A module-based function call expression, e.g. `pe.imphash(0)`.
    ModuleFunction {
        /// Module name (e.g. `pe`)
        module: String,
        /// Function name inside the module (e.g. `imphash`)
        function: String,
        /// Arguments passed to the function call.
        arguments: Vec<ExprNode>,
    },
    /// A binary operation involving two expressions, e.g. `filesize < 100KB`.
    Binary {
        /// Left-hand side expression.
        left: Box<ExprNode>,
        /// Operator applied between both expressions.
        operator: BinaryOperator,
        /// Right-hand side expression.
        right: Box<ExprNode>,
    },
    /// A unary operation applied to a single expression, e.g. `not $a`.
    Unary {
        /// Unary operator.
        operator: UnaryOperator,
        /// Expression the operator is applied to.
        expression: Box<ExprNode>,
    },
    /// Matches all strings that satisfy the provided pattern, e.g.
    /// `all of ($a*)`.
    AllOf {
        /// Pattern used to select matching strings.
        pattern: String,
    },
    /// Matches all strings declared within the rule: `all of them`.
    AllOfThem,
    /// Matches a specified number of strings from a pattern group, e.g.
    /// `1 of ($x*)`.
    Of {
        /// Number of matching strings required.
        count: Box<ExprNode>,
        /// Pattern used to select candidate strings.
        pattern: String,
    },
    /// A parenthesized expression, e.g. `(filesize < 1MB and $a)`.
    Group(Box<ExprNode>),
    /// An empty condition block, kept so that the linter can warn on it.
    Empty,
}

/// The unit suffix of a numeric literal such as `100KB` or `2MB`.
#[derive(Debug, Clone, Copy, PartialEq, Eq, Structural)]
pub enum NumberUnitType {
    /// `KB`: the number counts kilobytes of 1024 bytes.
    Kilobyte,
    /// `MB`: the number counts megabytes of 2^20 bytes.
    Megabyte,
}

/// The mathematical value of an [`ExprNode`]: the same tree, with text
/// taken as sequences of characters and argument lists as sequences.
pub enum ExprView {
    Identifier(Seq<char>),
    StringLiteral(Seq<char>),
    Number(Seq<char>),
    BoolLiteral(bool),
    FunctionCall { name: Seq<char>, arguments: Seq<ExprView> },
    ModuleFunction { module: Seq<char>, function: Seq<char>, arguments: Seq<ExprView> },
    Binary { left: Box<ExprView>, operator: BinaryOperator, right: Box<ExprView> },
    Unary { operator: UnaryOperator, expression: Box<ExprView> },
    AllOf { pattern: Seq<char> },
    AllOfThem,
    Of { count: Box<ExprView>, pattern: Seq<char> },
    Group(Box<ExprView>),
    Empty,
}

/// The view of an expression tree.
pub open spec fn expr_view(e: ExprNode) -> ExprView
    decreases e,
{
    match e {
        ExprNode::Identifier(s) => ExprView::Identifier(s@),
        ExprNode::StringLiteral(s) => ExprView::StringLiteral(s@),
        ExprNode::Number(s) => ExprView::Number(s@),
        ExprNode::BoolLiteral(b) => ExprView::BoolLiteral(b),
        ExprNode::FunctionCall { name, arguments } => ExprView::FunctionCall {
            name: name@,
            arguments: exprs_view(arguments@),
        },
        ExprNode::ModuleFunction { module, function, arguments } => ExprView::ModuleFunction {
            module: module@,
            function: function@,
            arguments: exprs_view(arguments@),
        },
        ExprNode::Binary { left, operator, right } => ExprView::Binary {
            left: Box::new(expr_view(*left)),
            operator,
            right: Box::new(expr_view(*right)),
        },
        ExprNode::Unary { operator, expression } => ExprView::Unary {
            operator,
            expression: Box::new(expr_view(*expression)),
        },
        ExprNode::AllOf { pattern } => ExprView::AllOf { pattern: pattern@ },
        ExprNode::AllOfThem => ExprView::AllOfThem,
        ExprNode::Of { count, pattern } => ExprView::Of {
            count: Box::new(expr_view(*count)),
            pattern: pattern@,
        },
        ExprNode::Group(inner) => ExprView::Group(Box::new(expr_view(*inner))),
        ExprNode::Empty => ExprView::Empty,
    }
}

/// The view of a sequence of expression trees, element by element.
pub open spec fn exprs_view(s: Seq<ExprNode>) -> Seq<ExprView>
    decreases s,
{
    if s.len() == 0 {
        Seq::empty()
    } else {
        exprs_view(s.drop_last()).push(expr_view(s.last()))
    }
}

impl View for ExprNode {
    type V = ExprView;

    open spec fn view(&self) -> ExprView {
        expr_view(*self)
    }
}

/// The views of a list of expressions are the views of its elements, one
/// for one.
pub proof fn lemma_exprs_view_index(s: Seq<ExprNode>)
    ensures
        exprs_view(s).len() == s.len(),
        forall|i: int| 0 <= i < s.len() ==> #[trigger] exprs_view(s)[i] == expr_view(s[i]),
    decreases s.len(),
{
    if s.len() > 0 {
        lemma_exprs_view_index(s.drop_last());
    }
}

} // verus!
