//! Constant folding of condition expressions.

use vstd::prelude::*;

use crate::parser::syntax::{
    expr::{ExprNode, ExprView, NumberUnitType},
    operators::{BinaryOperator, UnaryOperator},
};
use crate::text::{
    chars_of, hex_value, is_ascii_digit, is_ascii_hexdigit, spec_hex_value, spec_is_ascii_digit,
    spec_is_ascii_hexdigit,
};

verus! {

/// Result of attempting to constant-fold a boolean expression.
#[derive(Debug, Clone, Copy, PartialEq, Eq, Structural)]
pub enum FoldResult {
    /// The expression always has this value.
    Constant(bool),
    /// The expression's value depends on what is scanned.
    NotConstant,
}

/// Result of attempting to read a numeric value out of an expression node,
/// including unit conversion (KB/MB) where applicable.
#[derive(Debug, Clone, Copy, PartialEq, Eq, Structural)]
pub enum NumericValue {
    /// Successfully resolved to a concrete byte value.
    Value(u64),
    /// The node was numeric, but its value, after unit conversion, does not
    /// fit in a `u64`.
    Overflow,
    /// The node isn't a numeric literal at all.
    NotNumeric,
}

/// The value of a string of decimal digits.
pub open spec fn decimal_value(s: Seq<char>) -> nat
    decreases s.len(),
{
    if s.len() == 0 {
        0
    } else {
        decimal_value(s.drop_last()) * 10 + (s.last() as nat - '0' as nat) as nat
    }
}

/// The value of a string of hexadecimal digits.
pub open spec fn hex_digits_value(s: Seq<char>) -> nat
    decreases s.len(),
{
    if s.len() == 0 {
        0
    } else {
        hex_digits_value(s.drop_last()) * 16 + spec_hex_value(s.last()) as nat
    }
}

/// Whether `s` is one or more decimal digits.
pub open spec fn all_decimal(s: Seq<char>) -> bool {
    s.len() > 0 && forall|i: int| 0 <= i < s.len() ==> spec_is_ascii_digit(#[trigger] s[i])
}

/// Whether `s` is one or more hexadecimal digits.
pub open spec fn all_hex(s: Seq<char>) -> bool {
    s.len() > 0 && forall|i: int| 0 <= i < s.len() ==> spec_is_ascii_hexdigit(#[trigger] s[i])
}

/// The value written by the digits of a numeric literal without its unit:
/// `0x` and hexadecimal digits, or decimal digits.
pub open spec fn spec_digits_value(s: Seq<char>) -> Option<nat> {
    if s.len() >= 2 && s[0] == '0' && s[1] == 'x' && all_hex(s.subrange(2, s.len() as int)) {
        Some(hex_digits_value(s.subrange(2, s.len() as int)))
    } else if all_decimal(s) {
        Some(decimal_value(s))
    } else {
        None
    }
}

/// A numeric literal's digits and unit: a trailing `KB` or `MB` is the
/// unit, the rest the digits.
pub open spec fn split_unit(s: Seq<char>) -> (Seq<char>, Option<NumberUnitType>) {
    if s.len() >= 2 && s[s.len() - 1] == 'B' && s[s.len() - 2] == 'K' {
        (s.subrange(0, s.len() - 2), Some(NumberUnitType::Kilobyte))
    } else if s.len() >= 2 && s[s.len() - 1] == 'B' && s[s.len() - 2] == 'M' {
        (s.subrange(0, s.len() - 2), Some(NumberUnitType::Megabyte))
    } else {
        (s, None)
    }
}

/// The number of bytes a unit stands for.
pub open spec fn unit_factor(unit: Option<NumberUnitType>) -> nat {
    match unit {
        None => 1,
        Some(NumberUnitType::Kilobyte) => 1024,
        Some(NumberUnitType::Megabyte) => 1048576,
    }
}

/// A byte count as a [`NumericValue`]: the value where it fits in a `u64`,
/// `Overflow` otherwise.
pub open spec fn bytes_value(n: nat) -> NumericValue {
    if n <= u64::MAX {
        NumericValue::Value(n as u64)
    } else {
        NumericValue::Overflow
    }
}

/// The value of the text of a numeric literal, in bytes.
pub open spec fn spec_literal_value(text: Seq<char>) -> NumericValue {
    let (digits, unit) = split_unit(text);
    match spec_digits_value(digits) {
        Some(v) => bytes_value(v * unit_factor(unit)),
        None => NumericValue::NotNumeric,
    }
}

/// The numeric value of an expression: that of a numeric literal, and
/// `NotNumeric` for any other expression.
pub open spec fn spec_numeric_value(e: ExprView) -> NumericValue {
    match e {
        ExprView::Number(text) => spec_literal_value(text),
        _ => NumericValue::NotNumeric,
    }
}

/// Conjunction of two fold results: false if either side is constant
/// false, true if both are constant true, otherwise not constant.
pub open spec fn spec_fold_and(lhs: FoldResult, rhs: FoldResult) -> FoldResult {
    match (lhs, rhs) {
        (FoldResult::Constant(false), _) => FoldResult::Constant(false),
        (_, FoldResult::Constant(false)) => FoldResult::Constant(false),
        (FoldResult::Constant(true), FoldResult::Constant(true)) => FoldResult::Constant(true),
        _ => FoldResult::NotConstant,
    }
}

/// Disjunction of two fold results: true if either side is constant true,
/// false if both are constant false, otherwise not constant.
pub open spec fn spec_fold_or(lhs: FoldResult, rhs: FoldResult) -> FoldResult {
    match (lhs, rhs) {
        (FoldResult::Constant(true), _) => FoldResult::Constant(true),
        (_, FoldResult::Constant(true)) => FoldResult::Constant(true),
        (FoldResult::Constant(false), FoldResult::Constant(false)) => FoldResult::Constant(false),
        _ => FoldResult::NotConstant,
    }
}

/// The outcome of comparing two byte counts with a comparison operator.
pub open spec fn compare(operator: BinaryOperator, l: u64, r: u64) -> bool {
    match operator {
        BinaryOperator::Equals => l == r,
        BinaryOperator::NotEquals => l != r,
        BinaryOperator::LessThan => l < r,
        BinaryOperator::LessThanEqual => l <= r,
        BinaryOperator::GreaterThan => l > r,
        _ => l >= r,
    }
}

/// Whether an operator compares two numbers.
pub open spec fn is_comparison(operator: BinaryOperator) -> bool {
    match operator {
        BinaryOperator::And | BinaryOperator::Or | BinaryOperator::Contains
        | BinaryOperator::Matches => false,
        _ => true,
    }
}

/// The constant value of a condition expression, where it has one:
/// boolean literals, `not`, `and`, `or` and groups of constants, and
/// comparisons of two numeric literals whose values fit in a `u64`.
pub open spec fn spec_fold(e: ExprView) -> FoldResult
    decreases e,
{
    match e {
        ExprView::BoolLiteral(b) => FoldResult::Constant(b),
        ExprView::Group(inner) => spec_fold(*inner),
        ExprView::Unary { operator, expression } => match spec_fold(*expression) {
            FoldResult::Constant(b) => FoldResult::Constant(!b),
            FoldResult::NotConstant => FoldResult::NotConstant,
        },
        ExprView::Binary { left, operator, right } => match operator {
            BinaryOperator::And => spec_fold_and(spec_fold(*left), spec_fold(*right)),
            BinaryOperator::Or => spec_fold_or(spec_fold(*left), spec_fold(*right)),
            BinaryOperator::Contains | BinaryOperator::Matches => FoldResult::NotConstant,
            _ => match (spec_numeric_value(*left), spec_numeric_value(*right)) {
                (NumericValue::Value(l), NumericValue::Value(r)) => FoldResult::Constant(
                    compare(operator, l, r),
                ),
                _ => FoldResult::NotConstant,
            },
        },
        _ => FoldResult::NotConstant,
    }
}

/// Folds a condition expression to the boolean it always has, if any.
pub fn fold(expr: &ExprNode) -> (r: FoldResult)
    ensures
        r == spec_fold(expr@),
    decreases expr,
{
    match expr {
        ExprNode::Identifier(_) => FoldResult::NotConstant,
        ExprNode::BoolLiteral(bool_type) => FoldResult::Constant(*bool_type),
        ExprNode::Group(inner) => fold(inner),
        ExprNode::Unary { operator, expression } => match operator {
            UnaryOperator::Not => match fold(expression) {
                FoldResult::Constant(b) => FoldResult::Constant(!b),
                FoldResult::NotConstant => FoldResult::NotConstant,
            },
        },
        ExprNode::Binary { left, operator, right } => match operator {
            BinaryOperator::And => fold_and(fold(left), fold(right)),
            BinaryOperator::Or => fold_or(fold(left), fold(right)),
            BinaryOperator::Equals
            | BinaryOperator::NotEquals
            | BinaryOperator::LessThan
            | BinaryOperator::LessThanEqual
            | BinaryOperator::GreaterThan
            | BinaryOperator::GreaterThanEqual => {
                match (numeric_value(left), numeric_value(right)) {
                    (NumericValue::Value(l), NumericValue::Value(r)) => {
                        FoldResult::Constant(
                            match operator {
                                BinaryOperator::Equals => l == r,
                                BinaryOperator::NotEquals => l != r,
                                BinaryOperator::LessThan => l < r,
                                BinaryOperator::LessThanEqual => l <= r,
                                BinaryOperator::GreaterThan => l > r,
                                _ => l >= r,
                            },
                        )
                    },
                    // Overflow and NotNumeric both mean "can't fold this
                    // comparison" for boolean-folding purposes.
                    _ => FoldResult::NotConstant,
                }
            },
            BinaryOperator::Contains | BinaryOperator::Matches => FoldResult::NotConstant,
        },
        ExprNode::StringLiteral(_)
        | ExprNode::Number(_)
        | ExprNode::FunctionCall { .. }
        | ExprNode::ModuleFunction { .. }
        | ExprNode::AllOf { .. }
        | ExprNode::AllOfThem
        | ExprNode::Of { .. } => FoldResult::NotConstant,
        ExprNode::Empty => FoldResult::NotConstant,
    }
}

/// Conjunction of two fold results.
pub fn fold_and(lhs: FoldResult, rhs: FoldResult) -> (r: FoldResult)
    ensures
        r == spec_fold_and(lhs, rhs),
{
    match (lhs, rhs) {
        (FoldResult::Constant(false), _) => FoldResult::Constant(false),
        (_, FoldResult::Constant(false)) => FoldResult::Constant(false),
        (FoldResult::Constant(true), FoldResult::Constant(true)) => FoldResult::Constant(true),
        _ => FoldResult::NotConstant,
    }
}

/// Disjunction of two fold results.
pub fn fold_or(lhs: FoldResult, rhs: FoldResult) -> (r: FoldResult)
    ensures
        r == spec_fold_or(lhs, rhs),
{
    match (lhs, rhs) {
        (FoldResult::Constant(true), _) => FoldResult::Constant(true),
        (_, FoldResult::Constant(true)) => FoldResult::Constant(true),
        (FoldResult::Constant(false), FoldResult::Constant(false)) => FoldResult::Constant(false),
        _ => FoldResult::NotConstant,
    }
}

/// Reads a numeric value out of an expression node, applying KB/MB unit
/// conversion per YARA's semantics (KB = ×1024, MB = ×2^20).
pub fn numeric_value(expr: &ExprNode) -> (r: NumericValue)
    ensures
        r == spec_numeric_value(expr@),
{
    match expr {
        ExprNode::Number(text) => literal_value(text.as_str()),
        _ => NumericValue::NotNumeric,
    }
}

/// The value of the text of a numeric literal, in bytes.
pub fn literal_value(text: &str) -> (r: NumericValue)
    ensures
        r == spec_literal_value(text@),
{
    let chars = chars_of(text);
    let n = chars.len();
    let (end, unit) = if n >= 2 && chars[n - 1] == 'B' && chars[n - 2] == 'K' {
        (n - 2, Some(NumberUnitType::Kilobyte))
    } else if n >= 2 && chars[n - 1] == 'B' && chars[n - 2] == 'M' {
        (n - 2, Some(NumberUnitType::Megabyte))
    } else {
        (n, None)
    };
    proof {
        assert(split_unit(text@) == (text@.subrange(0, end as int), unit));
    }
    match digits_value(&chars, end) {
        DigitsValue::NotDigits => NumericValue::NotNumeric,
        DigitsValue::TooLarge => {
            proof {
                let v = spec_digits_value(text@.subrange(0, end as int))->0;
                assert(v * unit_factor(unit) >= v) by (nonlinear_arith)
                    requires
                        unit_factor(unit) >= 1,
                ;
            }
            NumericValue::Overflow
        },
        DigitsValue::Fits(size) => apply_unit(size, &unit),
    }
}

/// The value of a run of digits: not digits at all, too large for a `u64`,
/// or the value.
enum DigitsValue {
    NotDigits,
    TooLarge,
    Fits(u64),
}

/// The value of `chars[..end]` read as a numeric literal without a unit.
fn digits_value(chars: &Vec<char>, end: usize) -> (r: DigitsValue)
    requires
        end <= chars@.len(),
    ensures
        match spec_digits_value(chars@.subrange(0, end as int)) {
            Some(v) => match r {
                DigitsValue::Fits(x) => x == v,
                DigitsValue::TooLarge => v > u64::MAX,
                DigitsValue::NotDigits => false,
            },
            None => r is NotDigits,
        },
{
    let ghost s = chars@.subrange(0, end as int);
    if end >= 2 && chars[0] == '0' && chars[1] == 'x' {
        let ghost h = s.subrange(2, s.len() as int);
        // Hexadecimal digits.
        let mut acc: u64 = 0;
        let mut too_large = false;
        let mut i: usize = 2;
        while i < end
            invariant
                2 <= i <= end <= chars@.len(),
                chars@[0] == '0',
                chars@[1] == 'x',
                s == chars@.subrange(0, end as int),
                h == s.subrange(2, s.len() as int),
                forall|k: int| 2 <= k < i ==> spec_is_ascii_hexdigit(#[trigger] chars@[k]),
                !too_large ==> acc == hex_digits_value(h.take(i - 2)),
                too_large ==> hex_digits_value(h.take(i - 2)) > u64::MAX,
            decreases end - i,
        {
            let c = chars[i];
            if !is_ascii_hexdigit(c) {
                proof {
                    assert(h[i - 2] == c);
                    assert(!spec_is_ascii_digit(s[1]));
                }
                return DigitsValue::NotDigits;
            }
            proof {
                assert(h.take(i - 1).drop_last() =~= h.take(i - 2));
                assert(h.take(i - 1).last() == c);
            }
            if !too_large {
                let d = hex_value(c) as u64;
                match acc.checked_mul(16) {
                    Some(m) => match m.checked_add(d) {
                        Some(v) => {
                            acc = v;
                        },
                        None => {
                            too_large = true;
                        },
                    },
                    None => {
                        too_large = true;
                    },
                }
            }
            i += 1;
        }
        proof {
            assert(h.take(i - 2) =~= h);
            assert forall|k: int| 0 <= k < h.len() implies spec_is_ascii_hexdigit(#[trigger] h[k]) by {
                assert(h[k] == chars@[k + 2]);
            }
            if end == 2 {
                assert(!all_hex(h));
                assert(!all_decimal(s)) by {
                    assert(!spec_is_ascii_digit(s[1]));
                }
            }
        }
        if end == 2 {
            return DigitsValue::NotDigits;
        }
        if too_large {
            DigitsValue::TooLarge
        } else {
            DigitsValue::Fits(acc)
        }
    } else {
        // Decimal digits.
        let mut acc: u64 = 0;
        let mut too_large = false;
        let mut i: usize = 0;
        while i < end
            invariant
                i <= end <= chars@.len(),
                !(end >= 2 && chars@[0] == '0' && chars@[1] == 'x'),
                s == chars@.subrange(0, end as int),
                forall|k: int| 0 <= k < i ==> spec_is_ascii_digit(#[trigger] chars@[k]),
                !too_large ==> acc == decimal_value(s.take(i as int)),
                too_large ==> decimal_value(s.take(i as int)) > u64::MAX,
            decreases end - i,
        {
            let c = chars[i];
            if !is_ascii_digit(c) {
                proof {
                    assert(s[i as int] == c);
                }
                return DigitsValue::NotDigits;
            }
            proof {
                assert(s.take(i + 1).drop_last() =~= s.take(i as int));
                assert(s.take(i + 1).last() == c);
            }
            if !too_large {
                let d = (c as u32 - '0' as u32) as u64;
                match acc.checked_mul(10) {
                    Some(m) => match m.checked_add(d) {
                        Some(v) => {
                            acc = v;
                        },
                        None => {
                            too_large = true;
                        },
                    },
                    None => {
                        too_large = true;
                    },
                }
            }
            i += 1;
        }
        proof {
            assert(s.take(i as int) =~= s);
        }
        if end == 0 {
            return DigitsValue::NotDigits;
        }
        if too_large {
            DigitsValue::TooLarge
        } else {
            DigitsValue::Fits(acc)
        }
    }
}

/// Converts a size in units to bytes, as YARA does for `KB` (×1024) and
/// `MB` (×2^20) suffixes.
pub fn apply_unit(size: u64, unit: &Option<NumberUnitType>) -> (r: NumericValue)
    ensures
        r == bytes_value(size as nat * unit_factor(*unit)),
{
    let result = match unit {
        None => {
            assert(unit_factor(*unit) == 1);
            assert(size as nat * 1 == size);
            Some(size)
        },
        Some(NumberUnitType::Kilobyte) => {
            assert(size as nat * unit_factor(*unit) == size * 1024);
            size.checked_mul(1024)
        },
        Some(NumberUnitType::Megabyte) => {
            assert(size as nat * unit_factor(*unit) == size * 1048576);
            size.checked_mul(1_048_576)
        },
    };
    match result {
        Some(value) => NumericValue::Value(value),
        None => NumericValue::Overflow,
    }
}

/// Folding a conjunction does not depend on the order of its sides.
pub proof fn lemma_fold_and_commutative(a: FoldResult, b: FoldResult)
    ensures
        spec_fold_and(a, b) == spec_fold_and(b, a),
{
}

/// Folding a disjunction does not depend on the order of its sides.
pub proof fn lemma_fold_or_commutative(a: FoldResult, b: FoldResult)
    ensures
        spec_fold_or(a, b) == spec_fold_or(b, a),
{
}

/// A conjunction with a side that folds to false folds to false, whatever
/// the other side is.
pub proof fn lemma_fold_and_false_absorbs(a: ExprView, b: ExprView)
    requires
        spec_fold(a) == FoldResult::Constant(false),
    ensures
        spec_fold(
            ExprView::Binary { left: Box::new(a), operator: BinaryOperator::And, right: Box::new(b) },
        ) == FoldResult::Constant(false),
        spec_fold(
            ExprView::Binary { left: Box::new(b), operator: BinaryOperator::And, right: Box::new(a) },
        ) == FoldResult::Constant(false),
{
}

/// A disjunction with a side that folds to true folds to true, whatever
/// the other side is.
pub proof fn lemma_fold_or_true_absorbs(a: ExprView, b: ExprView)
    requires
        spec_fold(a) == FoldResult::Constant(true),
    ensures
        spec_fold(
            ExprView::Binary { left: Box::new(a), operator: BinaryOperator::Or, right: Box::new(b) },
        ) == FoldResult::Constant(true),
        spec_fold(
            ExprView::Binary { left: Box::new(b), operator: BinaryOperator::Or, right: Box::new(a) },
        ) == FoldResult::Constant(true),
{
}

/// Parentheses do not change what an expression folds to.
pub proof fn lemma_fold_group(e: ExprView)
    ensures
        spec_fold(ExprView::Group(Box::new(e))) == spec_fold(e),
{
}

/// Negating twice folds to what the expression itself folds to.
pub proof fn lemma_fold_double_negation(e: ExprView)
    ensures
        spec_fold(
            ExprView::Unary {
                operator: UnaryOperator::Not,
                expression: Box::new(
                    ExprView::Unary { operator: UnaryOperator::Not, expression: Box::new(e) },
                ),
            },
        ) == spec_fold(e),
{
    let inner = ExprView::Unary { operator: UnaryOperator::Not, expression: Box::new(e) };
    assert(spec_fold(inner) == match spec_fold(e) {
        FoldResult::Constant(b) => FoldResult::Constant(!b),
        FoldResult::NotConstant => FoldResult::NotConstant,
    });
}

/// De Morgan: `not (a and b)` folds as `not a or not b` does, and
/// `not (a or b)` as `not a and not b`.
pub proof fn lemma_fold_de_morgan(a: ExprView, b: ExprView)
    ensures
        spec_fold(
            ExprView::Unary {
                operator: UnaryOperator::Not,
                expression: Box::new(
                    ExprView::Binary {
                        left: Box::new(a),
                        operator: BinaryOperator::And,
                        right: Box::new(b),
                    },
                ),
            },
        ) == spec_fold(
            ExprView::Binary {
                left: Box::new(
                    ExprView::Unary { operator: UnaryOperator::Not, expression: Box::new(a) },
                ),
                operator: BinaryOperator::Or,
                right: Box::new(
                    ExprView::Unary { operator: UnaryOperator::Not, expression: Box::new(b) },
                ),
            },
        ),
        spec_fold(
            ExprView::Unary {
                operator: UnaryOperator::Not,
                expression: Box::new(
                    ExprView::Binary {
                        left: Box::new(a),
                        operator: BinaryOperator::Or,
                        right: Box::new(b),
                    },
                ),
            },
        ) == spec_fold(
            ExprView::Binary {
                left: Box::new(
                    ExprView::Unary { operator: UnaryOperator::Not, expression: Box::new(a) },
                ),
                operator: BinaryOperator::And,
                right: Box::new(
                    ExprView::Unary { operator: UnaryOperator::Not, expression: Box::new(b) },
                ),
            },
        ),
{
    let na = ExprView::Unary { operator: UnaryOperator::Not, expression: Box::new(a) };
    let nb = ExprView::Unary { operator: UnaryOperator::Not, expression: Box::new(b) };
    let conj = ExprView::Binary {
        left: Box::new(a),
        operator: BinaryOperator::And,
        right: Box::new(b),
    };
    let disj = ExprView::Binary {
        left: Box::new(a),
        operator: BinaryOperator::Or,
        right: Box::new(b),
    };
    assert(spec_fold(na) == match spec_fold(a) {
        FoldResult::Constant(x) => FoldResult::Constant(!x),
        FoldResult::NotConstant => FoldResult::NotConstant,
    });
    assert(spec_fold(nb) == match spec_fold(b) {
        FoldResult::Constant(x) => FoldResult::Constant(!x),
        FoldResult::NotConstant => FoldResult::NotConstant,
    });
    assert(spec_fold(conj) == spec_fold_and(spec_fold(a), spec_fold(b)));
    assert(spec_fold(disj) == spec_fold_or(spec_fold(a), spec_fold(b)));
}

/// The comparison `a op b` of two numeric literals with texts `a` and `b`.
pub open spec fn literal_comparison(a: Seq<char>, op: BinaryOperator, b: Seq<char>) -> ExprView {
    ExprView::Binary {
        left: Box::new(ExprView::Number(a)),
        operator: op,
        right: Box::new(ExprView::Number(b)),
    }
}

/// A comparison of two numeric literals whose byte values `l` and `r` fit
/// in a `u64` folds to the truth of that comparison of the integers, and
/// swapping the sides while mirroring the operator folds to the same
/// constant.
pub proof fn lemma_fold_compares_literal_values(a: Seq<char>, b: Seq<char>, l: u64, r: u64)
    requires
        spec_literal_value(a) == NumericValue::Value(l),
        spec_literal_value(b) == NumericValue::Value(r),
    ensures
        spec_fold(literal_comparison(a, BinaryOperator::Equals, b)) == FoldResult::Constant(l == r),
        spec_fold(literal_comparison(a, BinaryOperator::NotEquals, b)) == FoldResult::Constant(
            l != r,
        ),
        spec_fold(literal_comparison(a, BinaryOperator::LessThan, b)) == FoldResult::Constant(l < r),
        spec_fold(literal_comparison(a, BinaryOperator::LessThanEqual, b)) == FoldResult::Constant(
            l <= r,
        ),
        spec_fold(literal_comparison(a, BinaryOperator::GreaterThan, b)) == FoldResult::Constant(
            l > r,
        ),
        spec_fold(literal_comparison(a, BinaryOperator::GreaterThanEqual, b))
            == FoldResult::Constant(l >= r),
        spec_fold(literal_comparison(a, BinaryOperator::GreaterThan, b)) == spec_fold(
            literal_comparison(b, BinaryOperator::LessThan, a),
        ),
        spec_fold(literal_comparison(a, BinaryOperator::GreaterThanEqual, b)) == spec_fold(
            literal_comparison(b, BinaryOperator::LessThanEqual, a),
        ),
        spec_fold(literal_comparison(a, BinaryOperator::Equals, b)) == spec_fold(
            literal_comparison(b, BinaryOperator::Equals, a),
        ),
        spec_fold(literal_comparison(a, BinaryOperator::NotEquals, b)) == spec_fold(
            literal_comparison(b, BinaryOperator::NotEquals, a),
        ),
{
}

/// A comparison with a side that is a numeric literal whose value does not
/// fit in a `u64`, or that is not a numeric literal, does not fold.
pub proof fn lemma_fold_needs_literal_values(left: ExprView, op: BinaryOperator, right: ExprView)
    requires
        op != BinaryOperator::And,
        op != BinaryOperator::Or,
        !(spec_numeric_value(left) is Value) || !(spec_numeric_value(right) is Value),
    ensures
        spec_fold(ExprView::Binary { left: Box::new(left), operator: op, right: Box::new(right) })
            == FoldResult::NotConstant,
{
}

/// Boolean literals fold to their value, and `not`, `and` and `or` of
/// constants fold to the negation, conjunction and disjunction of their
/// values.
pub proof fn lemma_fold_boolean_connectives(a: ExprView, b: ExprView, x: bool, y: bool)
    requires
        spec_fold(a) == FoldResult::Constant(x),
        spec_fold(b) == FoldResult::Constant(y),
    ensures
        spec_fold(ExprView::BoolLiteral(x)) == FoldResult::Constant(x),
        spec_fold(ExprView::Unary { operator: UnaryOperator::Not, expression: Box::new(a) })
            == FoldResult::Constant(!x),
        spec_fold(
            ExprView::Binary { left: Box::new(a), operator: BinaryOperator::And, right: Box::new(b) },
        ) == FoldResult::Constant(x && y),
        spec_fold(
            ExprView::Binary { left: Box::new(a), operator: BinaryOperator::Or, right: Box::new(b) },
        ) == FoldResult::Constant(x || y),
{
}

/// An `and` with a side that does not fold folds only when the other side
/// is constant false, and an `or` only when it is constant true.
pub proof fn lemma_fold_unknown_side(a: ExprView, b: ExprView)
    requires
        spec_fold(a) == FoldResult::NotConstant,
    ensures
        spec_fold(
            ExprView::Binary { left: Box::new(a), operator: BinaryOperator::And, right: Box::new(b) },
        ) == if spec_fold(b) == FoldResult::Constant(false) {
            FoldResult::Constant(false)
        } else {
            FoldResult::NotConstant
        },
        spec_fold(
            ExprView::Binary { left: Box::new(a), operator: BinaryOperator::Or, right: Box::new(b) },
        ) == if spec_fold(b) == FoldResult::Constant(true) {
            FoldResult::Constant(true)
        } else {
            FoldResult::NotConstant
        },
{
}

} // verus!
