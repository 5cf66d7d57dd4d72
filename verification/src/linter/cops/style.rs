//! The parent module for all cops pertaining to style of YARA rules

pub mod condition_spacing;
pub mod meta_keys_order;
pub mod missing_required_meta;
pub mod rule_name_case;
pub mod string_identifier;

use vstd::prelude::*;

use crate::text::{
    chars_of, is_ascii_alphanumeric, is_ascii_digit, is_ascii_lowercase, is_ascii_uppercase,
    spec_is_ascii_alphanumeric, spec_is_ascii_digit, spec_is_ascii_lowercase,
    spec_is_ascii_uppercase,
};

verus! {

/// A character that may continue a snake_case word.
pub open spec fn snake_word_char(c: char) -> bool {
    spec_is_ascii_lowercase(c) || spec_is_ascii_digit(c)
}

/// Whether a snake_case string may start as `s` does: a lowercase letter,
/// or `_` or `$` followed by a lowercase letter.
pub open spec fn snake_start(s: Seq<char>) -> bool {
    ||| s.len() > 0 && spec_is_ascii_lowercase(s[0])
    ||| s.len() > 1 && (s[0] == '_' || s[0] == '$') && spec_is_ascii_lowercase(s[1])
}

/// Whether the character at `i` may stand where it does in a snake_case
/// string: a lowercase letter, a digit, or `_` followed by one of these.
pub open spec fn snake_char_at(s: Seq<char>, i: int) -> bool {
    ||| snake_word_char(s[i])
    ||| s[i] == '_' && i + 1 < s.len() && snake_word_char(s[i + 1])
}

/// Whether `s` is snake_case: it starts as [`snake_start`] says, and every
/// later character is a lowercase letter, a digit, or an underscore that
/// a lowercase letter or digit follows. `$` is accepted at the start so
/// that string identifiers can be checked.
pub open spec fn spec_is_snake_case(s: Seq<char>) -> bool {
    &&& snake_start(s)
    &&& forall|i: int| 1 <= i < s.len() ==> #[trigger] snake_char_at(s, i)
}

/// Whether `s` is PascalCase: an uppercase ASCII letter followed by ASCII
/// letters and digits only.
pub open spec fn spec_is_pascal_case(s: Seq<char>) -> bool {
    &&& s.len() > 0
    &&& spec_is_ascii_uppercase(s[0])
    &&& forall|i: int| 1 <= i < s.len() ==> spec_is_ascii_alphanumeric(#[trigger] s[i])
}

/// Checks if string passed is snake case
///
/// # Returns
///
/// Returns `true` if string is in snake case, `false` if it is not or if
/// it is empty.
pub fn is_snake_case(s: &str) -> (b: bool)
    ensures
        b == spec_is_snake_case(s@),
{
    let chars = chars_of(s);
    if chars.len() == 0 {
        return false;
    }
    let c0 = chars[0];
    if is_ascii_lowercase(c0) {
    } else if c0 == '_' || c0 == '$' {
        // The $ is for checking identifiers. Is does not impact the ability
        // to pass rule names into this function
        if !(chars.len() > 1 && is_ascii_lowercase(chars[1])) {
            return false;
        }
    } else {
        return false;
    }
    let mut i: usize = 1;
    while i < chars.len()
        invariant
            chars@ == s@,
            1 <= i <= chars@.len(),
            forall|k: int| 1 <= k < i ==> #[trigger] snake_char_at(chars@, k),
        decreases chars.len() - i,
    {
        let c = chars[i];
        if is_ascii_lowercase(c) || is_ascii_digit(c) {
        } else if c == '_' {
            if !(i + 1 < chars.len() && (is_ascii_lowercase(chars[i + 1]) || is_ascii_digit(
                chars[i + 1],
            ))) {
                assert(!snake_char_at(s@, i as int));
                return false;
            }
        } else {
            assert(!snake_char_at(s@, i as int));
            return false;
        }
        i += 1;
    }
    true
}

/// Checks if string passed is pascal case
///
/// # Returns
///
/// Returns `true` if string is in pascal case, `false` if it is not or if
/// it is empty.
pub fn is_pascal_case(s: &str) -> (b: bool)
    ensures
        b == spec_is_pascal_case(s@),
{
    let chars = chars_of(s);
    if chars.len() == 0 {
        return false;
    }
    if !is_ascii_uppercase(chars[0]) {
        return false;
    }
    let mut i: usize = 1;
    while i < chars.len()
        invariant
            chars@ == s@,
            1 <= i <= chars@.len(),
            forall|k: int| 1 <= k < i ==> spec_is_ascii_alphanumeric(#[trigger] chars@[k]),
        decreases chars.len() - i,
    {
        if !is_ascii_alphanumeric(chars[i]) {
            return false;
        }
        i += 1;
    }
    true
}

} // verus!
