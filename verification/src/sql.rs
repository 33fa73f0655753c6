//! Patterns for the SQL operator `LIKE`, for a table that a database keeps.
//!
//! In a pattern `%` stands for any run of characters and `_` for any one
//! character; a backslash before one of the three takes that meaning away.

use vstd::prelude::*;
use crate::text::chars_of;

verus! {

/// The character has a meaning of its own in a pattern.
pub open spec fn is_special(c: char) -> bool {
    c == '\\' || c == '%' || c == '_'
}

/// The character as a pattern that matches it alone.
pub open spec fn escaped_char(c: char) -> Seq<char> {
    if is_special(c) {
        seq!['\\', c]
    } else {
        seq![c]
    }
}

/// The text as a pattern that matches it alone.
pub open spec fn escaped(text: Seq<char>) -> Seq<char>
    decreases text.len(),
{
    if text.len() == 0 {
        Seq::empty()
    } else {
        escaped(text.drop_last()) + escaped_char(text.last())
    }
}

/// The pattern that matches the texts of which `substring` is a part.
pub open spec fn like_pattern_of(substring: Seq<char>) -> Seq<char> {
    seq!['%'] + escaped(substring) + seq!['%']
}

/// The `LIKE` pattern for "contains `substring`", with backslash as the
/// escape character.
pub fn like_pattern(substring: &str) -> (pattern: String)
    ensures
        pattern@ == like_pattern_of(substring@),
{
    let chars = chars_of(substring);
    let mut pattern = String::new();
    pattern.push('%');
    let mut i: usize = 0;
    while i < chars.len()
        invariant
            i <= chars.len(),
            pattern@ == seq!['%'] + escaped(chars@.take(i as int)),
        decreases chars.len() - i,
    {
        let c = chars[i];
        assert(chars@.take(i + 1).drop_last() == chars@.take(i as int));
        if c == '\\' || c == '%' || c == '_' {
            pattern.push('\\');
        }
        pattern.push(c);
        i += 1;
    }
    assert(chars@.take(chars.len() as int) == chars@);
    pattern.push('%');
    pattern
}

} // verus!
