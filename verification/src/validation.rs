//! Validation of human-supplied location names.
//!
//! A name is accepted when it is 1 to 60 characters long and every character
//! is an ASCII letter or digit, an underscore, a hyphen, whitespace, or a
//! parenthesis.

use vstd::prelude::*;
use vstd::string::*;

verus! {

/// Whitespace characters admitted in a location name.
pub open spec fn is_space_char(c: char) -> bool {
    c == ' ' || c == '\t' || c == '\n' || c == '\r' || c == '\u{b}' || c == '\u{c}'
}

/// Characters admitted in a location name: ASCII letters and digits,
/// underscore, hyphen, whitespace, and parentheses.
pub open spec fn is_name_char(c: char) -> bool {
    ||| ('a' <= c && c <= 'z')
    ||| ('A' <= c && c <= 'Z')
    ||| ('0' <= c && c <= '9')
    ||| c == '_'
    ||| c == '-'
    ||| c == '('
    ||| c == ')'
    ||| is_space_char(c)
}

/// A well-formed location name: 1 to 60 characters, all from the name alphabet.
pub open spec fn valid_name(s: Seq<char>) -> bool {
    &&& 1 <= s.len() <= 60
    &&& forall|i: int| 0 <= i < s.len() ==> is_name_char(s[i])
}

pub(crate) fn is_space_char_exec(c: char) -> (r: bool)
    ensures
        r == is_space_char(c),
{
    c == ' ' || c == '\t' || c == '\n' || c == '\r' || c == '\u{b}' || c == '\u{c}'
}

fn is_name_char_exec(c: char) -> (r: bool)
    ensures
        r == is_name_char(c),
{
    ('a' <= c && c <= 'z') || ('A' <= c && c <= 'Z') || ('0' <= c && c <= '9') || c == '_'
        || c == '-' || c == '(' || c == ')' || is_space_char_exec(c)
}

/// Decides whether a location name is well-formed.
///
/// Accepts exactly the names of length 1 to 60 whose characters all lie in
/// the name alphabet; every other name is rejected.
pub fn validate(name: &str) -> (r: bool)
    ensures
        r == valid_name(name@),
{
    let len = name.unicode_len();
    if len < 1 || len > 60 {
        return false;
    }
    let mut i: usize = 0;
    while i < len
        invariant
            len == name@.len(),
            0 <= i <= len,
            forall|k: int| 0 <= k < i ==> is_name_char(name@[k]),
        decreases len - i,
    {
        let c = name.get_char(i);
        if !is_name_char_exec(c) {
            return false;
        }
        i += 1;
    }
    true
}

} // verus!
