//! Identifier validation: the sole gate between caller-influenced names and
//! dynamically built SQL text. Values are always bound as parameters; names
//! must pass this predicate before they may appear in a statement.

use vstd::prelude::*;
use vstd::string::StrSliceExecFns;

verus! {

/// A character allowed in a table, column, or index name.
pub open spec fn is_word_char(c: char) -> bool {
    ('a' <= c && c <= 'z') || ('A' <= c && c <= 'Z') || ('0' <= c && c <= '9') || c == '_'
}

/// A valid identifier is non-empty and made of ASCII letters, digits and
/// underscores only.
pub open spec fn valid_identifier(s: Seq<char>) -> bool {
    s.len() > 0 && forall|i: int| 0 <= i < s.len() ==> is_word_char(#[trigger] s[i])
}

/// Holds iff `s` is non-empty and every character is an ASCII letter, digit,
/// or underscore.
pub fn is_valid_identifier(s: &str) -> (r: bool)
    ensures
        r == valid_identifier(s@),
{
    let n = s.unicode_len();
    if n == 0 {
        return false;
    }
    let mut i: usize = 0;
    while i < n
        invariant
            i <= n,
            n == s@.len(),
            forall|j: int| 0 <= j < i ==> is_word_char(#[trigger] s@[j]),
        decreases n - i,
    {
        let c = s.get_char(i);
        let ok = ('a' <= c && c <= 'z') || ('A' <= c && c <= 'Z') || ('0' <= c && c <= '9') || c
            == '_';
        if !ok {
            return false;
        }
        i += 1;
    }
    true
}

} // verus!
