//! Validity of account identifiers: two to sixty-four characters, lower-case
//! letters, digits and the separators `-`, `_` and `.`, where a separator
//! never starts or ends the identifier and no two separators are adjacent.

use vstd::prelude::*;

verus! {

pub open spec fn is_name_char(c: char) -> bool {
    ('a' <= c && c <= 'z') || ('0' <= c && c <= '9')
}

pub open spec fn is_separator_char(c: char) -> bool {
    c == '-' || c == '_' || c == '.'
}

/// A well-formed account identifier.
pub open spec fn valid_account_id(s: Seq<char>) -> bool {
    &&& 2 <= s.len() <= 64
    &&& forall|i: int| 0 <= i < s.len() ==> is_name_char(s[i]) || is_separator_char(s[i])
    &&& is_name_char(s[0])
    &&& is_name_char(s[s.len() - 1])
    &&& forall|i: int|
        0 <= i < s.len() - 1 ==> !(#[trigger] is_separator_char(s[i]) && is_separator_char(
            s[i + 1],
        ))
}

/// Decides `valid_account_id` for a given identifier.
pub fn is_valid_account_id(s: &str) -> (b: bool)
    ensures
        b == valid_account_id(s@),
{
    let n = s.unicode_len();
    if n < 2 || n > 64 {
        return false;
    }
    let mut prev_sep: bool = true;
    let mut i: usize = 0;
    while i < n
        invariant
            n == s@.len(),
            2 <= n <= 64,
            0 <= i <= n,
            forall|j: int| 0 <= j < i ==> is_name_char(s@[j]) || is_separator_char(s@[j]),
            forall|j: int|
                0 <= j < i - 1 ==> !(#[trigger] is_separator_char(s@[j]) && is_separator_char(
                    s@[j + 1],
                )),
            i > 0 ==> is_name_char(s@[0]),
            prev_sep == if i == 0 {
                true
            } else {
                is_separator_char(s@[i - 1])
            },
        decreases n - i,
    {
        let c = s.get_char(i);
        let is_name = ('a' <= c && c <= 'z') || ('0' <= c && c <= '9');
        let is_sep = c == '-' || c == '_' || c == '.';
        if !is_name && !is_sep {
            return false;
        }
        if is_sep && prev_sep {
            return false;
        }
        prev_sep = is_sep;
        i = i + 1;
    }
    !prev_sep
}

} // verus!
