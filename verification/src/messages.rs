//! The grammar of transfer messages.  A token transfer carries a message
//! naming the request; a message is a brace-enclosed object of fixed
//! string fields whose final field value is the request's target.  This
//! module holds the scanning primitives the message parsers share.

use vstd::prelude::*;
use vstd::string::StrSliceExecFns;

verus! {

/// A target holds no quote character, so its rendering is unambiguous.
pub open spec fn no_quote(s: Seq<char>) -> bool {
    forall|i: int| 0 <= i < s.len() ==> s[i] != '"'
}

/// Index of the first quote at or after `i`, or the length when none is
/// left.
pub open spec fn first_quote_from(s: Seq<char>, i: int) -> int
    recommends
        0 <= i <= s.len(),
    decreases s.len() - i,
{
    if i >= s.len() {
        s.len() as int
    } else if s[i] == '"' {
        i
    } else {
        first_quote_from(s, i + 1)
    }
}

pub proof fn lemma_first_quote_bounds(s: Seq<char>, i: int)
    requires
        0 <= i <= s.len(),
    ensures
        i <= first_quote_from(s, i) <= s.len(),
        first_quote_from(s, i) < s.len() ==> s[first_quote_from(s, i)] == '"',
        forall|j: int| i <= j < first_quote_from(s, i) ==> s[j] != '"',
    decreases s.len() - i,
{
    if i < s.len() && s[i] != '"' {
        lemma_first_quote_bounds(s, i + 1);
    }
}

/// When every character of `[i, q)` is quote-free and `s[q]` is a quote,
/// the first quote from `i` is `q`.
pub proof fn lemma_first_quote_is(s: Seq<char>, i: int, q: int)
    requires
        0 <= i <= q < s.len(),
        s[q] == '"',
        forall|j: int| i <= j < q ==> s[j] != '"',
    ensures
        first_quote_from(s, i) == q,
    decreases q - i,
{
    if i < q {
        lemma_first_quote_is(s, i + 1, q);
    }
}

/// The message tail beginning at `k`: it runs to the first quote, which a
/// single closing brace must follow, ending the message.
pub open spec fn spec_parse_tail(s: Seq<char>, k: int) -> Option<Seq<char>> {
    let q = first_quote_from(s, k);
    if q + 2 == s.len() && s[s.len() - 1] == '}' {
        Some(s.subrange(k, q))
    } else {
        None
    }
}

/// Whether `pat` occurs in `s` at position `at`.
pub open spec fn spec_matches_at(s: Seq<char>, at: int, pat: Seq<char>) -> bool {
    at + pat.len() <= s.len() && s.subrange(at, at + pat.len()) == pat
}

/// Decides `spec_matches_at`.
pub fn matches_at(s: &str, at: usize, pat: &str) -> (b: bool)
    requires
        at <= s@.len(),
    ensures
        b == spec_matches_at(s@, at as int, pat@),
{
    let n = s.unicode_len();
    let m = pat.unicode_len();
    if m > n - at {
        return false;
    }
    for j in 0..m
        invariant
            n == s@.len(),
            m == pat@.len(),
            at + m <= n,
            forall|i: int| 0 <= i < j ==> s@[at + i] == pat@[i],
    {
        if s.get_char(at + j) != pat.get_char(j) {
            proof {
                assert(s@.subrange(at as int, at + pat@.len())[j as int] != pat@[j as int]);
            }
            return false;
        }
    }
    proof {
        assert(s@.subrange(at as int, at + pat@.len()) =~= pat@);
    }
    true
}

/// Whether two strings hold the same characters.
pub fn str_eq(a: &str, b: &str) -> (r: bool)
    ensures
        r == (a@ == b@),
{
    let r = matches_at(a, 0, b) && a.unicode_len() == b.unicode_len();
    proof {
        if r {
            assert(a@ =~= b@);
        } else {
            if a@ == b@ {
                assert(a@.subrange(0, b@.len() as int) =~= b@);
            }
        }
    }
    r
}

/// Index of the first quote at or after `from`.
pub fn find_quote_from(s: &str, from: usize) -> (r: usize)
    requires
        from <= s@.len(),
    ensures
        r == first_quote_from(s@, from as int),
{
    let n = s.unicode_len();
    let mut i: usize = from;
    while i < n
        invariant
            from <= i <= n,
            n == s@.len(),
            first_quote_from(s@, from as int) == first_quote_from(s@, i as int),
        decreases n - i,
    {
        if s.get_char(i) == '"' {
            return i;
        }
        i = i + 1;
    }
    n
}

/// Extracts the tail of a message beginning at `k`, as `spec_parse_tail`
/// defines it.
pub fn parse_tail(msg: &str, k: usize) -> (r: Option<String>)
    requires
        k <= msg@.len(),
    ensures
        match r {
            Some(t) => spec_parse_tail(msg@, k as int) == Some(t@),
            None => spec_parse_tail(msg@, k as int) is None,
        },
{
    let n = msg.unicode_len();
    let q = find_quote_from(msg, k);
    proof {
        lemma_first_quote_bounds(msg@, k as int);
    }
    if n >= 2 && q == n - 2 && msg.get_char(n - 1) == '}' {
        Some(msg.substring_char(k, q).to_owned())
    } else {
        None
    }
}

} // verus!
