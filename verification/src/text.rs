//! Questions about texts: whether one starts with another, or holds it.

use vstd::prelude::*;
use vstd::string::*;

verus! {

/// `text` starts with `prefix`.
pub open spec fn starts_with(text: Seq<char>, prefix: Seq<char>) -> bool {
    prefix.len() <= text.len() && text.subrange(0, prefix.len() as int) == prefix
}

/// `part` stands in `text` from position `at` on.
pub open spec fn stands_at(text: Seq<char>, part: Seq<char>, at: int) -> bool {
    0 <= at && at + part.len() <= text.len() && text.subrange(at, at + part.len()) == part
}

/// `part` stands somewhere in `text`.
pub open spec fn contains_text(text: Seq<char>, part: Seq<char>) -> bool {
    exists|at: int| stands_at(text, part, at)
}

/// Whether `part` stands in `text` from position `at` on.
pub fn matches_at(text: &str, part: &str, at: usize) -> (r: bool)
    ensures
        r == stands_at(text@, part@, at as int),
{
    let n = text.unicode_len();
    let m = part.unicode_len();
    if at > n || m > n - at {
        return false;
    }
    let mut i: usize = 0;
    while i < m
        invariant
            n == text@.len(),
            m == part@.len(),
            at + m <= n,
            i <= m,
            forall|j: int| 0 <= j < i ==> text@[at + j] == part@[j],
        decreases m - i,
    {
        if text.get_char(at + i) != part.get_char(i) {
            assert(text@.subrange(at as int, at + m)[i as int] == text@[at + i]);
            return false;
        }
        i = i + 1;
    }
    assert(text@.subrange(at as int, at + m) =~= part@);
    true
}

/// Whether `text` starts with `prefix`.
pub fn has_prefix(text: &str, prefix: &str) -> (r: bool)
    ensures
        r == starts_with(text@, prefix@),
{
    matches_at(text, prefix, 0)
}

/// Whether `part` stands somewhere in `text`.
pub fn has_part(text: &str, part: &str) -> (r: bool)
    ensures
        r == contains_text(text@, part@),
{
    let n = text.unicode_len();
    let m = part.unicode_len();
    if m > n {
        return false;
    }
    let limit: usize = n - m;
    let mut at: usize = 0;
    loop
        invariant
            n == text@.len(),
            m == part@.len(),
            limit == n - m,
            at <= limit,
            forall|j: int| 0 <= j < at ==> !stands_at(text@, part@, j),
        decreases limit - at,
    {
        if matches_at(text, part, at) {
            return true;
        }
        if at == limit {
            return false;
        }
        at = at + 1;
    }
}

} // verus!
