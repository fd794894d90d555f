use vstd::prelude::*;
use vstd::string::*;

verus! {

/// Exact comparison of a piece of text with another, character by character.
pub fn text_eq(s: &str, t: &str) -> (r: bool)
    ensures
        r == (s@ == t@),
{
    let n = s.unicode_len();
    if n != t.unicode_len() {
        return false;
    }
    let mut i: usize = 0;
    while i < n
        invariant
            n == s@.len(),
            n == t@.len(),
            i <= n,
            forall|j: int| 0 <= j < i ==> s@[j] == t@[j],
        decreases n - i,
    {
        if s.get_char(i) != t.get_char(i) {
            return false;
        }
        i += 1;
    }
    assert(s@ =~= t@);
    true
}

/// Whether the text is one of two accepted spellings.
pub open spec fn spelled(t: Seq<char>, short: &str, long: &str) -> bool {
    t == short@ || t == long@
}

pub fn is_spelled(s: &str, short: &str, long: &str) -> (r: bool)
    ensures
        r == spelled(s@, short, long),
{
    text_eq(s, short) || text_eq(s, long)
}

} // verus!
