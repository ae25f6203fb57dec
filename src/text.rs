use vstd::prelude::*;
use vstd::string::*;

verus! {

/// A sequence of string pairs, as pairs of character sequences.
pub open spec fn pairs_view(a: Seq<(String, String)>) -> Seq<(Seq<char>, Seq<char>)> {
    a.map_values(|p: (String, String)| (p.0@, p.1@))
}

/// The first index at or after `i` that holds `a` or `b`, or the length.
pub open spec fn find_from(s: Seq<char>, i: int, a: char, b: char) -> int
    decreases s.len() - i,
{
    if i < 0 || i >= s.len() {
        s.len() as int
    } else if s[i] == a || s[i] == b {
        i
    } else {
        find_from(s, i + 1, a, b)
    }
}

/// `find_from` is the first index at or after `i` that holds `a` or `b`.
pub proof fn lemma_find_from_is_first(s: Seq<char>, i: int, j: int, a: char, b: char)
    requires
        0 <= i <= j <= s.len(),
        forall|k: int| i <= k < j ==> s[k] != a && s[k] != b,
        j < s.len() ==> (s[j] == a || s[j] == b),
    ensures
        find_from(s, i, a, b) == j,
    decreases j - i,
{
    if i < j {
        lemma_find_from_is_first(s, i + 1, j, a, b);
    }
}

/// Nothing before `find_from` holds `a` or `b`, and it lies in range.
pub proof fn lemma_find_from_bounds(s: Seq<char>, i: int, a: char, b: char)
    requires
        0 <= i <= s.len(),
    ensures
        i <= find_from(s, i, a, b) <= s.len(),
        forall|k: int| i <= k < find_from(s, i, a, b) ==> s[k] != a && s[k] != b,
        find_from(s, i, a, b) < s.len() ==> (s[find_from(s, i, a, b)] == a || s[find_from(s, i, a, b)] == b),
    decreases s.len() - i,
{
    if i < s.len() && !(s[i] == a || s[i] == b) {
        lemma_find_from_bounds(s, i + 1, a, b);
    }
}

/// Finds the first position of `a` or `b` in `s`.
pub fn find_either(s: &str, a: char, b: char) -> (r: usize)
    ensures
        r == find_from(s@, 0, a, b),
        r <= s@.len(),
{
    let n = s.unicode_len();
    let mut i: usize = 0;
    while i < n
        invariant
            n == s@.len(),
            i <= n,
            find_from(s@, 0, a, b) == find_from(s@, i as int, a, b),
        decreases n - i,
    {
        let c = s.get_char(i);
        if c == a || c == b {
            return i;
        }
        i = i + 1;
    }
    i
}

/// Compares two strings character by character.
pub fn text_eq(a: &str, b: &str) -> (r: bool)
    ensures
        r == (a@ == b@),
{
    let n = a.unicode_len();
    if n != b.unicode_len() {
        return false;
    }
    let mut i: usize = 0;
    while i < n
        invariant
            n == a@.len(),
            n == b@.len(),
            i <= n,
            a@.subrange(0, i as int) == b@.subrange(0, i as int),
        decreases n - i,
    {
        if a.get_char(i) != b.get_char(i) {
            assert(a@[i as int] != b@[i as int]);
            return false;
        }
        assert(a@.subrange(0, i + 1) =~= a@.subrange(0, i as int).push(a@[i as int]));
        assert(b@.subrange(0, i + 1) =~= b@.subrange(0, i as int).push(b@[i as int]));
        i = i + 1;
    }
    assert(a@ =~= a@.subrange(0, n as int));
    assert(b@ =~= b@.subrange(0, n as int));
    true
}

} // verus!
