//! Sequence and string helpers shared by the parsers.
use vstd::prelude::*;

verus! {

/// `i` is the first position below `n` where `p` holds.
pub open spec fn is_first_where(p: spec_fn(int) -> bool, n: int, i: int) -> bool {
    &&& 0 <= i < n
    &&& p(i)
    &&& forall|k: int| 0 <= k < i ==> !#[trigger] p(k)
}

/// The first position below `n` where `p` holds, if any.
pub open spec fn first_where(p: spec_fn(int) -> bool, n: int) -> Option<int> {
    if exists|i: int| is_first_where(p, n, i) {
        Some(choose|i: int| is_first_where(p, n, i))
    } else {
        None
    }
}

pub proof fn lemma_first_where_is(p: spec_fn(int) -> bool, n: int, i: int)
    requires
        is_first_where(p, n, i),
    ensures
        first_where(p, n) == Some(i),
{
    let j = choose|j: int| is_first_where(p, n, j);
    assert(is_first_where(p, n, j));
    if j < i {
        assert(!p(j));
    } else if i < j {
        assert(!p(i));
    }
}

pub proof fn lemma_first_where_none(p: spec_fn(int) -> bool, n: int)
    requires
        forall|k: int| 0 <= k < n ==> !#[trigger] p(k),
    ensures
        first_where(p, n) is None,
{
}

/// Holds at the positions of `s` where `c` stands.
pub open spec fn char_is(s: Seq<char>, c: char) -> spec_fn(int) -> bool {
    |k: int| s[k] == c
}

/// The position of the first `c` in `s`, if `s` holds one.
pub open spec fn first_index(s: Seq<char>, c: char) -> Option<int> {
    first_where(char_is(s, c), s.len() as int)
}

/// Position of the first `c` in `s`.
pub fn find_char(s: &str, c: char) -> (r: Option<usize>)
    ensures
        r matches Some(i) ==> first_index(s@, c) == Some(i as int),
        r is None ==> first_index(s@, c) is None,
{
    let n = s.unicode_len();
    let ghost p = char_is(s@, c);
    let mut i: usize = 0;
    while i < n
        invariant
            n == s@.len(),
            i <= n,
            p == char_is(s@, c),
            forall|k: int| 0 <= k < i ==> !#[trigger] p(k),
        decreases n - i,
    {
        if s.get_char(i) == c {
            proof {
                lemma_first_where_is(p, n as int, i as int);
            }
            return Some(i);
        }
        i = i + 1;
    }
    proof {
        lemma_first_where_none(p, n as int);
    }
    None
}

/// Owned copy of the characters `from..to` of `s`.
pub fn slice_string(s: &str, from: usize, to: usize) -> (r: String)
    requires
        from <= to <= s@.len(),
    ensures
        r@ == s@.subrange(from as int, to as int),
{
    String::from_str(s.substring_char(from, to))
}

/// Whether `s` ends with `suffix`.
pub fn ends_with(s: &str, suffix: &str) -> (r: bool)
    ensures
        r == (suffix@.len() <= s@.len() && s@.subrange(
            s@.len() - suffix@.len(),
            s@.len() as int,
        ) == suffix@),
{
    let n = s.unicode_len();
    let m = suffix.unicode_len();
    if m > n {
        return false;
    }
    let off = n - m;
    let mut i: usize = 0;
    while i < m
        invariant
            n == s@.len(),
            m == suffix@.len(),
            off == n - m,
            i <= m,
            forall|k: int| 0 <= k < i ==> s@[off + k] == suffix@[k],
        decreases m - i,
    {
        if s.get_char(off + i) != suffix.get_char(i) {
            assert(s@.subrange(off as int, n as int)[i as int] != suffix@[i as int]);
            return false;
        }
        i = i + 1;
    }
    assert(s@.subrange(off as int, n as int) =~= suffix@);
    true
}

/// Whether two strings hold the same characters.
pub fn str_eq(a: &str, b: &str) -> (r: bool)
    ensures
        r == (a@ == b@),
{
    let n = a.unicode_len();
    if n != b.unicode_len() {
        return false;
    }
    let mut i: usize = 0;
    while i < n
        invariant
            n == a@.len(),
            n == b@.len(),
            i <= n,
            forall|k: int| 0 <= k < i ==> a@[k] == b@[k],
        decreases n - i,
    {
        if a.get_char(i) != b.get_char(i) {
            return false;
        }
        i = i + 1;
    }
    assert(a@ =~= b@);
    true
}

} // verus!
