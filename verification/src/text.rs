//! Character scanning helpers shared by the typography and path modules.

use vstd::prelude::*;

verus! {

/// Index of the last occurrence of `c` in `s`, or `-1` when `c` does not
/// occur at all.
pub open spec fn last_index_of(s: Seq<char>, c: char) -> int
    decreases s.len(),
{
    if s.len() == 0 {
        -1
    } else if s.last() == c {
        s.len() - 1
    } else {
        last_index_of(s.drop_last(), c)
    }
}

/// `last_index_of` really is the last occurrence: it stays below the length,
/// it points at `c` when it is non-negative, nothing after it is `c`, and it
/// is `-1` exactly when `c` does not occur.
pub proof fn lemma_last_index_of(s: Seq<char>, c: char)
    ensures
        -1 <= last_index_of(s, c) < s.len(),
        last_index_of(s, c) >= 0 ==> s[last_index_of(s, c)] == c,
        forall|k: int| last_index_of(s, c) < k < s.len() ==> s[k] != c,
    decreases s.len(),
{
    if s.len() > 0 && s.last() != c {
        lemma_last_index_of(s.drop_last(), c);
        assert forall|k: int| last_index_of(s, c) < k < s.len() implies s[k] != c by {
            if k < s.len() - 1 {
                assert(s.drop_last()[k] == s[k]);
            }
        }
    }
}

/// Last position of `c` among the characters of `s`: returns `(true, i)`
/// when `c` occurs and `i` is the character index of its last occurrence,
/// and `(false, 0)` otherwise.
pub fn rfind_char(s: &str, c: char) -> (r: (bool, usize))
    ensures
        r.0 <==> last_index_of(s@, c) >= 0,
        r.0 ==> r.1 == last_index_of(s@, c),
        !r.0 ==> r.1 == 0,
{
    let n = s.unicode_len();
    let mut found = false;
    let mut idx: usize = 0;
    let mut i: usize = 0;
    while i < n
        invariant
            i <= n,
            n == s@.len(),
            found <==> last_index_of(s@.take(i as int), c) >= 0,
            found ==> idx == last_index_of(s@.take(i as int), c),
            !found ==> idx == 0,
        decreases n - i,
    {
        let ch = s.get_char(i);
        proof {
            assert(s@.take(i + 1).drop_last() =~= s@.take(i as int));
            assert(s@.take(i + 1).last() == s@[i as int]);
        }
        if ch == c {
            found = true;
            idx = i;
        }
        i = i + 1;
    }
    proof {
        assert(s@.take(n as int) =~= s@);
    }
    (found, idx)
}

} // verus!
