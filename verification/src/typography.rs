//! Orphan-word prevention: the last ordinary space of a text run becomes a
//! non-breaking space, so that line wrapping cannot strand the final word.

use vstd::prelude::*;

use crate::text::{last_index_of, lemma_last_index_of, rfind_char};

verus! {

/// The non-breaking space character.
pub open spec fn nbsp() -> char {
    '\u{00A0}'
}

/// `s` with its last ordinary space replaced by a non-breaking space;
/// `s` unchanged when it holds no space.
pub open spec fn replace_last_space(s: Seq<char>) -> Seq<char> {
    if last_index_of(s, ' ') >= 0 {
        s.update(last_index_of(s, ' '), nbsp())
    } else {
        s
    }
}

/// The orphan-prevention law: the transform never changes the length; text
/// without a space passes through unchanged; otherwise exactly one position
/// changes, it held a space, no space follows it, and it now holds a
/// non-breaking space.
pub proof fn lemma_orphan_prevention(s: Seq<char>)
    ensures
        replace_last_space(s).len() == s.len(),
        (forall|k: int| 0 <= k < s.len() ==> s[k] != ' ') ==> replace_last_space(s) == s,
        (exists|k: int| 0 <= k < s.len() && s[k] == ' ') ==> {
            let j = last_index_of(s, ' ');
            &&& 0 <= j < s.len()
            &&& s[j] == ' '
            &&& forall|k: int| j < k < s.len() ==> s[k] != ' '
            &&& replace_last_space(s)[j] == nbsp()
            &&& forall|k: int| 0 <= k < s.len() && k != j ==> replace_last_space(s)[k] == s[k]
        },
{
    lemma_last_index_of(s, ' ');
}

/// Replaces the last breaking space of `s` with a non-breaking space, or
/// returns `s` unchanged when it holds no space.
pub fn replace_last_bsp_with_nbsp(s: &str) -> (r: String)
    ensures
        r@ == replace_last_space(s@),
{
    let (found, idx) = rfind_char(s, ' ');
    if !found {
        s.to_owned()
    } else {
        proof {
            lemma_last_index_of(s@, ' ');
        }
        let n = s.unicode_len();
        let head = s.substring_char(0, idx);
        let tail = s.substring_char(idx + 1, n);
        let mut r = head.to_owned();
        r.append("\u{00A0}");
        r.append(tail);
        proof {
            reveal_strlit("\u{00A0}");
            assert(r@ =~= replace_last_space(s@));
        }
        r
    }
}

} // verus!
