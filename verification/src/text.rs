use vstd::prelude::*;
use vstd::string::StrSliceExecFns;

verus! {

/// `pat` occurs in `text` as the contiguous run of characters starting at
/// position `i`.
pub open spec fn occurs_at(pat: Seq<char>, text: Seq<char>, i: int) -> bool {
    &&& 0 <= i
    &&& i + pat.len() <= text.len()
    &&& text.subrange(i, i + pat.len()) == pat
}

/// `pat` is a contiguous substring of `text` (the empty sequence is a
/// substring of everything).
pub open spec fn is_substring(pat: Seq<char>, text: Seq<char>) -> bool {
    exists|i: int| occurs_at(pat, text, i)
}

/// Whether `pat` occurs in `text` exactly at position `i`.
fn matches_at(text: &str, pat: &str, i: usize) -> (r: bool)
    requires
        i + pat@.len() <= text@.len(),
    ensures
        r == occurs_at(pat@, text@, i as int),
{
    let pat_len = pat.unicode_len();
    let text_len = text.unicode_len();
    let mut j: usize = 0;
    while j < pat_len
        invariant
            pat_len == pat@.len(),
            text_len == text@.len(),
            i + pat_len <= text_len,
            j <= pat_len,
            forall|k: int| 0 <= k < j ==> text@[i + k] == pat@[k],
        decreases pat_len - j,
    {
        if text.get_char(i + j) != pat.get_char(j) {
            proof {
                if occurs_at(pat@, text@, i as int) {
                    assert(text@.subrange(i as int, i + pat@.len())[j as int] == pat@[j as int]);
                }
            }
            return false;
        }
        j += 1;
    }
    proof {
        assert(text@.subrange(i as int, i + pat@.len()) =~= pat@);
    }
    true
}

/// Decides whether `pat` occurs anywhere inside `text`.
pub fn contains_substring(text: &str, pat: &str) -> (r: bool)
    ensures
        r == is_substring(pat@, text@),
{
    let text_len = text.unicode_len();
    let pat_len = pat.unicode_len();
    if pat_len > text_len {
        proof {
            assert forall|k: int| !occurs_at(pat@, text@, k) by {}
        }
        return false;
    }
    if pat_len == 0 {
        proof {
            assert(text@.subrange(0, 0) =~= pat@);
            assert(occurs_at(pat@, text@, 0));
        }
        return true;
    }
    let mut i: usize = 0;
    while i <= text_len - pat_len
        invariant
            text_len == text@.len(),
            pat_len == pat@.len(),
            0 < pat_len <= text_len,
            i <= text_len - pat_len + 1,
            forall|k: int| 0 <= k < i ==> !occurs_at(pat@, text@, k),
        decreases text_len - pat_len - i + 1,
    {
        if matches_at(text, pat, i) {
            proof {
                assert(occurs_at(pat@, text@, i as int));
            }
            return true;
        }
        i += 1;
    }
    proof {
        assert forall|k: int| !occurs_at(pat@, text@, k) by {
            if k >= i {
                assert(k + pat@.len() > text@.len());
            }
        }
    }
    false
}

} // verus!
