//! Plain text utilities: substring search (the profile endpoint's
//! discriminating marker is a literal substring of the raw body) and
//! the bounded body preview kept for diagnostics.

use vstd::prelude::*;
use vstd::string::StrSliceExecFns;

verus! {

/// The pattern occurs in `text` starting at position `i`.
pub open spec fn occurs_at(text: Seq<char>, pat: Seq<char>, i: int) -> bool {
    &&& 0 <= i
    &&& i + pat.len() <= text.len()
    &&& text.subrange(i, i + pat.len()) == pat
}

/// The pattern occurs somewhere in `text`.
pub open spec fn has_substring(text: Seq<char>, pat: Seq<char>) -> bool {
    exists|i: int| occurs_at(text, pat, i)
}

/// Naive substring search.
pub fn contains_str(text: &str, pat: &str) -> (r: bool)
    ensures
        r == has_substring(text@, pat@),
{
    let n = text.unicode_len();
    let m = pat.unicode_len();
    if m > n {
        proof {
            assert(forall|i: int| !occurs_at(text@, pat@, i));
        }
        return false;
    }
    if m == 0 {
        proof {
            assert(text@.subrange(0, 0) =~= pat@);
            assert(occurs_at(text@, pat@, 0));
        }
        return true;
    }
    let mut i: usize = 0;
    while i <= n - m
        invariant
            1 <= m <= n,
            n == text@.len(),
            m == pat@.len(),
            i <= n - m + 1,
            forall|k: int| 0 <= k < i ==> !occurs_at(text@, pat@, k),
        decreases n - i,
    {
        let mut j: usize = 0;
        let mut mismatch = false;
        while j < m
            invariant
                1 <= m <= n,
                n == text@.len(),
                m == pat@.len(),
                i <= n - m,
                j <= m,
                !mismatch ==> forall|k: int| 0 <= k < j ==> text@[i + k] == pat@[k],
                mismatch ==> !occurs_at(text@, pat@, i as int),
            decreases m - j,
        {
            let tc = text.get_char(i + j);
            let pc = pat.get_char(j);
            if tc != pc {
                proof {
                    if occurs_at(text@, pat@, i as int) {
                        assert(text@.subrange(i as int, i + m as int)[j as int] == pat@[j as int]);
                    }
                }
                mismatch = true;
                j = m;
            } else {
                j += 1;
            }
        }
        if !mismatch {
            proof {
                assert(text@.subrange(i as int, i + m as int) =~= pat@);
                assert(occurs_at(text@, pat@, i as int));
            }
            return true;
        }
        i += 1;
    }
    proof {
        assert forall|k: int| !occurs_at(text@, pat@, k) by {
            if 0 <= k < i {
            } else if k > n - m {
            }
        }
    }
    false
}

/// The diagnostic preview of a body: its first 200 characters, or the
/// whole body when it is shorter.
pub open spec fn preview_of(s: Seq<char>) -> Seq<char> {
    if s.len() <= 200 {
        s
    } else {
        s.subrange(0, 200)
    }
}

/// Cuts a body down to its diagnostic preview.
pub fn make_preview(body: &str) -> (p: String)
    ensures
        p@ == preview_of(body@),
{
    let n = body.unicode_len();
    let end = if n < 200 {
        n
    } else {
        200
    };
    let cut = body.substring_char(0, end);
    proof {
        if n <= 200 {
            assert(body@.subrange(0, n as int) =~= body@);
        }
    }
    cut.to_owned()
}

} // verus!
