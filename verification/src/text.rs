//! Two operations on text.
use vstd::prelude::*;

verus! {

/// Whether `part` occurs in `text` as a run of consecutive characters.
pub open spec fn has_part(text: Seq<char>, part: Seq<char>) -> bool {
    exists|i: int|
        0 <= i && i + part.len() <= text.len() && #[trigger] text.subrange(i, i + part.len())
            == part
}

/// Tells whether `part` occurs in `text`.
pub fn includes(text: &str, part: &str) -> (found: bool)
    ensures
        found == has_part(text@, part@),
{
    let n = text.unicode_len();
    let m = part.unicode_len();
    let mut i: usize = 0;
    while i <= n && n - i >= m
        invariant
            n == text@.len(),
            m == part@.len(),
            forall|k: int| 0 <= k < i ==> #[trigger] text@.subrange(k, k + m) != part@,
        decreases n + 1 - i,
    {
        let mut j: usize = 0;
        while j < m && text.get_char(i + j) == part.get_char(j)
            invariant
                n == text@.len(),
                m == part@.len(),
                i + m <= n,
                j <= m,
                forall|k: int| 0 <= k < j ==> text@[i + k] == part@[k],
            decreases m - j,
        {
            j += 1;
        }
        if j == m {
            proof {
                assert(text@.subrange(i as int, i + m) =~= part@);
            }
            return true;
        }
        proof {
            assert(text@.subrange(i as int, i + m)[j as int] == text@[i + j]);
        }
        i += 1;
    }
    proof {
        assert forall|k: int| 0 <= k && k + m <= n implies #[trigger] text@.subrange(k, k + m)
            != part@ by {
            assert(k < i);
        }
    }
    false
}

/// `String::push`: appends the character to the end of the string.
#[verifier::external_body]
pub(crate) fn push_char(text: &mut String, c: char)
    ensures
        final(text)@ == old(text)@.push(c),
{
    text.push(c)
}

} // verus!
