//! Byte-substring search, used to detect the bootloader's textual triggers
//! in the accumulated receive buffer.

use vstd::prelude::*;

verus! {

/// The needle occurs in `hay` starting at position `i`.
pub open spec fn match_at(hay: Seq<u8>, needle: Seq<u8>, i: int) -> bool {
    &&& 0 <= i
    &&& i + needle.len() <= hay.len()
    &&& forall|j: int| 0 <= j < needle.len() ==> hay[i + j] == needle[j]
}

/// The needle occurs somewhere in `hay`.
pub open spec fn has_substring(hay: Seq<u8>, needle: Seq<u8>) -> bool {
    exists|i: int| match_at(hay, needle, i)
}

/// An empty haystack holds no non-empty needle.
pub proof fn lemma_empty_hay_has_no_substring(hay: Seq<u8>, needle: Seq<u8>)
    requires
        hay.len() == 0,
        needle.len() > 0,
    ensures
        !has_substring(hay, needle),
{
}

fn match_at_exec(hay: &[u8], needle: &[u8], i: usize) -> (r: bool)
    requires
        i + needle@.len() <= hay@.len(),
    ensures
        r == match_at(hay@, needle@, i as int),
{
    let n = needle.len();
    let h = hay.len();
    let mut j: usize = 0;
    while j < n
        invariant
            n == needle@.len(),
            h == hay@.len(),
            i + n <= h,
            0 <= j <= n,
            forall|k: int| 0 <= k < j ==> hay@[i + k] == needle@[k],
        decreases n - j,
    {
        if hay[i + j] != needle[j] {
            assert(!match_at(hay@, needle@, i as int)) by {
                assert(hay@[i + j] != needle@[j as int]);
            }
            return false;
        }
        j += 1;
    }
    true
}

/// Decide whether `needle` occurs as a contiguous subsequence of `hay`.
pub fn find_substring(hay: &[u8], needle: &[u8]) -> (r: bool)
    ensures
        r == has_substring(hay@, needle@),
{
    let n = needle.len();
    let h = hay.len();
    if n > h {
        assert(forall|i: int| !match_at(hay@, needle@, i));
        return false;
    }
    let end = h - n;
    let mut i: usize = 0;
    while i <= end
        invariant
            n == needle@.len(),
            h == hay@.len(),
            n <= h,
            end == h - n,
            0 <= i <= end + 1,
            forall|m: int| 0 <= m < i ==> !match_at(hay@, needle@, m),
        decreases end + 1 - i,
    {
        if match_at_exec(hay, needle, i) {
            return true;
        }
        i += 1;
    }
    assert(forall|m: int| !match_at(hay@, needle@, m)) by {
        assert(forall|m: int| m > end ==> !match_at(hay@, needle@, m));
    }
    false
}

} // verus!
