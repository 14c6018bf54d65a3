//! Byte-pattern resolver: locates a literal byte subsequence inside a region
//! of executable memory, read out as a plain byte buffer.

use vstd::prelude::*;

verus! {

/// `needle` occurs contiguously in `hay` starting at index `i`.
pub open spec fn occurs_at<T>(hay: Seq<T>, needle: Seq<T>, i: int) -> bool {
    &&& 0 <= i
    &&& i + needle.len() <= hay.len()
    &&& forall|j: int| 0 <= j < needle.len() ==> hay[i + j] == needle[j]
}

/// Whether `hay` matches `needle` at offset `i`, compared byte by byte.
fn matches_at(haystack: &[u8], needle: &[u8], i: usize) -> (r: bool)
    requires
        i + needle@.len() <= haystack@.len(),
    ensures
        r == occurs_at(haystack@, needle@, i as int),
{
    let hay_len = haystack.len();
    let n = needle.len();
    let mut j: usize = 0;
    while j < n
        invariant
            0 <= j <= n,
            n == needle@.len(),
            hay_len == haystack@.len(),
            i + n <= hay_len,
            forall|k: int| 0 <= k < j ==> haystack@[i + k] == needle@[k],
        decreases n - j,
    {
        if haystack[i + j] != needle[j] {
            return false;
        }
        j = j + 1;
    }
    true
}

/// Returns the lowest index at which `needle` occurs contiguously in
/// `haystack`, or `None` when it occurs nowhere.
pub fn find_subsequence(haystack: &[u8], needle: &[u8]) -> (r: Option<usize>)
    requires
        needle@.len() > 0,
    ensures
        match r {
            Some(i) => {
                &&& occurs_at(haystack@, needle@, i as int)
                &&& forall|q: int| 0 <= q < i ==> !occurs_at(haystack@, needle@, q)
            },
            None => forall|q: int| !occurs_at(haystack@, needle@, q),
        },
{
    let hay_len = haystack.len();
    let n = needle.len();
    if n > hay_len {
        assert(forall|q: int| !occurs_at(haystack@, needle@, q));
        return None;
    }
    let last = hay_len - n;
    let mut i: usize = 0;
    while i <= last
        invariant
            n == needle@.len(),
            hay_len == haystack@.len(),
            n <= hay_len,
            last == hay_len - n,
            0 <= i <= last + 1,
            forall|q: int| 0 <= q < i ==> !occurs_at(haystack@, needle@, q),
        decreases last + 1 - i,
    {
        if matches_at(haystack, needle, i) {
            return Some(i);
        }
        i = i + 1;
    }
    assert(forall|q: int| q > last ==> !occurs_at(haystack@, needle@, q));
    None
}

/// Whether `hay` ends with `suffix`.
pub fn ends_with(hay: &[u8], suffix: &[u8]) -> (r: bool)
    ensures
        r == (hay@.len() >= suffix@.len() && occurs_at(
            hay@,
            suffix@,
            hay@.len() - suffix@.len(),
        )),
{
    let hay_len = hay.len();
    let n = suffix.len();
    if n > hay_len {
        return false;
    }
    matches_at(hay, suffix, hay_len - n)
}

/// Embedding law: if `needle` occurs at `p` and nowhere earlier, the resolver
/// reports exactly `p`; in particular, with two embeddings only the first is
/// reported.
pub proof fn lemma_embedded_pattern_found(hay: Seq<u8>, needle: Seq<u8>, p: int, r: Option<usize>)
    requires
        needle.len() > 0,
        occurs_at(hay, needle, p),
        forall|q: int| 0 <= q < p ==> !occurs_at(hay, needle, q),
        match r {
            Some(i) => {
                &&& occurs_at(hay, needle, i as int)
                &&& forall|q: int| 0 <= q < i ==> !occurs_at(hay, needle, q)
            },
            None => forall|q: int| !occurs_at(hay, needle, q),
        },
    ensures
        r is Some,
        r.unwrap() as int == p,
{
    match r {
        Some(i) => {
            if (i as int) < p {
                assert(!occurs_at(hay, needle, i as int));
            }
            if p < i as int {
                assert(!occurs_at(hay, needle, p));
            }
        },
        None => {
            assert(!occurs_at(hay, needle, p));
        },
    }
}

} // verus!
