//! Small verified helpers on strings and byte strings.
use vstd::prelude::*;
use vstd::string::StringSliceAdditionalSpecFns;

verus! {

/// `needle` occurs in `hay` at index `i`.
pub open spec fn occurs_at(hay: Seq<u8>, needle: Seq<u8>, i: int) -> bool {
    &&& 0 <= i
    &&& i + needle.len() <= hay.len()
    &&& hay.subrange(i, i + needle.len()) == needle
}

/// `needle` occurs somewhere in `hay`.
pub open spec fn bytes_contain(hay: Seq<u8>, needle: Seq<u8>) -> bool {
    exists|i: int| occurs_at(hay, needle, i)
}

/// `pat` occurs in `s`, as `str::contains` with a `&str` pattern says.
pub open spec fn str_contains(s: &str, pat: &str) -> bool {
    bytes_contain(s.spec_bytes(), pat.spec_bytes())
}

/// Whether `needle` occurs in `hay` at index `i`.
fn matches_at(hay: &[u8], needle: &[u8], i: usize) -> (r: bool)
    requires
        i + needle@.len() <= hay@.len(),
    ensures
        r == occurs_at(hay@, needle@, i as int),
{
    let n = needle.len();
    let h = hay.len();
    let mut j: usize = 0;
    while j < n
        invariant
            n == needle@.len(),
            h == hay@.len(),
            i + n <= hay@.len(),
            j <= n,
            forall|k: int| 0 <= k < j ==> hay@[i + k] == needle@[k],
        decreases n - j,
    {
        if hay[i + j] != needle[j] {
            proof {
                assert(hay@.subrange(i as int, i + n)[j as int] != needle@[j as int]);
            }
            return false;
        }
        j += 1;
    }
    assert(hay@.subrange(i as int, i + n) =~= needle@);
    true
}

/// Whether `needle` occurs in `hay`.
pub fn contains_bytes(hay: &[u8], needle: &[u8]) -> (r: bool)
    ensures
        r == bytes_contain(hay@, needle@),
{
    if needle.len() > hay.len() {
        return false;
    }
    let last = hay.len() - needle.len();
    let mut i: usize = 0;
    while i < last
        invariant
            last + needle@.len() == hay@.len(),
            i <= last,
            forall|k: int| 0 <= k < i ==> !occurs_at(hay@, needle@, k),
        decreases last - i,
    {
        if matches_at(hay, needle, i) {
            return true;
        }
        i += 1;
    }
    if matches_at(hay, needle, last) {
        return true;
    }
    proof {
        assert forall|k: int| !occurs_at(hay@, needle@, k) by {
            if 0 <= k < i {
            }
        }
    }
    false
}

/// Whether `pat` occurs in `s`.
pub fn contains_str(s: &str, pat: &str) -> (r: bool)
    ensures
        r == str_contains(s, pat),
{
    contains_bytes(s.as_bytes(), pat.as_bytes())
}

} // verus!
