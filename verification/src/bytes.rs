//! Verified byte-string comparison used by identity checks and the
//! companion-record audit.

use vstd::prelude::*;
use vstd::slice::slice_index_get;

verus! {

/// Whether `expected` occurs in `data` starting exactly at `start`.
pub fn range_matches(data: &[u8], start: usize, expected: &[u8]) -> (r: bool)
    requires
        start + expected@.len() <= data@.len(),
    ensures
        r == (data@.subrange(start as int, start + expected@.len()) == expected@),
{
    let data_len = data.len();
    let n = expected.len();
    let mut i: usize = 0;
    while i < n
        invariant
            n == expected@.len(),
            data_len == data@.len(),
            start + n <= data_len,
            0 <= i <= n,
            forall|j: int| 0 <= j < i ==> data@[start + j] == expected@[j],
        decreases n - i,
    {
        if *slice_index_get(data, start + i) != *slice_index_get(expected, i) {
            proof {
                assert(data@.subrange(start as int, start + n)[i as int] == data@[start + i]);
            }
            return false;
        }
        i += 1;
    }
    proof {
        assert(data@.subrange(start as int, start + n) =~= expected@);
    }
    true
}

/// Whether two byte strings are equal, length and contents.
pub fn bytes_eq(a: &[u8], b: &[u8]) -> (r: bool)
    ensures
        r == (a@ == b@),
{
    if a.len() != b.len() {
        return false;
    }
    proof {
        assert(a@.subrange(0, a@.len() as int) =~= a@);
    }
    range_matches(a, 0, b)
}

} // verus!
