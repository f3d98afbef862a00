//! Erasing a secret buffer in place.

use vstd::prelude::*;

verus! {

/// Every byte of `s` is zero.
pub open spec fn all_zero(s: Seq<u8>) -> bool {
    forall|i: int| 0 <= i < s.len() ==> s[i] == 0u8
}

/// Sets every byte of `password` to zero, in place. The buffer keeps its
/// length (and, since no element is added or removed, its allocation), so
/// no copy of the secret outlives the call in this storage.
pub fn zero_memory(password: &mut Vec<u8>)
    ensures
        final(password)@.len() == old(password)@.len(),
        all_zero(final(password)@),
{
    let n = password.len();
    let mut i: usize = 0;
    while i < n
        invariant
            i <= n,
            password@.len() == n,
            forall|j: int| 0 <= j < i ==> password@[j] == 0u8,
        decreases n - i,
    {
        password[i] = 0u8;
        i = i + 1;
    }
}

} // verus!
