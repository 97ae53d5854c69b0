//! Byte strings compared and copied by content.

use vstd::prelude::*;

verus! {

/// Whether two byte strings hold the same bytes in the same order.
pub fn bytes_eq(a: &Vec<u8>, b: &Vec<u8>) -> (same: bool)
    ensures
        same == (a@ == b@),
{
    if a.len() != b.len() {
        return false;
    }
    let mut i: usize = 0;
    while i < a.len()
        invariant
            a.len() == b.len(),
            i <= a.len(),
            forall|j: int| 0 <= j < i ==> a@[j] == b@[j],
        decreases a.len() - i,
    {
        if a[i] != b[i] {
            return false;
        }
        i += 1;
    }
    assert(a@ =~= b@);
    true
}

/// A fresh byte string with the content of `a`.
pub fn copy_bytes(a: &Vec<u8>) -> (out: Vec<u8>)
    ensures
        out@ == a@,
{
    let mut out: Vec<u8> = Vec::new();
    let mut i: usize = 0;
    while i < a.len()
        invariant
            i <= a.len(),
            out@ == a@.subrange(0, i as int),
        decreases a.len() - i,
    {
        out.push(a[i]);
        assert(out@ =~= a@.subrange(0, i + 1));
        i += 1;
    }
    assert(out@ =~= a@);
    out
}

} // verus!
