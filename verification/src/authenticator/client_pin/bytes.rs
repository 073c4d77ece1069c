//! Small helpers on runs of bytes.

use vstd::prelude::*;

verus! {

/// The first `N` bytes of a run of bytes.
pub(crate) fn prefix<const N: usize>(bytes: &[u8]) -> (block: [u8; N])
    requires
        bytes@.len() >= N,
    ensures
        block@ == bytes@.take(N as int),
{
    let mut block = [0u8;N];
    let mut i: usize = 0;
    while i < N
        invariant
            i <= N,
            bytes@.len() >= N,
            block@.len() == N,
            forall|k: int| 0 <= k < i ==> block@[k] == bytes@[k],
        decreases N - i,
    {
        block[i] = bytes[i];
        i = i + 1;
    }
    assert(block@ =~= bytes@.take(N as int));
    block
}

/// Whether two runs of bytes are the same, found without stopping at the
/// first difference.
pub(crate) fn same_bytes(a: &[u8], b: &[u8]) -> (same: bool)
    ensures
        same == (a@ == b@),
{
    if a.len() != b.len() {
        return false;
    }
    let mut same = true;
    let mut i: usize = 0;
    while i < a.len()
        invariant
            i <= a.len(),
            a@.len() == b@.len(),
            same == (a@.take(i as int) =~= b@.take(i as int)),
        decreases a.len() - i,
    {
        proof {
            let (x, y) = (a@.take(i as int), b@.take(i as int));
            let (x1, y1) = (a@.take(i + 1), b@.take(i + 1));
            assert(x1 =~= x.push(a@[i as int]) && y1 =~= y.push(b@[i as int]));
            if x1 == y1 {
                assert(x =~= x1.drop_last() && y =~= y1.drop_last());
                assert(a@[i as int] == x1.last() && b@[i as int] == y1.last());
            }
        }
        if a[i] != b[i] {
            same = false;
        }
        i = i + 1;
    }
    assert(a@.take(a@.len() as int) =~= a@ && b@.take(b@.len() as int) =~= b@);
    same
}

} // verus!
