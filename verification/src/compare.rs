//! Constant-time byte comparison. Equality checks that stop at the first
//! mismatching byte leak the mismatch position through timing; the comparison
//! here folds the difference of every byte pair into an accumulator and only
//! inspects the accumulator once, after the whole length has been scanned.

use vstd::prelude::*;

verus! {

/// Reports whether `a` and `b` hold the same bytes. When the lengths agree,
/// every byte pair is visited and combined into a single accumulator, so the
/// running time does not depend on the position of the first mismatch.
pub fn constant_time_eq(a: &[u8], b: &[u8]) -> (eq: bool)
    ensures
        eq == (a@ == b@),
{
    if a.len() != b.len() {
        proof {
            assert(a@.len() != b@.len());
        }
        return false;
    }
    let n = a.len();
    let mut acc: u8 = 0;
    let mut i: usize = 0;
    while i < n
        invariant
            n == a@.len(),
            n == b@.len(),
            i <= n,
            (acc == 0) <==> (forall|j: int| 0 <= j < i ==> a@[j] == b@[j]),
        decreases n - i,
    {
        let x = a[i];
        let y = b[i];
        assert((acc | (x ^ y)) == 0 <==> acc == 0 && x == y) by (bit_vector);
        acc = acc | (x ^ y);
        i = i + 1;
    }
    proof {
        if acc == 0 {
            assert(a@ =~= b@);
        } else {
            assert(exists|j: int| 0 <= j < n && a@[j] != b@[j]);
            assert(a@ != b@);
        }
    }
    acc == 0
}

} // verus!
