//! Comparison of unlock secrets.

use vstd::prelude::*;

verus! {

/// Tells whether `candidate` and `expected` are the same bytes.
///
/// Secrets of equal length are compared without an early exit: every byte is
/// looked at, whichever byte differs first, so the time taken does not tell
/// how long a matching prefix is.
pub fn secrets_match(candidate: &[u8], expected: &[u8]) -> (same: bool)
    ensures
        same == (candidate@ == expected@),
{
    if candidate.len() != expected.len() {
        return false;
    }
    let mut diff: u8 = 0;
    let mut i: usize = 0;
    while i < candidate.len()
        invariant
            i <= candidate.len(),
            candidate.len() == expected.len(),
            (diff == 0) <==> (forall|j: int| 0 <= j < i ==> candidate@[j] == expected@[j]),
        decreases candidate.len() - i,
    {
        let x: u8 = candidate[i];
        let y: u8 = expected[i];
        assert(((diff | (x ^ y)) == 0) <==> (diff == 0 && x == y)) by (bit_vector);
        diff = diff | (x ^ y);
        i += 1;
    }
    proof {
        if diff == 0 {
            assert(candidate@ =~= expected@);
        }
    }
    diff == 0
}

} // verus!
