//! Capability descriptors. A capability describes a data format as a set of
//! format identifiers; two capabilities are compatible exactly when they
//! share an identifier.

use vstd::prelude::*;

verus! {

/// Two capabilities intersect when they share a format identifier.
pub open spec fn caps_intersect(a: Seq<u64>, b: Seq<u64>) -> bool {
    exists|x: u64| a.contains(x) && b.contains(x)
}

/// True when the two capabilities share a format identifier.
pub fn can_intersect(a: &Vec<u64>, b: &Vec<u64>) -> (r: bool)
    ensures
        r == caps_intersect(a@, b@),
{
    let mut i: usize = 0;
    while i < a.len()
        invariant
            i <= a.len(),
            forall|k: int| 0 <= k < i ==> !b@.contains(a@[k]),
        decreases a.len() - i,
    {
        let mut j: usize = 0;
        while j < b.len()
            invariant
                i < a.len(),
                j <= b.len(),
                forall|m: int| 0 <= m < j ==> b@[m] != a@[i as int],
            decreases b.len() - j,
        {
            if a[i] == b[j] {
                proof {
                    assert(a@.contains(a@[i as int]));
                    assert(b@.contains(b@[j as int]));
                }
                return true;
            }
            j += 1;
        }
        i += 1;
    }
    proof {
        assert forall|x: u64| !(a@.contains(x) && b@.contains(x)) by {
            if a@.contains(x) && b@.contains(x) {
                let k = choose|k: int| 0 <= k < a@.len() && a@[k] == x;
                assert(!b@.contains(a@[k]));
            }
        }
    }
    false
}

} // verus!
