//! Small helpers on vectors.

use vstd::prelude::*;

verus! {

/// A vector with the same items in the same order.
pub fn copy_of<T: Copy>(items: &Vec<T>) -> (res: Vec<T>)
    ensures
        res@ == items@,
{
    let mut out: Vec<T> = Vec::new();
    let mut i: usize = 0;
    while i < items.len()
        invariant
            i <= items.len(),
            out@ == items@.subrange(0, i as int),
        decreases items.len() - i,
    {
        out.push(items[i]);
        proof {
            assert(items@.subrange(0, i as int).push(items@[i as int]) =~= items@.subrange(
                0,
                i + 1,
            ));
        }
        i += 1;
    }
    proof {
        assert(items@.subrange(0, items@.len() as int) =~= items@);
    }
    out
}

} // verus!
