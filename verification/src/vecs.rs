//! Moving the items out of a vector in their order.

use vstd::prelude::*;

verus! {

/// The items of `v` in reverse order. Popping from the result hands out the
/// items of `v` from first to last.
pub fn reversed<T>(v: Vec<T>) -> (r: Vec<T>)
    ensures
        r.len() == v.len(),
        forall|k: int| 0 <= k < r.len() ==> #[trigger] r[k] == v[v.len() - 1 - k],
{
    let ghost v0 = v@;
    let n = v.len();
    let mut v = v;
    let mut r: Vec<T> = Vec::new();
    while v.len() > 0
        invariant
            v.len() + r.len() == n,
            n == v0.len(),
            v@ == v0.take(v.len() as int),
            forall|k: int| 0 <= k < r.len() ==> #[trigger] r[k] == v0[n - 1 - k],
        decreases v.len(),
    {
        let item = v.pop().unwrap();
        r.push(item);
    }
    r
}

} // verus!
