//! The least index at which a predicate holds: the mathematical counterpart
//! of scanning a list from the front and stopping at the first hit.

use vstd::prelude::*;

verus! {

/// Whether `i` is the least index below `n` at which `p` holds.
pub open spec fn is_least(n: int, p: spec_fn(int) -> bool, i: int) -> bool {
    &&& 0 <= i < n
    &&& p(i)
    &&& forall|j: int| 0 <= j < i ==> !#[trigger] p(j)
}

/// The least index below `n` at which `p` holds, if there is one.
pub open spec fn least(n: int, p: spec_fn(int) -> bool) -> Option<int> {
    if exists|i: int| is_least(n, p, i) {
        Some(choose|i: int| is_least(n, p, i))
    } else {
        None
    }
}

/// A scan that stopped at `i` has found `least(n, p)`.
pub proof fn lemma_least_found(n: int, p: spec_fn(int) -> bool, i: int)
    requires
        is_least(n, p, i),
    ensures
        least(n, p) == Some(i),
{
    let k = choose|k: int| is_least(n, p, k);
    assert(is_least(n, p, k));
    if k < i {
        assert(!p(k));
    }
    if i < k {
        assert(!p(i));
    }
}

/// A scan that ran to the end without a hit shows that `least(n, p)` is
/// `None`.
pub proof fn lemma_least_absent(n: int, p: spec_fn(int) -> bool)
    requires
        forall|j: int| 0 <= j < n ==> !#[trigger] p(j),
    ensures
        least(n, p).is_none(),
{
}

/// What `least` returns is a hit with no hit before it, and `None` means
/// that there is no hit at all.
pub proof fn lemma_least_is_least(n: int, p: spec_fn(int) -> bool)
    ensures
        match least(n, p) {
            Some(i) => is_least(n, p, i),
            None => forall|j: int| 0 <= j < n ==> !#[trigger] p(j),
        },
{
    if least(n, p).is_none() {
        assert forall|j: int| 0 <= j < n implies !#[trigger] p(j) by {
            if p(j) {
                lemma_hit_gives_least(n, p, j);
            }
        }
    }
}

/// Below any hit there is a least one.
proof fn lemma_hit_gives_least(n: int, p: spec_fn(int) -> bool, j: int)
    requires
        0 <= j < n,
        p(j),
    ensures
        exists|i: int| is_least(n, p, i),
    decreases j,
{
    if exists|k: int| 0 <= k < j && #[trigger] p(k) {
        let k = choose|k: int| 0 <= k < j && #[trigger] p(k);
        lemma_hit_gives_least(n, p, k);
    } else {
        assert(is_least(n, p, j));
    }
}

} // verus!
