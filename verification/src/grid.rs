//! Sample grids for parameter sweeps.
//!
//! A sweep over `[a, b]` with `n` requested points places point `i` at
//! `a + i * (b - a) / (n - 1)` (or the logarithmic analogue), so the first
//! point is `a` and the last is `b`. A request for zero or one point yields the
//! start point alone. This module fixes the integer side of that rule: how many
//! points there are and the index of each.

use vstd::prelude::*;

verus! {

/// Number of points a sweep of `n` requested points produces.
pub open spec fn grid_len_spec(n: nat) -> nat {
    if n <= 1 {
        1
    } else {
        n
    }
}

/// Number of points a sweep of `n` requested points produces: `n`, but at
/// least one. This is also the divisor of the tolerance band within which a
/// sampled attacker size counts as the optimum.
pub fn grid_len(n: usize) -> (len: usize)
    ensures
        len as nat == grid_len_spec(n as nat),
        len >= 1,
        len >= n,
        n >= 2 ==> len == n,
        n <= 1 ==> len == 1,
{
    if n <= 1 {
        1
    } else {
        n
    }
}

/// The step indices of the points of a sweep of `n` requested points, in
/// order: `0, 1, ..., n - 1`, or just `0` when `n <= 1`.
pub fn grid_indices(n: usize) -> (idx: Vec<usize>)
    ensures
        idx@.len() == grid_len_spec(n as nat),
        forall|i: int| 0 <= i < idx@.len() ==> #[trigger] idx@[i] == i,
        n >= 2 ==> idx@.len() == n,
        n <= 1 ==> idx@.len() == 1,
        idx@[0] == 0,
        n >= 2 ==> idx@.last() == n - 1,
{
    let len = grid_len(n);
    let mut idx: Vec<usize> = Vec::new();
    let mut i: usize = 0;
    while i < len
        invariant
            i <= len,
            len as nat == grid_len_spec(n as nat),
            idx@.len() == i,
            forall|j: int| 0 <= j < i ==> #[trigger] idx@[j] == j,
        decreases len - i,
    {
        idx.push(i);
        i = i + 1;
    }
    idx
}

/// A sweep asked for `n >= 2` points takes exactly `n` of them, so its
/// last point sits `n - 1` steps from the start, on the end of the range; a
/// sweep asked for at most one point takes the start point alone. In short,
/// the number of points is `max(n, 1)`.
pub proof fn lemma_grid_len_is_requested_count(n: nat)
    ensures
        n >= 2 ==> grid_len_spec(n) == n,
        n <= 1 ==> grid_len_spec(n) == 1,
        grid_len_spec(n) == (if n >= 1 { n } else { 1 }),
        n >= 2 ==> grid_len_spec(n) - 1 == n - 1,
{
}

} // verus!
