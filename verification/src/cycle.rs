//! Cyclic field navigation: Tab advances the active field, BackTab moves it
//! back, both wrapping around the field count.
//!
//! Every multi-field page routes Tab and BackTab through these definitions,
//! so the laws below hold of each of them: stepping forward `n` times over
//! `n` fields returns to the starting field, and BackTab is the exact
//! inverse of Tab.

use vstd::prelude::*;

verus! {

/// The field index after one Tab over `n` fields.
pub open spec fn cycle_next(i: int, n: int) -> int {
    if i + 1 >= n {
        0
    } else {
        i + 1
    }
}

/// The field index after one BackTab over `n` fields.
pub open spec fn cycle_prev(i: int, n: int) -> int {
    if i == 0 {
        n - 1
    } else {
        i - 1
    }
}

/// The field index after `k` Tabs over `n` fields.
pub open spec fn cycle_iter_next(i: int, k: nat, n: int) -> int
    decreases k,
{
    if k == 0 {
        i
    } else {
        cycle_next(cycle_iter_next(i, (k - 1) as nat, n), n)
    }
}

/// Helper: for at most `n` Tabs the index wraps around at most once.
proof fn lemma_cycle_iter_value(i: int, k: nat, n: int)
    requires
        0 <= i < n,
        k <= n,
    ensures
        cycle_iter_next(i, k, n) == if i + k < n {
            i + k
        } else {
            i + k - n
        },
    decreases k,
{
    if k > 0 {
        lemma_cycle_iter_value(i, (k - 1) as nat, n);
    }
}

/// Tab cycling has period `n`: `n` Tabs over `n` fields return the active
/// field to its original value.
pub proof fn lemma_tab_cycle_period(i: int, n: int)
    requires
        0 <= i < n,
    ensures
        cycle_iter_next(i, n as nat, n) == i,
{
    lemma_cycle_iter_value(i, n as nat, n);
}

/// BackTab is the exact inverse of Tab, in both orders.
pub proof fn lemma_tab_backtab_inverse(i: int, n: int)
    requires
        0 <= i < n,
    ensures
        cycle_prev(cycle_next(i, n), n) == i,
        cycle_next(cycle_prev(i, n), n) == i,
{
}

/// Exec step for Tab: advances `i` over `n` fields, wrapping to 0.
pub fn next_field(i: usize, n: usize) -> (r: usize)
    requires
        0 < n,
        i < n,
    ensures
        r == cycle_next(i as int, n as int),
        r < n,
{
    proof {
        if i + 1 < n {
            vstd::arithmetic::div_mod::lemma_small_mod((i + 1) as nat, n as nat);
        } else {
            vstd::arithmetic::div_mod::lemma_mod_self_0(n as int);
        }
    }
    (i + 1) % n
}

/// Exec step for BackTab: moves `i` back over `n` fields, wrapping to `n - 1`.
pub fn prev_field(i: usize, n: usize) -> (r: usize)
    requires
        0 < n,
        i < n,
    ensures
        r == cycle_prev(i as int, n as int),
        r < n,
{
    if i == 0 {
        n - 1
    } else {
        i - 1
    }
}

} // verus!
