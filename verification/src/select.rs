//! Selection-cursor movement shared by every table of the interface.
//!
//! Moving down past the last row wraps to row 0; moving up past row 0 wraps
//! to the last row; with zero rows the selection is treated as row 0.  A
//! cursor that was never set moves to row 0 on the first move.

use vstd::prelude::*;

verus! {

/// Where the cursor stands after one "down" move over `n` rows.
pub open spec fn next_index(cur: Option<usize>, n: nat) -> usize {
    match cur {
        Option::None => 0,
        Option::Some(i) => {
            if n == 0 {
                0
            } else if i >= n - 1 {
                0
            } else {
                (i + 1) as usize
            }
        },
    }
}

/// Where the cursor stands after one "up" move over `n` rows.
pub open spec fn prev_index(cur: Option<usize>, n: nat) -> usize {
    match cur {
        Option::None => 0,
        Option::Some(i) => {
            if n == 0 {
                0
            } else if i == 0 {
                (n - 1) as usize
            } else {
                (i - 1) as usize
            }
        },
    }
}

/// Executable "down" move.
pub fn next_selection(cur: Option<usize>, len: usize) -> (r: usize)
    ensures
        r == next_index(cur, len as nat),
{
    match cur {
        Option::None => 0,
        Option::Some(i) => {
            if len == 0 {
                0
            } else if i >= len - 1 {
                0
            } else {
                i + 1
            }
        },
    }
}

/// Executable "up" move.
pub fn prev_selection(cur: Option<usize>, len: usize) -> (r: usize)
    ensures
        r == prev_index(cur, len as nat),
{
    match cur {
        Option::None => 0,
        Option::Some(i) => {
            if len == 0 {
                0
            } else if i == 0 {
                len - 1
            } else {
                i - 1
            }
        },
    }
}

/// The cursor after `k` successive "down" moves from a set position.
pub open spec fn down_times(start: usize, k: nat, n: nat) -> usize
    decreases k,
{
    if k == 0 {
        start
    } else {
        next_index(Option::Some(down_times(start, (k - 1) as nat, n)), n)
    }
}

/// On a non-empty table, `k` "down" moves from a valid position land on
/// `start + k`, wrapped once past the last row.
pub proof fn lemma_down_times_position(start: usize, k: nat, n: nat)
    requires
        0 < n <= usize::MAX,
        start < n,
        k <= n,
    ensures
        down_times(start, k, n) == if start + k < n {
            start + k
        } else {
            start + k - n
        },
    decreases k,
{
    if k > 0 {
        lemma_down_times_position(start, (k - 1) as nat, n);
    }
}

/// Wraparound round trip: on a non-empty table, as many "down" moves as the
/// table has rows return the cursor to its starting row.
pub proof fn lemma_down_round_trip(start: usize, n: nat)
    requires
        0 < n <= usize::MAX,
        start < n,
    ensures
        down_times(start, n, n) == start,
{
    lemma_down_times_position(start, n, n);
}

} // verus!
