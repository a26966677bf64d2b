//! The position computation behind the flag queue's removal operation.
//!
//! Removal probes the backing sequence the way a binary search for a sorted
//! sequence would, even though the sequence is kept in insertion order, not
//! sorted order. The probe is therefore a reproducible position computation,
//! not a membership test; the queue deliberately preserves this flawed
//! policy, treating position `0` as absence.

use vstd::prelude::*;

verus! {

use std::collections::VecDeque;

/// The position a binary probe of `s` for `x` computes on the half-open
/// interval `[left, right)`, under the order `false < true`: `Some(p)` as
/// soon as a probe lands on an entry equal to `x`, `None` when the interval
/// empties. Because `s` is not sorted, a `None` outcome says nothing about
/// whether `x` occurs in `s`, and a `Some(p)` need not be its first
/// occurrence.
pub open spec fn binary_probe(s: Seq<bool>, x: bool, left: int, right: int) -> Option<int>
    decreases right - left,
{
    if right <= left {
        None
    } else {
        let mid = left + (right - left) / 2;
        if s[mid] == x {
            Some(mid)
        } else if !s[mid] && x {
            binary_probe(s, x, mid + 1, right)
        } else {
            binary_probe(s, x, left, mid)
        }
    }
}

/// The index at which removal acts: the probed position over all of `s`,
/// with a failed probe collapsed to `0`. Removal then treats `0` as the
/// absent case, even when the entry at position `0` equals `x`.
pub open spec fn removal_index(s: Seq<bool>, x: bool) -> int {
    match binary_probe(s, x, 0, s.len() as int) {
        Some(i) => i,
        None => 0,
    }
}

/// A successful probe lands inside the probed interval, on an entry equal
/// to the sought flag.
pub proof fn lemma_binary_probe_in_range(s: Seq<bool>, x: bool, left: int, right: int)
    requires
        0 <= left,
        right <= s.len(),
    ensures
        match binary_probe(s, x, left, right) {
            Some(i) => left <= i < right && s[i] == x,
            None => true,
        },
    decreases right - left,
{
    if right <= left {
    } else {
        let mid = left + (right - left) / 2;
        if s[mid] == x {
        } else if !s[mid] && x {
            lemma_binary_probe_in_range(s, x, mid + 1, right);
        } else {
            lemma_binary_probe_in_range(s, x, left, mid);
        }
    }
}

/// On an empty sequence the probe always fails, so the removal index is
/// `0` for every flag: removal on an empty queue always signals absence.
pub proof fn lemma_removal_index_on_empty(s: Seq<bool>, x: bool)
    requires
        s.len() == 0,
    ensures
        removal_index(s, x) == 0,
{
}

/// Computes `removal_index` over the contents of `q`.
pub fn find_removal_index(q: &VecDeque<bool>, x: bool) -> (i: usize)
    ensures
        i == removal_index(q@, x),
{
    let mut left: usize = 0;
    let mut right: usize = q.len();
    while left < right
        invariant
            left <= right <= q@.len(),
            binary_probe(q@, x, left as int, right as int)
                == binary_probe(q@, x, 0, q@.len() as int),
        decreases right - left,
    {
        let ghost pre_left = left as int;
        let ghost pre_right = right as int;
        let mid: usize = left + (right - left) / 2;
        let e: bool = q[mid];
        if e == x {
            proof {
                assert(binary_probe(q@, x, pre_left, pre_right) == Some(mid as int));
            }
            return mid;
        } else if !e && x {
            left = mid + 1;
        } else {
            right = mid;
        }
        proof {
            assert(binary_probe(q@, x, pre_left, pre_right)
                == binary_probe(q@, x, left as int, right as int));
        }
    }
    0
}

} // verus!
