//! A minimal queue capability — construct empty, insert, remove or signal
//! absence — together with its one concrete instance: a queue of boolean
//! flags over a double-ended sequence.
//!
//! The instance is a deliberately naive teaching artifact. Insertion pushes
//! onto the front, but removal locates its victim with a binary probe that
//! would only be meaningful on a sorted sequence, and treats a computed
//! position of `0` as absence. The flaw is the point: the contracts here
//! state the literal probed-position behavior, not the first-in-first-out
//! behavior a reader might expect.

use vstd::prelude::*;

pub mod search;

verus! {

use std::collections::VecDeque;
use crate::search::{removal_index, lemma_binary_probe_in_range};

/// The queue capability: the operations a queue-like container supports,
/// polymorphic over the element type.
///
/// The capability fixes only what every instance owes: construction yields
/// an empty queue, insertion places the element at some position and grows
/// the length by exactly one, and removal either hands back an element that
/// was in the queue — shrinking it by exactly one — or signals absence and
/// leaves the queue unchanged. Where the element goes on insertion, and
/// which entry (if any) leaves on removal, is the concrete instance's
/// policy.
pub trait Queue<T>: Sized {
    /// The ordered contents of the queue, as a mathematical sequence.
    spec fn contents(&self) -> Seq<T>;

    /// Produces a new, empty queue.
    fn emp() -> (q: Self)
        ensures
            q.contents() == Seq::<T>::empty(),
    ;

    /// Inserts `elt` into the queue, mutating it in place. The position is
    /// chosen by the instance; the length always grows by exactly one.
    fn ins(&mut self, elt: &T)
        ensures
            exists|i: int|
                0 <= i <= old(self).contents().len()
                    && final(self).contents() == old(self).contents().insert(i, *elt),
            final(self).contents().len() == old(self).contents().len() + 1,
    ;

    /// Attempts to remove an entry related to `elt`, returning the removed
    /// element, or signalling absence without touching the queue.
    fn rem(&mut self, elt: &T) -> (r: Option<T>)
        ensures
            match r {
                Some(x) => exists|i: int|
                    0 <= i < old(self).contents().len()
                        && x == old(self).contents()[i]
                        && final(self).contents() == old(self).contents().remove(i),
                None => final(self).contents() == old(self).contents(),
            },
            r is Some ==> final(self).contents().len() == old(self).contents().len() - 1,
            r is None ==> final(self).contents().len() == old(self).contents().len(),
    ;
}

/// The toy instance: boolean flags over a double-ended sequence.
impl Queue<bool> for VecDeque<bool> {
    open spec fn contents(&self) -> Seq<bool> {
        self@
    }

    /// Produces an empty double-ended sequence.
    fn emp() -> (q: Self) {
        VecDeque::default()
    }

    /// Pushes the flag onto the front of the sequence.
    fn ins(&mut self, elt: &bool)
        ensures
            final(self)@ == old(self)@.insert(0, *elt),
    {
        self.push_front(*elt);
        proof {
            assert(self@ =~= old(self)@.insert(0, *elt));
            assert(self.contents() == old(self).contents().insert(0, *elt));
        }
    }

    /// Removes the entry at the probed position, or signals absence when
    /// that position is `0` — regardless of whether a matching flag
    /// actually sits at position `0`. On an empty queue the probe always
    /// yields `0`, so the outcome is always absence.
    fn rem(&mut self, elt: &bool) -> (r: Option<bool>)
        ensures
            ({
                let i = removal_index(old(self)@, *elt);
                if i >= 1 {
                    r == Some(old(self)@[i]) && final(self)@ == old(self)@.remove(i)
                } else {
                    r == None::<bool> && final(self)@ == old(self)@
                }
            }),
            old(self)@.len() == 0 ==> r is None && final(self)@ == old(self)@,
    {
        let i = crate::search::find_removal_index(&*self, *elt);
        let found = i >= 1;
        if !found {
            return None;
        }
        proof {
            lemma_binary_probe_in_range(self@, *elt, 0, self@.len() as int);
        }
        let r = self.remove(i);
        proof {
            assert(self.contents() == old(self).contents().remove(i as int));
            assert(r == Some(old(self).contents()[i as int]));
        }
        r
    }
}

} // verus!
