//! Bounded first-in-first-out queues.
//!
//! A full queue makes room in one of two ways: the newest items stay (the oldest
//! one leaves) or the oldest items stay (the new one is turned away). Either way
//! the loss is counted.

use std::collections::VecDeque;
use vstd::prelude::*;

verus! {

/// What a queue of `capacity` holds after `item` arrives and the newest items stay.
pub open spec fn newest<T>(items: Seq<T>, capacity: nat, item: T) -> Seq<T> {
    if items.len() >= capacity && items.len() > 0 {
        items.subrange(1, items.len() as int).push(item)
    } else {
        items.push(item)
    }
}

/// What a queue of `capacity` holds after `item` arrives and the oldest items stay.
pub open spec fn oldest<T>(items: Seq<T>, capacity: nat, item: T) -> Seq<T> {
    if items.len() >= capacity {
        items
    } else {
        items.push(item)
    }
}

/// What an empty queue of `capacity` holds after `arrivals`, where the newest items stay.
pub open spec fn newest_of<T>(arrivals: Seq<T>, capacity: nat) -> Seq<T>
    decreases arrivals.len(),
{
    if arrivals.len() == 0 {
        Seq::empty()
    } else {
        newest(newest_of(arrivals.drop_last(), capacity), capacity, arrivals.last())
    }
}

/// What an empty queue of `capacity` holds after `arrivals`, where the oldest items stay.
pub open spec fn oldest_of<T>(arrivals: Seq<T>, capacity: nat) -> Seq<T>
    decreases arrivals.len(),
{
    if arrivals.len() == 0 {
        Seq::empty()
    } else {
        oldest(oldest_of(arrivals.drop_last(), capacity), capacity, arrivals.last())
    }
}

/// The number after `n` on a 64-bit counter that wraps around.
pub open spec fn next_count(n: u64) -> u64 {
    if n == u64::MAX {
        0
    } else {
        (n + 1) as u64
    }
}

/// How many items were lost once one more has arrived at a queue of `capacity` in which
/// `waiting` items wait.
pub open spec fn losses_after(losses: u64, waiting: nat, capacity: nat) -> u64 {
    if waiting >= capacity {
        next_count(losses)
    } else {
        losses
    }
}

/// Nothing gets lost uncounted: with every arrival the items that wait and those that were lost
/// are together one more, whichever items stay.
pub proof fn lemma_every_arrival_is_accounted_for<T>(
    items: Seq<T>,
    losses: u64,
    capacity: nat,
    item: T,
)
    requires
        0 < capacity,
        items.len() <= capacity,
        losses < u64::MAX,
    ensures
        newest(items, capacity, item).len() + losses_after(losses, items.len(), capacity)
            == items.len() + losses + 1,
        oldest(items, capacity, item).len() + losses_after(losses, items.len(), capacity)
            == items.len() + losses + 1,
        newest(items, capacity, item).len() <= capacity,
        oldest(items, capacity, item).len() <= capacity,
        next_count(losses) == losses + 1,
        next_count(u64::MAX) == 0,
{
}

/// The last `capacity` arrivals stay, in the order in which they came.
pub proof fn lemma_newest_are_the_last<T>(arrivals: Seq<T>, capacity: nat)
    requires
        capacity > 0,
    ensures
        newest_of(arrivals, capacity).len() <= capacity,
        newest_of(arrivals, capacity) == arrivals.subrange(
            if arrivals.len() > capacity { arrivals.len() - capacity } else { 0 },
            arrivals.len() as int,
        ),
    decreases arrivals.len(),
{
    if arrivals.len() > 0 {
        let before = arrivals.drop_last();
        lemma_newest_are_the_last(before, capacity);
    }
    let from = if arrivals.len() > capacity { arrivals.len() - capacity } else { 0 };
    assert(newest_of(arrivals, capacity) =~= arrivals.subrange(from, arrivals.len() as int));
}

/// The first `capacity` arrivals stay, in the order in which they came.
pub proof fn lemma_oldest_are_the_first<T>(arrivals: Seq<T>, capacity: nat)
    ensures
        oldest_of(arrivals, capacity).len() <= capacity,
        oldest_of(arrivals, capacity) == arrivals.subrange(
            0,
            if arrivals.len() > capacity { capacity as int } else { arrivals.len() as int },
        ),
    decreases arrivals.len(),
{
    if arrivals.len() > 0 {
        let before = arrivals.drop_last();
        lemma_oldest_are_the_first(before, capacity);
    }
    let to = if arrivals.len() > capacity { capacity as int } else { arrivals.len() as int };
    assert(oldest_of(arrivals, capacity) =~= arrivals.subrange(0, to));
}

/// A queue that holds at most `capacity` items and counts those it lost.
#[derive(Debug)]
pub struct Bounded<T> {
    items: VecDeque<T>,
    capacity: usize,
    lost: u64,
}

impl<T> Bounded<T> {
    /// The items, oldest first.
    pub closed spec fn contents(self) -> Seq<T> {
        self.items@
    }

    /// How many items the queue may hold.
    pub closed spec fn limit(self) -> nat {
        self.capacity as nat
    }

    /// How many items were lost, on a 64-bit counter.
    pub closed spec fn losses(self) -> u64 {
        self.lost
    }

    /// The queue holds no more than it may, and may hold something.
    pub open spec fn wf(self) -> bool {
        0 < self.limit() && self.contents().len() <= self.limit()
    }

    /// An empty queue; a capacity of zero counts as one.
    pub fn new(capacity: usize) -> (r: Self)
        ensures
            r.wf(),
            r.contents() == Seq::<T>::empty(),
            r.limit() == if capacity == 0 { 1 } else { capacity as nat },
            r.losses() == 0,
    {
        let capacity: usize = if capacity == 0 {
            1
        } else {
            capacity
        };
        Bounded { items: VecDeque::new(), capacity, lost: 0 }
    }

    /// Appends an item; a full queue loses its oldest one.
    pub fn push_newest(&mut self, item: T)
        requires
            old(self).wf(),
        ensures
            final(self).wf(),
            final(self).limit() == old(self).limit(),
            final(self).contents() == newest(old(self).contents(), old(self).limit(), item),
            final(self).losses() == losses_after(
                old(self).losses(),
                old(self).contents().len(),
                old(self).limit(),
            ),
    {
        if self.items.len() >= self.capacity {
            let _ = self.items.pop_front();
            self.lost = self.lost.wrapping_add(1);
        }
        self.items.push_back(item);
    }

    /// Appends an item unless the queue is full; says whether it was taken.
    pub fn push_oldest(&mut self, item: T) -> (taken: bool)
        requires
            old(self).wf(),
        ensures
            final(self).wf(),
            final(self).limit() == old(self).limit(),
            taken == (old(self).contents().len() < old(self).limit()),
            final(self).contents() == oldest(old(self).contents(), old(self).limit(), item),
            final(self).losses() == losses_after(
                old(self).losses(),
                old(self).contents().len(),
                old(self).limit(),
            ),
    {
        if self.items.len() >= self.capacity {
            self.lost = self.lost.wrapping_add(1);
            false
        } else {
            self.items.push_back(item);
            true
        }
    }

    /// Takes the oldest item.
    pub fn pop(&mut self) -> (r: Option<T>)
        requires
            old(self).wf(),
        ensures
            final(self).wf(),
            final(self).limit() == old(self).limit(),
            final(self).losses() == old(self).losses(),
            old(self).contents().len() == 0 ==> r is None && final(self).contents() == old(
                self,
            ).contents(),
            old(self).contents().len() > 0 ==> r == Some(old(self).contents()[0])
                && final(self).contents() == old(self).contents().subrange(
                1,
                old(self).contents().len() as int,
            ),
    {
        self.items.pop_front()
    }

    /// Takes all items, oldest first.
    pub fn drain(&mut self) -> (r: Vec<T>)
        requires
            old(self).wf(),
        ensures
            final(self).wf(),
            final(self).limit() == old(self).limit(),
            final(self).losses() == old(self).losses(),
            r@ == old(self).contents(),
            final(self).contents() == Seq::<T>::empty(),
    {
        let mut out: Vec<T> = Vec::new();
        while self.items.len() > 0
            invariant
                self.capacity == old(self).capacity,
                self.lost == old(self).lost,
                out@ + self.items@ == old(self).items@,
            decreases self.items@.len(),
        {
            if let Some(item) = self.items.pop_front() {
                out.push(item);
            }
            assert(out@ + self.items@ =~= old(self).items@);
        }
        assert(out@ =~= out@ + self.items@);
        out
    }

    /// How many items wait.
    pub fn len(&self) -> (r: usize)
        ensures
            r == self.contents().len(),
    {
        self.items.len()
    }

    /// How many items were lost.
    pub fn lost(&self) -> (r: u64)
        ensures
            r == self.losses(),
    {
        self.lost
    }
}

} // verus!
