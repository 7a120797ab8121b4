//! Mouse events on their way from the system hook to the core loop.
//!
//! The hook must not wait, so an event that finds the queue full is turned away
//! and counted; those that came before it stay.

use crate::queue::Bounded;
use vstd::prelude::*;

verus! {

/// How many events wait at most.
pub const DEFAULT_HOOK_QUEUE_CAPACITY: usize = 512;

/// A button of the mouse.
#[derive(Clone, Copy, Debug, PartialEq, Eq, Structural)]
pub enum MouseButton {
    Left,
    Right,
    Middle,
    X1,
    X2,
}

/// What the hook saw, in screen pixels.
#[derive(Clone, Copy, Debug, PartialEq, Eq, Structural)]
pub enum HookEvent {
    Move { x: i32, y: i32 },
    Down { button: MouseButton, x: i32, y: i32 },
    Up { button: MouseButton, x: i32, y: i32 },
    Wheel { delta: i32, x: i32, y: i32 },
}

/// The events that wait once one more was seen: one that finds the queue full is turned away,
/// and so is one that nobody reads any more.
pub open spec fn waiting_after(
    waiting: Seq<HookEvent>,
    limit: nat,
    connected: bool,
    event: HookEvent,
) -> Seq<HookEvent> {
    if connected {
        crate::queue::oldest(waiting, limit, event)
    } else {
        waiting
    }
}

/// How many events were turned away once one more was seen; what nobody reads is not counted.
pub open spec fn lost_after(lost: u64, waiting: nat, limit: nat, connected: bool) -> u64 {
    if connected && waiting >= limit {
        crate::queue::next_count(lost)
    } else {
        lost
    }
}

/// No event moves those that wait. While someone reads, every event waits or is counted; once
/// nobody does, it is neither.
pub proof fn lemma_hook_never_waits(
    waiting: Seq<HookEvent>,
    lost: u64,
    limit: nat,
    event: HookEvent,
)
    requires
        0 < limit,
        waiting.len() <= limit,
        lost < u64::MAX,
    ensures
        waiting_after(waiting, limit, true, event).take(waiting.len() as int) == waiting,
        waiting.len() < limit ==> waiting_after(waiting, limit, true, event).last() == event,
        waiting_after(waiting, limit, true, event).len() + lost_after(
            lost,
            waiting.len(),
            limit,
            true,
        ) == waiting.len() + lost + 1,
        waiting_after(waiting, limit, true, event).len() <= limit,
        waiting_after(waiting, limit, false, event) == waiting,
        lost_after(lost, waiting.len(), limit, false) == lost,
{
    assert(waiting_after(waiting, limit, true, event).take(waiting.len() as int) =~= waiting);
}

/// The queue between the hook and the core loop.
#[derive(Debug)]
pub struct ChannelSink {
    queue: Bounded<HookEvent>,
    open: bool,
}

impl ChannelSink {
    /// The events that wait, oldest first.
    pub closed spec fn waiting(self) -> Seq<HookEvent> {
        self.queue.contents()
    }

    /// How many events wait at most.
    pub closed spec fn limit(self) -> nat {
        self.queue.limit()
    }

    /// How many events were turned away.
    pub closed spec fn lost(self) -> u64 {
        self.queue.losses()
    }

    /// Someone still takes events.
    pub closed spec fn connected(self) -> bool {
        self.open
    }

    pub open spec fn wf(self) -> bool {
        0 < self.limit() && self.waiting().len() <= self.limit()
    }

    /// An empty queue; a capacity of zero counts as one.
    pub fn new(capacity: usize) -> (r: Self)
        ensures
            r.wf(),
            r.connected(),
            r.waiting() == Seq::<HookEvent>::empty(),
            r.limit() == if capacity == 0 { 1 } else { capacity as nat },
            r.lost() == 0,
    {
        ChannelSink { queue: Bounded::new(capacity), open: true }
    }

    /// Adds an event; a full queue turns it away and counts it, one that nobody reads
    /// any more lets it go.
    pub fn on_event(&mut self, event: HookEvent)
        requires
            old(self).wf(),
        ensures
            final(self).wf(),
            final(self).limit() == old(self).limit(),
            final(self).connected() == old(self).connected(),
            final(self).waiting() == waiting_after(
                old(self).waiting(),
                old(self).limit(),
                old(self).connected(),
                event,
            ),
            final(self).lost() == lost_after(
                old(self).lost(),
                old(self).waiting().len(),
                old(self).limit(),
                old(self).connected(),
            ),
    {
        if self.open {
            let _ = self.queue.push_oldest(event);
        }
    }

    /// Takes the oldest event.
    pub fn try_recv(&mut self) -> (r: Option<HookEvent>)
        requires
            old(self).wf(),
        ensures
            final(self).wf(),
            final(self).limit() == old(self).limit(),
            final(self).connected() == old(self).connected(),
            final(self).lost() == old(self).lost(),
            old(self).waiting().len() == 0 ==> r is None && final(self).waiting() == old(
                self,
            ).waiting(),
            old(self).waiting().len() > 0 ==> r == Some(old(self).waiting()[0])
                && final(self).waiting() == old(self).waiting().subrange(
                1,
                old(self).waiting().len() as int,
            ),
    {
        self.queue.pop()
    }

    /// Takes all events, oldest first.
    pub fn take_all(&mut self) -> (r: Vec<HookEvent>)
        requires
            old(self).wf(),
        ensures
            final(self).wf(),
            final(self).limit() == old(self).limit(),
            final(self).connected() == old(self).connected(),
            final(self).lost() == old(self).lost(),
            final(self).waiting() == Seq::<HookEvent>::empty(),
            r@ == old(self).waiting(),
    {
        self.queue.drain()
    }

    /// Drops all events that wait; says how many they were.
    pub fn drain(&mut self) -> (r: usize)
        requires
            old(self).wf(),
        ensures
            final(self).wf(),
            final(self).limit() == old(self).limit(),
            final(self).connected() == old(self).connected(),
            final(self).lost() == old(self).lost(),
            final(self).waiting() == Seq::<HookEvent>::empty(),
            r == old(self).waiting().len(),
    {
        self.queue.drain().len()
    }

    /// Nobody takes events any more: those that wait are gone, later ones too.
    pub fn disconnect(&mut self)
        requires
            old(self).wf(),
        ensures
            final(self).wf(),
            final(self).limit() == old(self).limit(),
            !final(self).connected(),
            final(self).waiting() == Seq::<HookEvent>::empty(),
            final(self).lost() == old(self).lost(),
    {
        let _ = self.queue.drain();
        self.open = false;
    }

    /// How many events were turned away.
    pub fn dropped(&self) -> (r: u64)
        ensures
            r == self.lost(),
    {
        self.queue.lost()
    }
}

} // verus!
