//! Orders to the frame player, reports from it, and inputs to the core loop.
//!
//! Each direction is a bounded queue in which the newest entries stay: the last
//! order says best what should be shown now.

use crate::queue::Bounded;
use vstd::prelude::*;

verus! {

/// How many orders, and how many reports, wait at most.
pub const PLAYBACK_CHANNEL_CAP: usize = 16;

/// How many inputs wait at most.
pub const CORE_INPUT_CAP: usize = 8;

/// An order from the core loop to the frame player.
#[derive(Debug, Clone, PartialEq, Eq)]
pub enum PlaybackOrder {
    /// Play this action in place of the rotation; a looping one plays until `Stop`.
    Play { action_id: String },
    /// Drop the action in place of the rotation.
    Stop,
}

/// A report from the frame player to the core loop.
#[derive(Debug, Clone, PartialEq, Eq)]
pub enum PlaybackReport {
    /// The ordered action has played to its end, or cannot be played at all.
    Finished { action_id: String },
}

/// Orders and reports on their way between the core loop and the frame player.
#[derive(Debug)]
pub struct PlaybackChannel {
    orders: Bounded<PlaybackOrder>,
    reports: Bounded<PlaybackReport>,
}

impl PlaybackChannel {
    /// The orders that wait, oldest first.
    pub closed spec fn orders(self) -> Seq<PlaybackOrder> {
        self.orders.contents()
    }

    /// The reports that wait, oldest first.
    pub closed spec fn reports(self) -> Seq<PlaybackReport> {
        self.reports.contents()
    }

    /// How many orders were lost.
    pub closed spec fn lost(self) -> u64 {
        self.orders.losses()
    }

    pub closed spec fn wf(self) -> bool {
        &&& self.orders.wf()
        &&& self.reports.wf()
        &&& self.orders.limit() == PLAYBACK_CHANNEL_CAP
        &&& self.reports.limit() == PLAYBACK_CHANNEL_CAP
    }

    /// A well-formed channel holds at most [`PLAYBACK_CHANNEL_CAP`] orders and reports.
    pub proof fn lemma_bounded(self)
        requires
            self.wf(),
        ensures
            self.orders().len() <= PLAYBACK_CHANNEL_CAP,
            self.reports().len() <= PLAYBACK_CHANNEL_CAP,
    {
    }

    /// Adds an order; where too many wait, the oldest is lost and counted.
    pub fn push_order(&mut self, order: PlaybackOrder)
        requires
            old(self).wf(),
        ensures
            final(self).wf(),
            final(self).orders() == crate::queue::newest(
                old(self).orders(),
                PLAYBACK_CHANNEL_CAP as nat,
                order,
            ),
            final(self).lost() == crate::queue::losses_after(
                old(self).lost(),
                old(self).orders().len(),
                PLAYBACK_CHANNEL_CAP as nat,
            ),
            final(self).reports() == old(self).reports(),
    {
        self.orders.push_newest(order);
    }

    /// Takes the oldest order.
    pub fn try_pop_order(&mut self) -> (r: Option<PlaybackOrder>)
        requires
            old(self).wf(),
        ensures
            final(self).wf(),
            final(self).lost() == old(self).lost(),
            final(self).reports() == old(self).reports(),
            old(self).orders().len() == 0 ==> r is None && final(self).orders() == old(
                self,
            ).orders(),
            old(self).orders().len() > 0 ==> r == Some(old(self).orders()[0])
                && final(self).orders() == old(self).orders().subrange(
                1,
                old(self).orders().len() as int,
            ),
    {
        self.orders.pop()
    }

    /// Adds a report; where too many wait, the oldest is lost.
    pub fn push_report(&mut self, report: PlaybackReport)
        requires
            old(self).wf(),
        ensures
            final(self).wf(),
            final(self).reports() == crate::queue::newest(
                old(self).reports(),
                PLAYBACK_CHANNEL_CAP as nat,
                report,
            ),
            final(self).orders() == old(self).orders(),
            final(self).lost() == old(self).lost(),
    {
        self.reports.push_newest(report);
    }

    /// Takes all reports, oldest first.
    pub fn drain_reports(&mut self) -> (r: Vec<PlaybackReport>)
        requires
            old(self).wf(),
        ensures
            final(self).wf(),
            r@ == old(self).reports(),
            final(self).reports() == Seq::<PlaybackReport>::empty(),
            final(self).orders() == old(self).orders(),
            final(self).lost() == old(self).lost(),
    {
        self.reports.drain()
    }

    /// How many orders were lost so far.
    pub fn dropped_orders(&self) -> (r: u64)
        ensures
            r == self.lost(),
    {
        self.orders.lost()
    }
}

impl Default for PlaybackChannel {
    /// An empty channel.
    fn default() -> (r: Self)
        ensures
            r.wf(),
            r.orders() == Seq::<PlaybackOrder>::empty(),
            r.reports() == Seq::<PlaybackReport>::empty(),
            r.lost() == 0,
    {
        PlaybackChannel {
            orders: Bounded::new(PLAYBACK_CHANNEL_CAP),
            reports: Bounded::new(PLAYBACK_CHANNEL_CAP),
        }
    }
}

/// An input to the core loop from the settings window or the tray.
#[derive(Debug, Clone, PartialEq, Eq)]
pub enum CoreInput {
    /// Settle the mood back to its calm level.
    ResetEmotion,
    /// Call the runaway pet back.
    RecallRunaway,
    /// A stroke from the tray menu.
    TrayCoax,
    /// A meal from the tray menu.
    TrayFeed,
    /// A bath from the tray menu.
    TrayBath,
    /// Rebuild the save from scratch and restart.
    ResetAllData,
    /// Replace the save by a backup and restart; the file is named without a path.
    ImportSave { file: String },
    /// Write the save and quit.
    Shutdown,
    /// Write the save now; the requester waits under this ticket.
    FlushSave { ticket: u64 },
    /// Send the pet out.
    ActivityDispatch { kind: String, def_id: String, duration_min: u32 },
    /// Call the pet back from an activity.
    ActivityRecall,
    /// Buy from the shop.
    Purchase { item_id: String, qty: u32 },
    /// Put a decoration into a slot.
    DecorPlace { slot: u8, item_id: String },
    /// Clear a decoration slot.
    DecorRemove { slot: u8 },
}

/// Inputs on their way to the core loop.
#[derive(Debug)]
pub struct CoreInputChannel {
    queue: Bounded<CoreInput>,
}

impl CoreInputChannel {
    /// The inputs that wait, oldest first.
    pub closed spec fn inputs(self) -> Seq<CoreInput> {
        self.queue.contents()
    }

    /// How many inputs were lost.
    pub closed spec fn lost(self) -> u64 {
        self.queue.losses()
    }

    pub closed spec fn wf(self) -> bool {
        self.queue.wf() && self.queue.limit() == CORE_INPUT_CAP
    }

    /// A well-formed channel holds at most [`CORE_INPUT_CAP`] inputs.
    pub proof fn lemma_bounded(self)
        requires
            self.wf(),
        ensures
            self.inputs().len() <= CORE_INPUT_CAP,
    {
    }

    /// Adds an input; where too many wait, the oldest is lost and counted.
    pub fn push(&mut self, input: CoreInput)
        requires
            old(self).wf(),
        ensures
            final(self).wf(),
            final(self).inputs() == crate::queue::newest(old(self).inputs(), CORE_INPUT_CAP as nat, input),
            final(self).lost() == crate::queue::losses_after(
                old(self).lost(),
                old(self).inputs().len(),
                CORE_INPUT_CAP as nat,
            ),
    {
        self.queue.push_newest(input);
    }

    /// Takes all inputs, oldest first.
    pub fn drain(&mut self) -> (r: Vec<CoreInput>)
        requires
            old(self).wf(),
        ensures
            final(self).wf(),
            r@ == old(self).inputs(),
            final(self).inputs() == Seq::<CoreInput>::empty(),
            final(self).lost() == old(self).lost(),
    {
        self.queue.drain()
    }

    /// How many inputs were lost so far.
    pub fn dropped(&self) -> (r: u64)
        ensures
            r == self.lost(),
    {
        self.queue.lost()
    }
}

impl Default for CoreInputChannel {
    /// An empty channel.
    fn default() -> (r: Self)
        ensures
            r.wf(),
            r.inputs() == Seq::<CoreInput>::empty(),
            r.lost() == 0,
    {
        CoreInputChannel { queue: Bounded::new(CORE_INPUT_CAP) }
    }
}

/// How many of `arrivals` orders an empty channel has lost once all have come.
pub open spec fn lost_of(arrivals: nat) -> nat {
    if arrivals > PLAYBACK_CHANNEL_CAP {
        (arrivals - PLAYBACK_CHANNEL_CAP) as nat
    } else {
        0
    }
}

/// Orders come out in the order in which they went in, and the last ones stay: of
/// any arrivals at an empty channel exactly the surplus over the capacity is lost,
/// and it is the oldest part.
pub proof fn lemma_orders_fifo(arrivals: Seq<PlaybackOrder>)
    ensures
        crate::queue::newest_of(arrivals, PLAYBACK_CHANNEL_CAP as nat) == arrivals.subrange(
            lost_of(arrivals.len()) as int,
            arrivals.len() as int,
        ),
        crate::queue::newest_of(arrivals, PLAYBACK_CHANNEL_CAP as nat).len() + lost_of(arrivals.len())
            == arrivals.len(),
{
    crate::queue::lemma_newest_are_the_last(arrivals, PLAYBACK_CHANNEL_CAP as nat);
}

} // verus!
