//! The frame player: what each tick of the player thread shows.
//!
//! The player rotates through its actions. An ordered action takes the place of
//! the rotation until it has played to its end, or until the order to stop where it
//! loops. Time is in milliseconds of a monotonic clock; ticks stand on a grid that
//! is anchored where the player started, so that late ticks do not add up.

use crate::bridge::channel::{PlaybackChannel, PlaybackOrder, PlaybackReport};
use crate::bridge::frame::{frame_cmd, AtlasMeta, FpsTier, PlayerFrame, RenderFrameCmd, DWELL_MS};
use crate::scalar::Scalar;
use crate::text;
use vstd::prelude::*;

verus! {

/// What the player has to know of an action it can play.
#[derive(Debug, Clone, PartialEq, Eq)]
pub struct Track {
    pub action_id: String,
    /// Plays until it is stopped.
    pub looping: bool,
    /// How long one pass takes, in milliseconds.
    pub segment_ms: u64,
}

/// An action in place of the rotation: which track, and since when.
#[derive(Debug, Clone, Copy, PartialEq, Eq, Structural)]
pub struct OverridePlay {
    pub index: usize,
    pub start_ms: u64,
}

/// The state of the player thread.
#[derive(Debug, Clone, Copy, PartialEq, Eq, Structural)]
pub struct Player {
    /// The rate at which the player ticks.
    pub tier: FpsTier,
    /// Where the tick grid and the rotation are anchored.
    pub start_ms: u64,
    /// Ticks since the anchor.
    pub tick: u64,
    /// The action in place of the rotation.
    pub over: Option<OverridePlay>,
}

/// What a tick puts out.
#[derive(Debug, Clone, Copy, PartialEq, Eq, Structural)]
pub enum TickOutput {
    /// The rate changed; nothing is shown.
    Retiered,
    /// An ordered action ended; nothing is shown.
    Finished,
    /// Show this track, so many milliseconds into it.
    Override { index: usize, action_ms: u64 },
    /// Show the rotation, so many milliseconds after its anchor.
    Rotation { elapsed_ms: u64 },
}

/// The first track from `from` on that plays `action_id`.
pub open spec fn track_from(tracks: Seq<Track>, action_id: Seq<char>, from: int) -> Option<int>
    decreases tracks.len() - from,
{
    if from < 0 || from >= tracks.len() {
        None
    } else if tracks[from].action_id@ == action_id {
        Some(from)
    } else {
        track_from(tracks, action_id, from + 1)
    }
}

/// The first track that plays `action_id`.
pub open spec fn track_of(tracks: Seq<Track>, action_id: Seq<char>) -> Option<int> {
    track_from(tracks, action_id, 0)
}

/// Milliseconds from `since` to `now`, zero where the clock stands behind.
pub open spec fn elapsed(now: u64, since: u64) -> u64 {
    if now >= since {
        (now - since) as u64
    } else {
        0
    }
}

impl Player {
    /// The player after one order: an action that it can play takes the place of
    /// whatever was ordered before, a stop returns to a rotation that starts anew.
    pub open spec fn ordered(self, order: PlaybackOrder, tracks: Seq<Track>, now: u64) -> Player {
        match order {
            PlaybackOrder::Play { action_id } => match track_of(tracks, action_id@) {
                Some(index) => Player {
                    over: Some(OverridePlay { index: index as usize, start_ms: now }),
                    ..self
                },
                None => self,
            },
            PlaybackOrder::Stop => if self.over is Some {
                Player { over: None, start_ms: now, tick: 0, ..self }
            } else {
                self
            },
        }
    }

    /// The player after all of `orders`, first to last.
    pub open spec fn ordered_all(
        self,
        orders: Seq<PlaybackOrder>,
        tracks: Seq<Track>,
        now: u64,
    ) -> Player
        decreases orders.len(),
    {
        if orders.len() == 0 {
            self
        } else {
            self.ordered(orders[0], tracks, now).ordered_all(
                orders.subrange(1, orders.len() as int),
                tracks,
                now,
            )
        }
    }

    /// What the player shows, and how it goes on, once the orders are taken.
    pub open spec fn shown(self, tracks: Seq<Track>, now: u64) -> (Player, TickOutput) {
        match self.over {
            Some(over) => {
                let track = tracks[over.index as int];
                let action_ms = elapsed(now, over.start_ms);
                if !track.looping && action_ms >= track.segment_ms {
                    (
                        Player { over: None, start_ms: now, tick: 0, ..self },
                        TickOutput::Finished,
                    )
                } else {
                    (self, TickOutput::Override { index: over.index, action_ms })
                }
            },
            None => (self, TickOutput::Rotation { elapsed_ms: elapsed(now, self.start_ms) }),
        }
    }

    /// The reports once the player has shown what it shows: the end of an ordered action is
    /// reported.
    pub open spec fn reported(
        self,
        reports: Seq<PlaybackReport>,
        tracks: Seq<Track>,
        now: u64,
    ) -> Seq<PlaybackReport> {
        if self.shown(tracks, now).1 == TickOutput::Finished {
            crate::queue::newest(
                reports,
                crate::bridge::channel::PLAYBACK_CHANNEL_CAP as nat,
                PlaybackReport::Finished {
                    action_id: tracks[self.over->0.index as int].action_id,
                },
            )
        } else {
            reports
        }
    }

    /// The player at another rate: its grid starts anew.
    pub open spec fn retiered(self, want: FpsTier, now: u64) -> Player {
        Player { tier: want, start_ms: now, tick: 0, ..self }
    }

    /// The ordered track, if any, is one of `tracks`.
    pub open spec fn wf(self, tracks: Seq<Track>) -> bool {
        self.over matches Some(over) ==> over.index < tracks.len()
    }

    /// A player at its anchor, without an ordered action.
    pub fn new(tier: FpsTier, now_ms: u64) -> (r: Player)
        ensures
            r == (Player { tier, start_ms: now_ms, tick: 0, over: None }),
    {
        Player { tier, start_ms: now_ms, tick: 0, over: None }
    }

    /// Counts one tick and gives its time, in milliseconds after the anchor: tick `k`
    /// is due `k` steps after the anchor, however late the ticks before it came.
    pub fn next_due(&mut self, step_ms: u64) -> (due_ms: u64)
        ensures
            final(self).tick == crate::queue::next_count(old(self).tick),
            final(self).tier == old(self).tier,
            final(self).start_ms == old(self).start_ms,
            final(self).over == old(self).over,
            due_ms == due_after(final(self).tick, step_ms),
    {
        self.tick = self.tick.wrapping_add(1);
        scaled(self.tick, step_ms)
    }

    /// Handles one order to play: a known action starts, an unknown one is reported
    /// as finished at once, so that whoever waits for it goes on.
    pub fn handle_play_order(
        &mut self,
        channel: &mut PlaybackChannel,
        tracks: &Vec<Track>,
        action_id: String,
        now_ms: u64,
    )
        requires
            old(self).wf(tracks@),
            old(channel).wf(),
        ensures
            *final(self) == old(self).ordered(
                PlaybackOrder::Play { action_id },
                tracks@,
                now_ms,
            ),
            final(self).wf(tracks@),
            final(channel).wf(),
            final(channel).orders() == old(channel).orders(),
            final(channel).lost() == old(channel).lost(),
            final(channel).reports() == report_misses(
                old(channel).reports(),
                seq![PlaybackOrder::Play { action_id }],
                tracks@,
            ),
    {
        let ghost order = PlaybackOrder::Play { action_id };
        proof {
            reveal_with_fuel(report_misses, 2);
            assert(seq![order].subrange(1, 1) =~= Seq::empty());
        }
        match position(tracks, action_id.as_str()) {
            Some(index) => {
                self.over = Some(OverridePlay { index, start_ms: now_ms });
            },
            None => {
                channel.push_report(PlaybackReport::Finished { action_id });
            },
        }
    }

    /// One tick of the player thread.
    ///
    /// A change of rate starts the grid anew and shows nothing. Otherwise all waiting
    /// orders are taken first. An ordered action that has ended is reported, the
    /// rotation starts anew, and nothing is shown.
    pub fn on_tick(
        &mut self,
        channel: &mut PlaybackChannel,
        tracks: &Vec<Track>,
        want: FpsTier,
        now_ms: u64,
    ) -> (out: TickOutput)
        requires
            old(self).wf(tracks@),
            old(channel).wf(),
        ensures
            final(self).wf(tracks@),
            final(channel).wf(),
            final(channel).lost() == old(channel).lost(),
            want != old(self).tier ==> {
                &&& out == TickOutput::Retiered
                &&& *final(self) == old(self).retiered(want, now_ms)
                &&& final(channel).orders() == old(channel).orders()
                &&& final(channel).reports() == old(channel).reports()
            },
            want == old(self).tier ==> {
                let taken = old(self).ordered_all(old(channel).orders(), tracks@, now_ms);
                let missed = report_misses(
                    old(channel).reports(),
                    old(channel).orders(),
                    tracks@,
                );
                &&& (*final(self), out) == taken.shown(tracks@, now_ms)
                &&& final(channel).orders() == Seq::<PlaybackOrder>::empty()
                &&& final(channel).reports() == taken.reported(missed, tracks@, now_ms)
            },
    {
        if want != self.tier {
            self.tier = want;
            self.start_ms = now_ms;
            self.tick = 0;
            return TickOutput::Retiered;
        }
        let ghost me = *self;
        let ghost all = channel.orders();
        let ghost reports = channel.reports();
        let mut more: bool = true;
        while more
            invariant
                self.wf(tracks@),
                channel.wf(),
                channel.lost() == old(channel).lost(),
                self.ordered_all(channel.orders(), tracks@, now_ms) == me.ordered_all(
                    all,
                    tracks@,
                    now_ms,
                ),
                report_misses(channel.reports(), channel.orders(), tracks@) == report_misses(
                    reports,
                    all,
                    tracks@,
                ),
                !more ==> channel.orders().len() == 0,
            decreases channel.orders().len() + if more { 1int } else { 0int },
        {
            match channel.try_pop_order() {
                None => {
                    more = false;
                },
                Some(PlaybackOrder::Stop) => {
                    if self.over.is_some() {
                        self.over = None;
                        self.start_ms = now_ms;
                        self.tick = 0;
                    }
                },
                Some(PlaybackOrder::Play { action_id }) => {
                    let ghost before = channel.reports();
                    let ghost order = PlaybackOrder::Play { action_id };
                    self.handle_play_order(channel, tracks, action_id, now_ms);
                    proof {
                        reveal_with_fuel(report_misses, 2);
                        assert(seq![order].subrange(1, 1) =~= Seq::empty());
                        assert(channel.reports() == report_miss(before, order, tracks@));
                    }
                },
            }
        }
        assert(channel.orders() =~= Seq::<PlaybackOrder>::empty());
        match self.over {
            Some(over) => {
                let action_ms: u64 = since(now_ms, over.start_ms);
                let track: &Track = &tracks[over.index];
                if !track.looping && action_ms >= track.segment_ms {
                    channel.push_report(
                        PlaybackReport::Finished { action_id: track.action_id.clone() },
                    );
                    self.over = None;
                    self.start_ms = now_ms;
                    self.tick = 0;
                    TickOutput::Finished
                } else {
                    TickOutput::Override { index: over.index, action_ms }
                }
            },
            None => TickOutput::Rotation { elapsed_ms: since(now_ms, self.start_ms) },
        }
    }
}

/// The reports after one order: an order to play an action without a track is
/// answered at once.
pub open spec fn report_miss(
    reports: Seq<PlaybackReport>,
    order: PlaybackOrder,
    tracks: Seq<Track>,
) -> Seq<PlaybackReport> {
    match order {
        PlaybackOrder::Play { action_id } => if track_of(tracks, action_id@) is None {
            crate::queue::newest(
                reports,
                crate::bridge::channel::PLAYBACK_CHANNEL_CAP as nat,
                PlaybackReport::Finished { action_id },
            )
        } else {
            reports
        },
        PlaybackOrder::Stop => reports,
    }
}

/// The reports after all of `orders`, first to last.
pub open spec fn report_misses(
    reports: Seq<PlaybackReport>,
    orders: Seq<PlaybackOrder>,
    tracks: Seq<Track>,
) -> Seq<PlaybackReport>
    decreases orders.len(),
{
    if orders.len() == 0 {
        reports
    } else {
        report_misses(
            report_miss(reports, orders[0], tracks),
            orders.subrange(1, orders.len() as int),
            tracks,
        )
    }
}

/// When tick `k` is due, in milliseconds after the anchor.
pub open spec fn due_after(k: u64, step_ms: u64) -> int {
    if k * step_ms > u64::MAX {
        u64::MAX as int
    } else {
        k * step_ms
    }
}

/// `k` steps of `step_ms`, held at the largest 64-bit number.
pub fn scaled(k: u64, step_ms: u64) -> (r: u64)
    ensures
        r == due_after(k, step_ms),
{
    assert(0 <= k * step_ms) by (nonlinear_arith);
    match k.checked_mul(step_ms) {
        Some(v) => v,
        None => u64::MAX,
    }
}

/// Milliseconds from `start` to `now`, zero where the clock stands behind.
pub fn since(now: u64, start: u64) -> (r: u64)
    ensures
        r == elapsed(now, start),
{
    if now >= start {
        now - start
    } else {
        0
    }
}

/// The first track that plays `action_id`.
fn position(tracks: &Vec<Track>, action_id: &str) -> (r: Option<usize>)
    ensures
        r matches Some(index) ==> track_of(tracks@, action_id@) == Some(index as int)
            && index < tracks@.len(),
        r is None ==> track_of(tracks@, action_id@) is None,
{
    let mut i: usize = 0;
    while i < tracks.len()
        invariant
            i <= tracks@.len(),
            track_of(tracks@, action_id@) == track_from(tracks@, action_id@, i as int),
        decreases tracks@.len() - i,
    {
        if text::equal(tracks[i].action_id.as_str(), action_id) {
            return Some(i);
        }
        i = i + 1;
    }
    None
}

/// What the atlas says of `action_id`: where several entries name it, the last counts.
pub open spec fn meta_of(metas: Seq<AtlasMeta>, action_id: Seq<char>) -> Option<AtlasMeta>
    decreases metas.len(),
{
    if metas.len() == 0 {
        None
    } else if metas.last().action_id@ == action_id {
        Some(metas.last())
    } else {
        meta_of(metas.drop_last(), action_id)
    }
}

/// `cmd` shows the frame on its atlas, with the set opacity or else none of its own.
pub open spec fn shows(
    cmd: RenderFrameCmd,
    meta: AtlasMeta,
    frame: PlayerFrame,
    tier_fps: u32,
    alpha: Option<Scalar>,
) -> bool {
    &&& cmd.version == crate::bridge::frame::FRAME_CMD_VERSION
    &&& cmd.action_id == frame.action_id
    &&& cmd.atlas_png == meta.png
    &&& cmd.frame_index == frame.frame_index
    &&& cmd.columns == meta.columns
    &&& cmd.rows == meta.rows
    &&& cmd.frame_w == meta.frame_w
    &&& cmd.frame_h == meta.frame_h
    &&& cmd.mirror == frame.mirror
    &&& cmd.fps == tier_fps
    &&& cmd.alpha == match alpha {
        Some(level) => level,
        None => (Scalar { bits: crate::scalar::ONE_BITS }),
    }
}

/// The command that shows a frame: the frame on its atlas, with the set opacity
/// where one is set. A frame without an atlas entry is skipped.
pub fn frame_to_publish(
    metas: &Vec<AtlasMeta>,
    frame: &PlayerFrame,
    tier_fps: u32,
    alpha: Option<Scalar>,
) -> (r: Option<RenderFrameCmd>)
    ensures
        r is Some <==> meta_of(metas@, frame.action_id@) is Some,
        r matches Some(cmd) ==> {
            let meta = meta_of(metas@, frame.action_id@)->0;
            shows(cmd, meta, *frame, tier_fps, alpha)
        },
{
    let mut n: usize = metas.len();
    assert(metas@.subrange(0, n as int) =~= metas@);
    while n > 0
        invariant
            n <= metas@.len(),
            meta_of(metas@, frame.action_id@) == meta_of(
                metas@.subrange(0, n as int),
                frame.action_id@,
            ),
        decreases n,
    {
        let ghost head = metas@.subrange(0, n as int);
        assert(head.last() == metas@[n - 1]);
        assert(head.drop_last() =~= metas@.subrange(0, n - 1));
        n = n - 1;
        if text::equal(metas[n].action_id.as_str(), frame.action_id.as_str()) {
            let mut cmd: RenderFrameCmd = frame_cmd(&metas[n], frame, tier_fps);
            if let Some(level) = alpha {
                cmd.alpha = level;
            }
            return Some(cmd);
        }
    }
    None
}

/// How an action without an entry in the action list is rotated.
#[derive(Debug, Clone, PartialEq, Eq)]
pub struct PlayItem {
    pub action_id: String,
    pub fps: u32,
    pub looping: bool,
    pub mirror: bool,
    pub frame_count: u32,
    pub dwell_ms: u64,
}

/// The atlas entries that hold a frame at all.
pub open spec fn playable(metas: Seq<AtlasMeta>) -> Seq<AtlasMeta>
    decreases metas.len(),
{
    if metas.len() == 0 {
        Seq::empty()
    } else if metas.last().frame_count > 0 {
        playable(metas.drop_last()).push(metas.last())
    } else {
        playable(metas.drop_last())
    }
}

/// `items` are the actions of the atlas that hold a frame, in its order, each looping over
/// all its frames at the idle rate.
pub open spec fn from_atlas(items: Seq<PlayItem>, metas: Seq<AtlasMeta>) -> bool {
    &&& items.len() == playable(metas).len()
    &&& forall|i: int|
        0 <= i < items.len() ==> {
            &&& (#[trigger] items[i]).action_id == playable(metas)[i].action_id
            &&& items[i].frame_count == playable(metas)[i].frame_count
            &&& items[i].fps == FpsTier::Fps6.rate()
            &&& items[i].looping
            &&& items[i].mirror
            &&& items[i].dwell_ms == DWELL_MS
        }
}

/// The rotation where no action list can be had: every action with frames, in atlas
/// order, looping over all its frames at the idle rate.
pub fn fallback_items_from_atlas(metas: &Vec<AtlasMeta>) -> (r: Vec<PlayItem>)
    ensures
        from_atlas(r@, metas@),
{
    let mut out: Vec<PlayItem> = Vec::new();
    let mut i: usize = 0;
    while i < metas.len()
        invariant
            i <= metas@.len(),
            out@.len() == playable(metas@.subrange(0, i as int)).len(),
            forall|k: int|
                0 <= k < out@.len() ==> {
                    let from = playable(metas@.subrange(0, i as int));
                    &&& (#[trigger] out@[k]).action_id == from[k].action_id
                    &&& out@[k].frame_count == from[k].frame_count
                    &&& out@[k].fps == FpsTier::Fps6.rate()
                    &&& out@[k].looping
                    &&& out@[k].mirror
                    &&& out@[k].dwell_ms == DWELL_MS
                },
        decreases metas@.len() - i,
    {
        let ghost head = metas@.subrange(0, i + 1);
        assert(head.drop_last() =~= metas@.subrange(0, i as int));
        assert(head.last() == metas@[i as int]);
        let meta: &AtlasMeta = &metas[i];
        if meta.frame_count > 0 {
            out.push(
                PlayItem {
                    action_id: meta.action_id.clone(),
                    fps: FpsTier::Fps6.fps(),
                    looping: true,
                    mirror: true,
                    frame_count: meta.frame_count,
                    dwell_ms: DWELL_MS,
                },
            );
        }
        i = i + 1;
    }
    assert(metas@.subrange(0, i as int) =~= metas@);
    out
}

/// `r` is what the player rotates.
pub open spec fn rotates(
    r: Option<Vec<PlayItem>>,
    listed: Option<Vec<PlayItem>>,
    metas: Seq<AtlasMeta>,
) -> bool {
    match listed {
        Some(items) => r == if items@.len() > 0 {
            listed
        } else {
            None
        },
        None => {
            &&& r is Some <==> playable(metas).len() > 0
            &&& r matches Some(items) ==> from_atlas(items@, metas)
        },
    }
}

/// What the player rotates: the items of the action list where there is one, and those of
/// the atlas otherwise. None where that is nothing at all.
pub fn rotation_items(listed: Option<Vec<PlayItem>>, metas: &Vec<AtlasMeta>) -> (r: Option<
    Vec<PlayItem>,
>)
    ensures
        rotates(r, listed, metas@),
{
    let items: Vec<PlayItem> = match listed {
        Some(items) => items,
        None => fallback_items_from_atlas(metas),
    };
    if items.len() == 0 {
        None
    } else {
        Some(items)
    }
}

/// Without orders and without an ordered action the player shows the rotation, and
/// nothing about it changes.
pub proof fn lemma_rotation_is_steady(player: Player, tracks: Seq<Track>, now: u64)
    requires
        player.over is None,
    ensures
        player.ordered_all(Seq::empty(), tracks, now).shown(tracks, now) == (
            player,
            TickOutput::Rotation { elapsed_ms: elapsed(now, player.start_ms) },
        ),
{
}

/// A stop that finds no ordered action changes nothing, and after a stop the player
/// is back in the rotation.
pub proof fn lemma_stop(player: Player, tracks: Seq<Track>, now: u64)
    ensures
        player.over is None ==> player.ordered(PlaybackOrder::Stop, tracks, now) == player,
        player.ordered(PlaybackOrder::Stop, tracks, now).over is None,
{
}

/// An ordered action that does not loop ends: from the tick on which its pass is
/// over it is finished, and the tick after that shows the rotation.
pub proof fn lemma_ordered_action_ends(player: Player, tracks: Seq<Track>, now: u64, later: u64)
    requires
        player.wf(tracks),
        player.over is Some,
        !tracks[player.over->0.index as int].looping,
        elapsed(now, player.over->0.start_ms) >= tracks[player.over->0.index as int].segment_ms,
    ensures
        player.shown(tracks, now).1 == TickOutput::Finished,
        player.shown(tracks, now).0.shown(tracks, later).1 is Rotation,
{
}

/// A looping action never ends by itself.
pub proof fn lemma_looping_action_stays(player: Player, tracks: Seq<Track>, now: u64)
    requires
        player.wf(tracks),
        player.over is Some,
        tracks[player.over->0.index as int].looping,
    ensures
        player.shown(tracks, now).0 == player,
        player.shown(tracks, now).1 is Override,
{
}

/// The last order counts: an action that can be played is the ordered one after it,
/// whatever orders came before.
pub proof fn lemma_last_order_counts(
    player: Player,
    before: Seq<PlaybackOrder>,
    action_id: String,
    tracks: Seq<Track>,
    now: u64,
)
    requires
        track_of(tracks, action_id@) is Some,
    ensures
        player.ordered_all(before.push(PlaybackOrder::Play { action_id }), tracks, now).over
            == Some(
            OverridePlay {
                index: track_of(tracks, action_id@)->0 as usize,
                start_ms: now,
            },
        ),
    decreases before.len(),
{
    let last = PlaybackOrder::Play { action_id };
    let all = before.push(last);
    if before.len() == 0 {
        assert(all.subrange(1, 1) =~= Seq::empty());
        reveal_with_fuel(Player::ordered_all, 2);
    } else {
        let rest = before.subrange(1, before.len() as int);
        assert(all.subrange(1, all.len() as int) =~= rest.push(last));
        assert(all[0] == before[0]);
        lemma_last_order_counts(
            player.ordered(before[0], tracks, now),
            rest,
            action_id,
            tracks,
            now,
        );
    }
}

proof fn lemma_track_from(tracks: Seq<Track>, action_id: Seq<char>, from: int)
    requires
        0 <= from <= tracks.len(),
    ensures
        match track_from(tracks, action_id, from) {
            Some(index) => {
                &&& from <= index < tracks.len()
                &&& tracks[index].action_id@ == action_id
                &&& forall|j: int|
                    from <= j < index ==> (#[trigger] tracks[j]).action_id@ != action_id
            },
            None => forall|j: int|
                from <= j < tracks.len() ==> (#[trigger] tracks[j]).action_id@ != action_id,
        },
    decreases tracks.len() - from,
{
    if from < tracks.len() && tracks[from].action_id@ != action_id {
        lemma_track_from(tracks, action_id, from + 1);
    }
}

/// Of several tracks of one name the first is played; there is none exactly where no track has
/// the name.
pub proof fn lemma_first_track_is_played(tracks: Seq<Track>, action_id: Seq<char>)
    ensures
        match track_of(tracks, action_id) {
            Some(index) => {
                &&& 0 <= index < tracks.len()
                &&& tracks[index].action_id@ == action_id
                &&& forall|j: int| 0 <= j < index ==> (#[trigger] tracks[j]).action_id@ != action_id
            },
            None => forall|j: int|
                0 <= j < tracks.len() ==> (#[trigger] tracks[j]).action_id@ != action_id,
        },
{
    lemma_track_from(tracks, action_id, 0);
}

/// An order starts the named action from its beginning and leaves the rate and the grid alone;
/// where no track has the name it changes nothing. A stop puts a rotation that starts now in
/// place of the ordered action.
pub proof fn lemma_orders_are_followed(
    player: Player,
    action_id: String,
    tracks: Seq<Track>,
    now: u64,
)
    requires
        tracks.len() <= usize::MAX,
    ensures
        ({
            let after = player.ordered(PlaybackOrder::Play { action_id }, tracks, now);
            let named = |i: int| 0 <= i < tracks.len() && tracks[i].action_id@ == action_id@;
            &&& (exists|i: int| #[trigger] named(i)) ==> {
                &&& after.over is Some
                &&& after.over->0.start_ms == now
                &&& tracks[after.over->0.index as int].action_id@ == action_id@
                &&& Player { over: player.over, ..after } == player
                &&& after.shown(tracks, now).1 is Override ==> after.shown(tracks, now).1
                    == (TickOutput::Override { index: after.over->0.index, action_ms: 0 })
            }
            &&& !(exists|i: int| #[trigger] named(i)) ==> after == player
        }),
        ({
            let after = player.ordered(PlaybackOrder::Stop, tracks, now);
            &&& player.over is Some ==> after.start_ms == now && after.tick == 0
            &&& player.over is None ==> after == player
            &&& after.over is None && after.tier == player.tier
        }),
{
    let named = |i: int| 0 <= i < tracks.len() && tracks[i].action_id@ == action_id@;
    lemma_first_track_is_played(tracks, action_id@);
    if let Some(index) = track_of(tracks, action_id@) {
        assert(named(index));
    }
}

/// Orders are taken in turn: what two runs of orders do, one run of both does.
pub proof fn lemma_orders_are_taken_in_turn(
    player: Player,
    first: Seq<PlaybackOrder>,
    next: Seq<PlaybackOrder>,
    tracks: Seq<Track>,
    now: u64,
)
    ensures
        player.ordered_all(first + next, tracks, now) == player.ordered_all(
            first,
            tracks,
            now,
        ).ordered_all(next, tracks, now),
        next.len() == 1 ==> player.ordered_all(next, tracks, now) == player.ordered(
            next[0],
            tracks,
            now,
        ),
    decreases first.len(),
{
    reveal_with_fuel(Player::ordered_all, 2);
    if first.len() == 0 {
        assert(first + next =~= next);
    } else {
        let rest = first.subrange(1, first.len() as int);
        assert((first + next).subrange(1, (first + next).len() as int) =~= rest + next);
        lemma_orders_are_taken_in_turn(
            player.ordered(first[0], tracks, now),
            rest,
            next,
            tracks,
            now,
        );
    }
}

/// An ordered action shows from its start on, each millisecond once, until its pass is over; an
/// action that loops has no such end. After the end a rotation starts at that moment. Without
/// an ordered action the rotation shows, from its own start on.
pub proof fn lemma_actions_play_their_pass(player: Player, tracks: Seq<Track>, now: u64)
    ensures
        player.over matches Some(over) ==> {
            let track = tracks[over.index as int];
            let (after, out) = player.shown(tracks, now);
            let over_ms = over.start_ms + track.segment_ms;
            &&& now >= over.start_ms ==> (out == TickOutput::Finished <==> !track.looping && now
                >= over_ms)
            &&& out matches TickOutput::Override { index, action_ms } ==> {
                &&& index == over.index && after == player
                &&& now >= over.start_ms ==> over.start_ms + action_ms == now
                &&& now < over.start_ms ==> action_ms == 0
            }
            &&& out == TickOutput::Finished || out is Override
            &&& out == TickOutput::Finished ==> after == (Player {
                over: None,
                start_ms: now,
                tick: 0,
                tier: player.tier,
            })
        },
        player.over is None ==> {
            let (after, out) = player.shown(tracks, now);
            &&& after == player
            &&& out matches TickOutput::Rotation { elapsed_ms } && {
                &&& now >= player.start_ms ==> player.start_ms + elapsed_ms == now
                &&& now < player.start_ms ==> elapsed_ms == 0
            }
        },
{
}

/// A change of rate takes the new rate and starts the grid at that moment; an ordered action
/// goes on where it was.
pub proof fn lemma_new_rate_starts_the_grid(player: Player, want: FpsTier, now: u64)
    ensures
        player.retiered(want, now).tier == want,
        player.retiered(want, now).start_ms == now,
        player.retiered(want, now).tick == 0,
        player.retiered(want, now).over == player.over,
{
}

/// Ticks are due at equal distances, the first at the anchor itself.
pub proof fn lemma_ticks_are_due_at_equal_distances(k: u64, step_ms: u64)
    requires
        k < u64::MAX,
    ensures
        due_after(0, step_ms) == 0,
        due_after((k + 1) as u64, step_ms) == u64::MAX || due_after((k + 1) as u64, step_ms)
            - due_after(k, step_ms) == step_ms,
        due_after((k + 1) as u64, step_ms) == u64::MAX ==> (k + 1) * step_ms >= u64::MAX,
{
    assert(0 * step_ms == 0) by (nonlinear_arith);
    assert((k + 1) * step_ms == k * step_ms + step_ms) by (nonlinear_arith);
}

/// Each order to play what no track holds is answered as finished, at the end of the reports;
/// no other order adds a report.
pub proof fn lemma_unknown_actions_are_answered(
    reports: Seq<PlaybackReport>,
    action_id: String,
    tracks: Seq<Track>,
)
    ensures
        ({
            let after = report_miss(reports, PlaybackOrder::Play { action_id }, tracks);
            let named = |i: int| 0 <= i < tracks.len() && tracks[i].action_id@ == action_id@;
            &&& (exists|i: int| #[trigger] named(i)) ==> after == reports
            &&& !(exists|i: int| #[trigger] named(i)) ==> {
                &&& after.len() > 0
                &&& after.last() == (PlaybackReport::Finished { action_id })
                &&& reports.len() < crate::bridge::channel::PLAYBACK_CHANNEL_CAP
                    ==> after.drop_last() == reports
            }
        }),
        report_miss(reports, PlaybackOrder::Stop, tracks) == reports,
{
    let named = |i: int| 0 <= i < tracks.len() && tracks[i].action_id@ == action_id@;
    lemma_first_track_is_played(tracks, action_id@);
    if let Some(index) = track_of(tracks, action_id@) {
        assert(named(index));
    }
    let after = report_miss(reports, PlaybackOrder::Play { action_id }, tracks);
    if reports.len() < crate::bridge::channel::PLAYBACK_CHANNEL_CAP && track_of(
        tracks,
        action_id@,
    ) is None {
        assert(after.drop_last() =~= reports);
    }
}

/// Orders are answered in turn.
pub proof fn lemma_answers_come_in_turn(
    reports: Seq<PlaybackReport>,
    first: Seq<PlaybackOrder>,
    next: Seq<PlaybackOrder>,
    tracks: Seq<Track>,
)
    ensures
        report_misses(reports, first + next, tracks) == report_misses(
            report_misses(reports, first, tracks),
            next,
            tracks,
        ),
        next.len() == 1 ==> report_misses(reports, next, tracks) == report_miss(
            reports,
            next[0],
            tracks,
        ),
    decreases first.len(),
{
    reveal_with_fuel(report_misses, 2);
    if first.len() == 0 {
        assert(first + next =~= next);
    } else {
        let rest = first.subrange(1, first.len() as int);
        assert((first + next).subrange(1, (first + next).len() as int) =~= rest + next);
        lemma_answers_come_in_turn(report_miss(reports, first[0], tracks), rest, next, tracks);
    }
}

/// Of several atlas entries of one name the last counts; there is none exactly where no entry
/// has the name.
pub proof fn lemma_last_entry_counts(metas: Seq<AtlasMeta>, action_id: Seq<char>)
    ensures
        match meta_of(metas, action_id) {
            Some(meta) => exists|i: int|
                {
                    &&& 0 <= i < metas.len()
                    &&& meta == #[trigger] metas[i]
                    &&& meta.action_id@ == action_id
                    &&& forall|j: int|
                        i < j < metas.len() ==> (#[trigger] metas[j]).action_id@ != action_id
                },
            None => forall|j: int|
                0 <= j < metas.len() ==> (#[trigger] metas[j]).action_id@ != action_id,
        },
    decreases metas.len(),
{
    if metas.len() > 0 {
        let head = metas.drop_last();
        if metas.last().action_id@ == action_id {
            assert(metas[metas.len() - 1] == metas.last());
        } else {
            lemma_last_entry_counts(head, action_id);
            if let Some(meta) = meta_of(head, action_id) {
                let i = choose|i: int|
                    {
                        &&& 0 <= i < head.len()
                        &&& meta == #[trigger] head[i]
                        &&& meta.action_id@ == action_id
                        &&& forall|j: int|
                            i < j < head.len() ==> (#[trigger] head[j]).action_id@ != action_id
                    };
                assert(metas[i] == meta);
                assert forall|j: int| i < j < metas.len() implies (
                #[trigger] metas[j]).action_id@ != action_id by {
                    if j < head.len() {
                        assert(metas[j] == head[j]);
                    }
                }
            } else {
                assert forall|j: int| 0 <= j < metas.len() implies (
                #[trigger] metas[j]).action_id@ != action_id by {
                    if j < head.len() {
                        assert(metas[j] == head[j]);
                    }
                }
            }
        }
    }
}

/// What can be played is what holds a frame, in the order of the atlas.
pub proof fn lemma_playable_holds_frames(metas: Seq<AtlasMeta>, held: spec_fn(AtlasMeta) -> bool)
    requires
        forall|meta: AtlasMeta| #[trigger] held(meta) <==> meta.frame_count > 0,
    ensures
        playable(metas) == metas.filter(held),
    decreases metas.len(),
{
    reveal(Seq::filter);
    if metas.len() > 0 {
        lemma_playable_holds_frames(metas.drop_last(), held);
    }
}

/// Without an action list everything with frames rotates: at six frames a second, looping,
/// facing either way, for two seconds each.
pub proof fn lemma_fallback_shows_everything(
    items: Seq<PlayItem>,
    metas: Seq<AtlasMeta>,
    i: int,
    k: int,
)
    requires
        from_atlas(items, metas),
        0 <= i < items.len(),
        0 <= k < metas.len(),
    ensures
        items[i].fps == 6,
        items[i].dwell_ms == 2_000,
        items[i].looping && items[i].mirror,
        items[i].frame_count > 0,
        exists|j: int|
            0 <= j < metas.len() && items[i].action_id == (#[trigger] metas[j]).action_id
                && items[i].frame_count == metas[j].frame_count,
        metas[k].frame_count > 0 ==> exists|j: int|
            0 <= j < items.len() && (#[trigger] items[j]).action_id == metas[k].action_id,
{
    let keeps = |meta: AtlasMeta| meta.frame_count > 0;
    lemma_playable_holds_frames(metas, keeps);
    let kept = playable(metas);
    assert(kept == metas.filter(keeps));
    metas.lemma_filter_pred(keeps, i);
    assert(kept.contains(kept[i]));
    metas.lemma_filter_contains_rev(keeps, kept[i]);
    if metas[k].frame_count > 0 {
        metas.lemma_filter_contains(keeps, k);
        let j = choose|j: int| 0 <= j < kept.len() && kept[j] == metas[k];
        assert(items[j].action_id == metas[k].action_id);
    }
    assert(items[i].frame_count == kept[i].frame_count);
}

/// The end of an ordered action is reported under its own name, behind all other reports;
/// nothing is reported while it plays, nor in the rotation.
pub proof fn lemma_ends_are_reported(
    player: Player,
    reports: Seq<PlaybackReport>,
    tracks: Seq<Track>,
    now: u64,
)
    ensures
        ({
            let after = player.reported(reports, tracks, now);
            let over = player.over matches Some(over) && {
                let track = tracks[over.index as int];
                !track.looping && (track.segment_ms == 0 || now >= over.start_ms
                    + track.segment_ms)
            };
            &&& !over ==> after == reports
            &&& over ==> after.len() > 0 && after.last() == (PlaybackReport::Finished {
                action_id: tracks[player.over->0.index as int].action_id,
            })
            &&& over && reports.len() < 16 ==> after.drop_last() == reports
        }),
{
    let after = player.reported(reports, tracks, now);
    if player.shown(tracks, now).1 == TickOutput::Finished && reports.len() < 16 {
        assert(after.drop_last() =~= reports);
    }
}

/// A frame that is shown names the picture, the grid and the size of its atlas, itself, and the
/// rate; it is opaque unless an opacity is set. It lies on the grid exactly where its number is
/// below the number of places.
pub proof fn lemma_shown_frames_lie_on_their_atlas(
    cmd: RenderFrameCmd,
    meta: AtlasMeta,
    frame: PlayerFrame,
    tier_fps: u32,
    alpha: Option<Scalar>,
)
    requires
        shows(cmd, meta, frame, tier_fps, alpha),
        meta.frame_w > 0,
        meta.frame_h > 0,
    ensures
        cmd.on_grid() <==> frame.frame_index < meta.columns * meta.rows,
        cmd.atlas_png == meta.png,
        cmd.action_id == frame.action_id,
        cmd.frame_w == meta.frame_w && cmd.frame_h == meta.frame_h,
        cmd.mirror == frame.mirror && cmd.fps == tier_fps,
        alpha is None ==> cmd.alpha.bits == 0x3f80_0000,
        alpha is Some ==> Some(cmd.alpha) == alpha,
{
    crate::bridge::frame::lemma_grid_has_room_for_its_frames(cmd);
}

/// The action list decides alone where there is one: an empty one leaves nothing to rotate,
/// whatever the atlas holds. Without one, everything in the atlas that holds a frame rotates.
pub proof fn lemma_action_list_decides(
    r: Option<Vec<PlayItem>>,
    listed: Option<Vec<PlayItem>>,
    metas: Seq<AtlasMeta>,
)
    requires
        rotates(r, listed, metas),
    ensures
        r matches Some(items) ==> items@.len() > 0,
        listed matches Some(items) ==> (r is Some <==> items@.len() > 0) && (r is Some ==> r
            == listed),
        listed is None ==> (r is Some <==> exists|i: int|
            0 <= i < metas.len() && (#[trigger] metas[i]).frame_count > 0),
{
    let held = |meta: AtlasMeta| meta.frame_count > 0;
    lemma_playable_holds_frames(metas, held);
    if playable(metas).len() > 0 {
        metas.lemma_filter_pred(held, 0);
        assert(playable(metas).contains(playable(metas)[0]));
        metas.lemma_filter_contains_rev(held, playable(metas)[0]);
        let i = choose|i: int| 0 <= i < metas.len() && metas[i] == playable(metas)[0];
        assert(metas[i].frame_count > 0);
    }
    if exists|i: int| 0 <= i < metas.len() && (#[trigger] metas[i]).frame_count > 0 {
        let i = choose|i: int| 0 <= i < metas.len() && (#[trigger] metas[i]).frame_count > 0;
        metas.lemma_filter_contains(held, i);
    }
}

} // verus!
