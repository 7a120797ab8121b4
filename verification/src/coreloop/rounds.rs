//! The rounds of the core loop: which tiers a round serves, when the window is moved,
//! what gestures lead to.

use crate::bridge::frame::{particle_cmd, ParticleCmd, ParticleKind};
use crate::coreloop::effects::FX_DUST_BURST_COUNT;
use crate::coreloop::kinds::{AudioCue, InteractionKind, Point};
use crate::coreloop::schedule::{
    render_interval_for, ScheduleGrid, TiersFired, BIZ_INTERVAL_MS, LOGIC_INTERVAL_MS,
    RENDER_DEFAULT_INTERVAL_MS,
};
use crate::coreloop::state::{CoreLoopState, Phase};
use crate::scalar::Scalar;
use vstd::prelude::*;

verus! {

/// What a round of the core loop serves, in the order logic, render, business.
#[derive(Clone, Copy, Debug, PartialEq, Eq, Structural)]
pub struct RoundPlan {
    /// The tiers that are due.
    pub fired: TiersFired,
    /// The tiers that are served for the first time.
    pub first: TiersFired,
}

/// The rounds of the core loop.
#[derive(Clone, Copy, Debug)]
pub struct LoopRounds {
    grid: ScheduleGrid,
    seen: TiersFired,
    placed: bool,
}

impl LoopRounds {
    /// The deadlines.
    pub closed spec fn deadlines(self) -> ScheduleGrid {
        self.grid
    }

    /// The tiers that were served already.
    pub closed spec fn served(self) -> TiersFired {
        self.seen
    }

    /// Whether the window was put to its place already.
    pub closed spec fn window_placed(self) -> bool {
        self.placed
    }

    pub open spec fn wf(self) -> bool {
        self.deadlines().wf()
    }

    /// Rounds that start at zero, at the intervals that the application comes with.
    pub fn new() -> (r: Self)
        ensures
            r.wf(),
            r.deadlines().render_step() == RENDER_DEFAULT_INTERVAL_MS,
            r.deadlines().logic_step() == LOGIC_INTERVAL_MS,
            r.deadlines().biz_step() == BIZ_INTERVAL_MS,
            r.deadlines().render_due() == RENDER_DEFAULT_INTERVAL_MS,
            r.deadlines().logic_due() == LOGIC_INTERVAL_MS,
            r.deadlines().biz_due() == BIZ_INTERVAL_MS,
            r.served() == (TiersFired { render: false, logic: false, biz: false }),
            !r.window_placed(),
    {
        LoopRounds {
            grid: ScheduleGrid::new(
                0,
                RENDER_DEFAULT_INTERVAL_MS,
                LOGIC_INTERVAL_MS,
                BIZ_INTERVAL_MS,
            ),
            seen: TiersFired::default(),
            placed: false,
        }
    }

    /// When the next round is due.
    pub fn next_due(&self) -> (r: u64)
        ensures
            r <= self.deadlines().render_due(),
            r <= self.deadlines().logic_due(),
            r <= self.deadlines().biz_due(),
            r == self.deadlines().render_due() || r == self.deadlines().logic_due() || r
                == self.deadlines().biz_due(),
    {
        self.grid.min_deadline()
    }

    /// The tiers that are due now, each moved on to its next deadline.
    pub fn round(&mut self, now_ms: u64) -> (plan: RoundPlan)
        requires
            old(self).wf(),
        ensures
            final(self).wf(),
            final(self).window_placed() == old(self).window_placed(),
            plan.fired.render == (now_ms >= old(self).deadlines().render_due()),
            plan.fired.logic == (now_ms >= old(self).deadlines().logic_due()),
            plan.fired.biz == (now_ms >= old(self).deadlines().biz_due()),
            plan.first == plan.fired.first_after(old(self).served()),
            final(self).served() == plan.fired.with(old(self).served()),
            final(self).deadlines().render_due() == crate::coreloop::schedule::caught_up(
                old(self).deadlines().render_due(),
                now_ms,
                old(self).deadlines().render_step(),
            ),
            final(self).deadlines().logic_due() == crate::coreloop::schedule::caught_up(
                old(self).deadlines().logic_due(),
                now_ms,
                old(self).deadlines().logic_step(),
            ),
            final(self).deadlines().biz_due() == crate::coreloop::schedule::caught_up(
                old(self).deadlines().biz_due(),
                now_ms,
                old(self).deadlines().biz_step(),
            ),
            final(self).deadlines().render_step() == old(self).deadlines().render_step(),
            final(self).deadlines().logic_step() == old(self).deadlines().logic_step(),
            final(self).deadlines().biz_step() == old(self).deadlines().biz_step(),
    {
        let fired: TiersFired = self.grid.advance(now_ms);
        let first: TiersFired = TiersFired {
            render: fired.render && !self.seen.render,
            logic: fired.logic && !self.seen.logic,
            biz: fired.biz && !self.seen.biz,
        };
        self.seen =
            TiersFired {
                render: fired.render || self.seen.render,
                logic: fired.logic || self.seen.logic,
                biz: fired.biz || self.seen.biz,
            };
        RoundPlan { fired, first }
    }

    /// Follows the rate of the frame player; a change starts the render grid at now.
    pub fn follow_rate(&mut self, fps: Option<u32>, now_ms: u64)
        requires
            old(self).wf(),
        ensures
            final(self).wf(),
            final(self).served() == old(self).served(),
            final(self).window_placed() == old(self).window_placed(),
            final(self).deadlines().logic_due() == old(self).deadlines().logic_due(),
            final(self).deadlines().biz_due() == old(self).deadlines().biz_due(),
            final(self).deadlines().logic_step() == old(self).deadlines().logic_step(),
            final(self).deadlines().biz_step() == old(self).deadlines().biz_step(),
            final(self).deadlines().render_step() == rate_interval(fps),
            final(self).deadlines().render_due() == crate::coreloop::schedule::rescheduled(
                old(self).deadlines().render_due(),
                old(self).deadlines().render_step(),
                rate_interval(fps),
                now_ms,
            ),
    {
        let interval: u64 = render_interval_for(fps);
        self.grid.set_render_interval(interval, now_ms);
    }

    /// The window has to be moved.
    pub open spec fn window_due(self, moved: bool) -> bool {
        moved || !self.window_placed()
    }

    /// Whether the window has to be moved: the pet has moved, or the window was never
    /// put to its place.
    pub fn moves_window(&self, moved: bool) -> (r: bool)
        ensures
            r == self.window_due(moved),
    {
        moved || !self.placed
    }

    /// Notes whether the window could be moved; a failure leaves a first placing to do.
    pub fn window_moved(&mut self, ok: bool)
        ensures
            final(self).window_placed() == (old(self).window_placed() || ok),
            final(self).deadlines() == old(self).deadlines(),
            final(self).served() == old(self).served(),
    {
        if ok {
            self.placed = true;
        }
    }
}

/// The interval of the render tier at a rate, at least one millisecond.
pub open spec fn rate_interval(fps: Option<u32>) -> int {
    let share = crate::coreloop::schedule::share_of_second(fps);
    if share == 0 {
        1
    } else {
        share
    }
}

/// What a gesture does to the pet's movement.
#[derive(Clone, Copy, Debug, PartialEq, Eq, Structural)]
pub enum IntentStep {
    /// Drag it from here.
    BeginDrag { from: Point },
    /// Throw it.
    Throw,
    Nothing,
}

impl CoreLoopState {
    /// What a gesture does to the pet's movement.
    pub open spec fn intended(self, kind: InteractionKind) -> IntentStep {
        match kind {
            InteractionKind::DragStart => IntentStep::BeginDrag {
                from: match self.cursor {
                    Some(p) => p,
                    None => self.pos,
                },
            },
            InteractionKind::Throw => IntentStep::Throw,
            _ => IntentStep::Nothing,
        }
    }

    /// What a gesture does to the pet's movement: a drag starts at the cursor, or where
    /// the pet is while the cursor was not seen yet.
    pub fn intent_step(&self, kind: InteractionKind) -> (r: IntentStep)
        ensures
            r == self.intended(kind),
    {
        match kind {
            InteractionKind::DragStart => IntentStep::BeginDrag {
                from: match self.cursor {
                    Some(p) => p,
                    None => self.pos,
                },
            },
            InteractionKind::Throw => IntentStep::Throw,
            _ => IntentStep::Nothing,
        }
    }

    /// While the pet is dragged it follows the cursor that was seen last.
    pub fn follow_cursor(&mut self)
        requires
            old(self).wf(),
        ensures
            final(self).wf(),
            *final(self) == match old(self).cursor {
                Some(cursor) => old(self).drawn_to(cursor),
                None => *old(self),
            },
    {
        if let Some(p) = self.cursor {
            self.drag_to(p);
        }
    }
}

/// What a landed throw sets off: dust and a thud. Any other round sets off nothing.
pub fn landing_effects(landed_thrown: bool) -> (r: Option<(ParticleCmd, AudioCue)>)
    ensures
        r is Some <==> landed_thrown,
        r matches Some((cmd, cue)) ==> {
            &&& cmd.version == crate::bridge::frame::PARTICLE_CMD_VERSION
            &&& cmd.kind == ParticleKind::Dust
            &&& cmd.count == FX_DUST_BURST_COUNT
            &&& cue == AudioCue::MoveLand
        },
{
    if landed_thrown {
        Some((particle_cmd(ParticleKind::Dust, FX_DUST_BURST_COUNT), AudioCue::MoveLand))
    } else {
        None
    }
}

/// How loading the save went.
#[derive(Clone, Copy, Debug, PartialEq, Eq, Structural)]
pub enum LoadStatus {
    Fresh,
    Loaded,
    RecoveredFromBak,
    IsolatedCorrupt,
    IsolatedFuture,
    MigrationPending,
}

/// The word for how loading the save went.
pub open spec fn state_word(status: LoadStatus) -> Seq<char> {
    match status {
        LoadStatus::Fresh => "fresh"@,
        LoadStatus::Loaded => "loaded"@,
        LoadStatus::RecoveredFromBak => "recoveredFromBak"@,
        LoadStatus::IsolatedCorrupt => "isolatedCorrupt"@,
        LoadStatus::IsolatedFuture => "isolatedFuture"@,
        LoadStatus::MigrationPending => "migrationPending"@,
    }
}

/// The word for how loading the save went.
pub fn save_state_key(status: LoadStatus) -> (r: String)
    ensures
        r@ == state_word(status),
{
    match status {
        LoadStatus::Fresh => "fresh".to_owned(),
        LoadStatus::Loaded => "loaded".to_owned(),
        LoadStatus::RecoveredFromBak => "recoveredFromBak".to_owned(),
        LoadStatus::IsolatedCorrupt => "isolatedCorrupt".to_owned(),
        LoadStatus::IsolatedFuture => "isolatedFuture".to_owned(),
        LoadStatus::MigrationPending => "migrationPending".to_owned(),
    }
}

/// The mood level at which a pet out of reach stops getting crosser.
pub open spec fn floor_of(configured: u32) -> u8 {
    if configured <= 255 {
        configured as u8
    } else {
        4
    }
}

/// The mood level at which a pet out of reach stops getting crosser: the configured
/// one, or four where that is no byte.
pub fn unreachable_floor(configured: u32) -> (r: u8)
    ensures
        r == floor_of(configured),
{
    if configured <= 255 {
        configured as u8
    } else {
        4
    }
}

/// How the configuration treats a pet that cannot be reached.
#[derive(Clone, Copy, Debug, PartialEq, Eq, Structural)]
pub struct InteractionCfg {
    /// How much of a user's presence counts while the pet is out of reach.
    pub unavailable_presence_factor: Scalar,
    pub tray_fallback_enabled: bool,
    /// The mood level at which it stops getting crosser.
    pub unreachable_natural_floor_level: u32,
    pub unreachable_hold_sec: u64,
    pub unreachable_no_negative_sec: u64,
}

/// How the mood treats a pet that cannot be reached.
#[derive(Clone, Copy, Debug, PartialEq, Eq, Structural)]
pub struct InteractionPolicy {
    /// The pet can be reached; every round says so anew.
    pub available: bool,
    pub unavailable_presence_factor: Scalar,
    pub tray_fallback_enabled: bool,
    pub unreachable_floor_level: u8,
    pub unreachable_hold_sec: u64,
    pub unreachable_no_negative_sec: u64,
}

/// How the mood treats a pet that cannot be reached, as it is configured.
pub fn interaction_policy_of(cfg: &InteractionCfg) -> (r: InteractionPolicy)
    ensures
        r.available,
        r.unavailable_presence_factor == cfg.unavailable_presence_factor,
        r.tray_fallback_enabled == cfg.tray_fallback_enabled,
        r.unreachable_floor_level == floor_of(cfg.unreachable_natural_floor_level),
        r.unreachable_hold_sec == cfg.unreachable_hold_sec,
        r.unreachable_no_negative_sec == cfg.unreachable_no_negative_sec,
{
    InteractionPolicy {
        available: true,
        unavailable_presence_factor: cfg.unavailable_presence_factor,
        tray_fallback_enabled: cfg.tray_fallback_enabled,
        unreachable_floor_level: unreachable_floor(cfg.unreachable_natural_floor_level),
        unreachable_hold_sec: cfg.unreachable_hold_sec,
        unreachable_no_negative_sec: cfg.unreachable_no_negative_sec,
    }
}

/// Whether the engines go on from the save: there is one, and a round was kept in it.
/// Otherwise they start anew, because the time since 1970 is no time away.
pub fn restores(has_save: bool, has_anchor: bool) -> (r: bool)
    ensures
        r == (has_save && has_anchor),
{
    has_save && has_anchor
}

/// Only two gestures move the pet: a drag takes hold of it where the cursor is, or where the
/// pet is while no cursor was seen, and a throw throws it.
pub proof fn lemma_gestures_that_move(state: CoreLoopState, kind: InteractionKind)
    ensures
        state.intended(kind) is BeginDrag <==> kind == InteractionKind::DragStart,
        state.intended(kind) is Throw <==> kind == InteractionKind::Throw,
        state.intended(kind) matches IntentStep::BeginDrag { from } ==> {
            &&& state.cursor is Some ==> state.cursor == Some(from)
            &&& state.cursor is None ==> from == state.pos
        },
{
}

/// The window is moved with the pet, and once in any case; where it stands already, a pet that
/// stays leaves it there.
pub proof fn lemma_window_follows_the_pet(rounds: LoopRounds, moved: bool)
    ensures
        rounds.window_due(true),
        !rounds.window_placed() ==> rounds.window_due(moved),
        rounds.window_placed() ==> (rounds.window_due(moved) <==> moved),
{
}

/// The render tier keeps the rate: as many intervals as there are frames fit in a second, and
/// no longer interval would. Rates beyond a frame a millisecond get the shortest interval,
/// a rate of nothing gets a second, and no rate gets sixteen milliseconds.
pub proof fn lemma_intervals_keep_the_rate(fps: u32)
    ensures
        1 <= fps <= 1000 ==> {
            &&& rate_interval(Some(fps)) * fps <= 1000
            &&& (rate_interval(Some(fps)) + 1) * fps > 1000
        },
        fps > 1000 ==> rate_interval(Some(fps)) == 1,
        rate_interval(Some(0)) == 1000,
        rate_interval(None) == 16,
{
    if fps >= 1 {
        let (n, q) = (fps as int, 1000int / fps as int);
        assert(q * n <= 1000 && (q + 1) * n > 1000 && q >= 0) by (nonlinear_arith)
            requires
                n >= 1,
                q == 1000int / n,
        ;
        if fps <= 1000 {
            assert(q >= 1) by (nonlinear_arith)
                requires
                    1 <= n <= 1000,
                    (q + 1) * n > 1000,
            ;
        } else {
            assert(q == 0) by (nonlinear_arith)
                requires
                    n > 1000,
                    q >= 0,
                    q * n <= 1000,
            ;
        }
    }
}

/// A configured level is taken as it is where it is a byte; any other counts as four.
pub proof fn lemma_floor_is_the_configured_one(configured: u32)
    ensures
        configured <= 255 ==> floor_of(configured) == configured,
        configured > 255 ==> floor_of(configured) == 4,
{
}

/// Each way that loading can go has its own word.
pub proof fn lemma_load_words_differ(a: LoadStatus, b: LoadStatus)
    ensures
        state_word(a) == state_word(b) ==> a == b,
        state_word(LoadStatus::Fresh) == "fresh"@,
        state_word(LoadStatus::Loaded) == "loaded"@,
        state_word(LoadStatus::RecoveredFromBak) == "recoveredFromBak"@,
        state_word(LoadStatus::IsolatedCorrupt) == "isolatedCorrupt"@,
        state_word(LoadStatus::IsolatedFuture) == "isolatedFuture"@,
        state_word(LoadStatus::MigrationPending) == "migrationPending"@,
{
    reveal_strlit("fresh");
    reveal_strlit("loaded");
    reveal_strlit("recoveredFromBak");
    reveal_strlit("isolatedCorrupt");
    reveal_strlit("isolatedFuture");
    reveal_strlit("migrationPending");
    assert("recoveredFromBak"@[0] == 'r' && "migrationPending"@[0] == 'm');
    assert("fresh"@.len() == 5 && "loaded"@.len() == 6 && "recoveredFromBak"@.len() == 16);
    assert("isolatedCorrupt"@.len() == 15 && "isolatedFuture"@.len() == 14);
    assert("migrationPending"@.len() == 16);
}

} // verus!
