//! The state of the core loop: where the pet is, whether it roams, falls or is
//! dragged, and which switches are set.
//!
//! Three phases, one rule each: while it roams the wandering engine moves it, while
//! it falls the physics engine does, while it is dragged it follows the cursor. The
//! engines run outside; a round asks which one to run and takes its result.

use crate::coreloop::kinds::{DragBounds, Point, RecallKind, TrayIconState};
use crate::coreloop::seed::advance_seed;
use crate::scalar::Scalar;
use vstd::prelude::*;

verus! {

/// What moves the pet.
#[derive(Clone, Copy, Debug, PartialEq, Eq, Structural)]
pub enum Phase {
    /// It wanders about.
    Roam,
    /// It falls or flies.
    Fall,
    /// It hangs at the cursor.
    Drag,
}

/// The state of the core loop.
#[derive(Clone, Copy, Debug, PartialEq, Eq, Structural)]
pub struct CoreLoopState {
    /// Where the pet is.
    pub pos: Point,
    pub phase: Phase,
    /// The seed of the next wandering.
    pub seed_k: u64,
    /// Where the cursor was seen last.
    pub cursor: Option<Point>,
    /// Where the pet is dragged to.
    pub drag_cursor: Option<Point>,
    /// The fall began with a throw.
    pub thrown_flight: bool,
    /// How many throws have landed.
    pub throw_landed_count: u64,
    /// When the last logic round ran.
    pub last_logic_ms: u64,
    /// For how long the user has been idle, where it is known.
    pub presence_idle_ms: Option<u64>,
    /// The pet has left home.
    pub runaway_away: bool,
    /// The save should be written at once.
    pub save_requested: bool,
    /// Do not disturb.
    pub dnd: bool,
    /// Do-not-disturb silences bubbles.
    pub dnd_pause_bubbles: bool,
    /// Senses how busy the user is.
    pub activity_sensing: bool,
    /// Clicks pass through the pet.
    pub click_through: bool,
    /// The icon that the tray shows.
    pub tray_state: Option<TrayIconState>,
    /// The tray offers to call the pet home.
    pub tray_left_home: bool,
    /// Walks about unasked.
    pub auto_roam: bool,
    /// Why the pet comes back from an activity, where the user called it.
    pub pending_recall: Option<RecallKind>,
    /// What interactions have added to the mood since it was last fed in.
    pub pending_mood: Scalar,
}

/// Which engine a round runs.
#[derive(Clone, Copy, Debug, PartialEq, Eq, Structural)]
pub enum EngineRun {
    /// The wandering engine, with this cursor.
    Roam { cursor: Option<Point> },
    /// The physics engine; a new one falls from `start`.
    Fall { start: Option<Point> },
    /// None: the pet follows the cursor.
    Drag,
}

/// What ends a round.
#[derive(Clone, Copy, Debug, PartialEq, Eq, Structural)]
pub enum RoundEnd {
    /// The pet goes on as it was.
    Continue,
    /// The pet has landed: a new wandering starts at `at` with `seed`.
    Landed { at: Point, seed: u64, thrown: bool },
}

/// What a drag leads to.
#[derive(Clone, Copy, Debug, PartialEq, Eq, Structural)]
pub enum DragStart {
    /// It went on already.
    Follow,
    /// The tumbling action plays already; show it again.
    ReplayToss,
    /// Ask for the tumbling action.
    SubmitToss,
}

/// What letting go leads to.
#[derive(Clone, Copy, Debug, PartialEq, Eq, Structural)]
pub enum Release {
    /// Nothing was dragged.
    Nothing,
    /// A new wandering starts at `at` with `seed`.
    Land { at: Point, seed: u64 },
    /// The pet falls from `at`.
    Fall { at: Point },
    /// The pet is thrown from `at`. A looping action is stopped; the tumbling action
    /// is asked for where it does not play.
    Throw { at: Point, stop_looping: bool, submit_toss: bool },
}

impl CoreLoopState {
    /// A throw is in flight only while falling, and a drag has a cursor only while
    /// dragging.
    pub open spec fn wf(self) -> bool {
        &&& self.thrown_flight ==> self.phase == Phase::Fall
        &&& self.drag_cursor is Some ==> self.phase == Phase::Drag
    }

    /// Where a drag to `cursor` leads: into the bounds, or nowhere for a cursor that
    /// is not finite.
    pub open spec fn drag_target(self, cursor: Point, bounds: DragBounds) -> Point {
        if cursor.finite() {
            bounds.nearest(cursor)
        } else {
            self.pos
        }
    }

    /// Where the pet would be let go.
    pub open spec fn release_at(self) -> Point {
        match self.drag_cursor {
            Some(p) => if self.phase == Phase::Drag {
                p
            } else {
                self.pos
            },
            None => self.pos,
        }
    }

    /// The state after a round has begun.
    pub open spec fn begun(self, now_ms: u64, on_surface: bool) -> CoreLoopState {
        CoreLoopState {
            last_logic_ms: now_ms,
            phase: if self.phase == Phase::Roam && !on_surface {
                Phase::Fall
            } else {
                self.phase
            },
            ..self
        }
    }

    /// Which engine a round runs.
    pub open spec fn engine_run(self, on_surface: bool) -> EngineRun {
        match self.phase {
            Phase::Roam => if on_surface {
                EngineRun::Roam { cursor: self.cursor }
            } else {
                EngineRun::Fall { start: Some(self.pos) }
            },
            Phase::Fall => EngineRun::Fall { start: None },
            Phase::Drag => EngineRun::Drag,
        }
    }

    /// The state after a round has ended.
    pub open spec fn ended(
        self,
        now_ms: u64,
        engine_pos: Point,
        landed: bool,
        bounds: DragBounds,
    ) -> CoreLoopState {
        if self.phase == Phase::Drag {
            CoreLoopState { pos: self.drag_target(self.release_at(), bounds), ..self }
        } else if !landed {
            CoreLoopState { pos: engine_pos, ..self }
        } else {
            CoreLoopState {
                pos: engine_pos,
                phase: Phase::Roam,
                seed_k: crate::coreloop::seed::next_seed(self.seed_k, now_ms) as u64,
                thrown_flight: false,
                throw_landed_count: if self.thrown_flight {
                    crate::queue::next_count(self.throw_landed_count)
                } else {
                    self.throw_landed_count
                },
                ..self
            }
        }
    }

    /// What ends a round.
    pub open spec fn end(self, now_ms: u64, engine_pos: Point, landed: bool) -> RoundEnd {
        if self.phase != Phase::Drag && landed {
            RoundEnd::Landed {
                at: engine_pos,
                seed: crate::coreloop::seed::next_seed(self.seed_k, now_ms) as u64,
                thrown: self.thrown_flight,
            }
        } else {
            RoundEnd::Continue
        }
    }

    /// The state once the pet is dragged.
    pub open spec fn dragged(self, cursor: Point, bounds: DragBounds) -> CoreLoopState {
        CoreLoopState {
            phase: Phase::Drag,
            thrown_flight: false,
            drag_cursor: Some(self.drag_target(cursor, bounds)),
            pos: self.drag_target(cursor, bounds),
            ..self
        }
    }

    /// What a drag leads to.
    pub open spec fn drag_start(self, toss_is_current: bool) -> DragStart {
        if self.phase == Phase::Drag {
            DragStart::Follow
        } else if toss_is_current {
            DragStart::ReplayToss
        } else {
            DragStart::SubmitToss
        }
    }

    /// The state once the pet is dragged to `cursor`.
    pub open spec fn drawn_to(self, cursor: Point) -> CoreLoopState {
        if self.phase == Phase::Drag {
            CoreLoopState { drag_cursor: Some(cursor), ..self }
        } else {
            self
        }
    }

    /// What letting go leads to.
    pub open spec fn release(
        self,
        thrown: bool,
        landable: bool,
        current_loops: bool,
        toss_is_current: bool,
        now_ms: u64,
    ) -> Release {
        if thrown {
            Release::Throw {
                at: self.release_at(),
                stop_looping: current_loops,
                submit_toss: !toss_is_current,
            }
        } else if self.phase != Phase::Drag {
            Release::Nothing
        } else if landable {
            Release::Land {
                at: self.release_at(),
                seed: crate::coreloop::seed::next_seed(self.seed_k, now_ms) as u64,
            }
        } else {
            Release::Fall { at: self.release_at() }
        }
    }

    /// The state once the pet is let go.
    pub open spec fn released(self, thrown: bool, landable: bool, now_ms: u64) -> CoreLoopState {
        if !thrown && self.phase != Phase::Drag {
            self
        } else {
            CoreLoopState {
                pos: self.release_at(),
                phase: if !thrown && landable {
                    Phase::Roam
                } else {
                    Phase::Fall
                },
                seed_k: if !thrown && landable {
                    crate::coreloop::seed::next_seed(self.seed_k, now_ms) as u64
                } else {
                    self.seed_k
                },
                thrown_flight: thrown,
                drag_cursor: None,
                ..self
            }
        }
    }

    /// The pet at rest at `pos`, with nothing switched on but what the pet comes with.
    pub fn new(pos: Point, seed_k: u64, now_ms: u64) -> (r: Self)
        ensures
            r.wf(),
            r.pos == pos,
            r.phase == Phase::Roam,
            r.seed_k == seed_k,
            r.cursor is None,
            r.drag_cursor is None,
            !r.thrown_flight,
            r.throw_landed_count == 0,
            r.last_logic_ms == now_ms,
            r.presence_idle_ms is None,
            !r.runaway_away,
            !r.save_requested,
            !r.dnd,
            r.dnd_pause_bubbles,
            r.activity_sensing,
            !r.click_through,
            r.tray_state is None,
            !r.tray_left_home,
            r.auto_roam,
            r.pending_recall is None,
            r.pending_mood.bits == 0,
    {
        CoreLoopState {
            pos,
            phase: Phase::Roam,
            seed_k,
            cursor: None,
            drag_cursor: None,
            thrown_flight: false,
            throw_landed_count: 0,
            last_logic_ms: now_ms,
            presence_idle_ms: None,
            runaway_away: false,
            save_requested: false,
            dnd: false,
            dnd_pause_bubbles: true,
            activity_sensing: true,
            click_through: false,
            tray_state: None,
            tray_left_home: false,
            auto_roam: true,
            pending_recall: None,
            pending_mood: Scalar { bits: 0 },
        }
    }

    /// What moves the pet.
    pub fn phase(&self) -> (r: Phase)
        ensures
            r == self.phase,
    {
        self.phase
    }

    /// Where the pet is.
    pub fn pos(&self) -> (r: Point)
        ensures
            r == self.pos,
    {
        self.pos
    }

    /// Where the cursor was seen last.
    pub fn cursor(&self) -> (r: Option<Point>)
        ensures
            r == self.cursor,
    {
        self.cursor
    }

    /// Whether a throw is in flight.
    pub fn thrown_flight(&self) -> (r: bool)
        ensures
            r == self.thrown_flight,
    {
        self.thrown_flight
    }

    /// How many throws have landed.
    pub fn throw_landed_count(&self) -> (r: u64)
        ensures
            r == self.throw_landed_count,
    {
        self.throw_landed_count
    }

    /// Where a drag to `cursor` leads.
    pub fn clamp_drag_target(&self, cursor: Point, bounds: DragBounds) -> (r: Point)
        requires
            bounds.wf(),
        ensures
            r == self.drag_target(cursor, bounds),
    {
        if !cursor.x.is_finite() || !cursor.y.is_finite() {
            return self.pos;
        }
        Point {
            x: cursor.x.clamp_to(bounds.left, bounds.right),
            y: cursor.y.clamp_to(bounds.top, bounds.bottom),
        }
    }

    /// Begins a logic round: a roaming pet whose ground has gone starts to fall.
    /// Exactly one engine runs, and none while the pet is dragged.
    pub fn begin_tick(&mut self, now_ms: u64, on_surface: bool) -> (run: EngineRun)
        requires
            old(self).wf(),
        ensures
            final(self).wf(),
            *final(self) == old(self).begun(now_ms, on_surface),
            run == old(self).engine_run(on_surface),
    {
        self.last_logic_ms = now_ms;
        match self.phase {
            Phase::Roam => {
                if on_surface {
                    EngineRun::Roam { cursor: self.cursor }
                } else {
                    self.phase = Phase::Fall;
                    EngineRun::Fall { start: Some(self.pos) }
                }
            },
            Phase::Fall => EngineRun::Fall { start: None },
            Phase::Drag => EngineRun::Drag,
        }
    }

    /// Ends a logic round. The pet is where the engine put it, or where it is dragged
    /// to. A landing returns it to roaming with the next seed; one that ends a throw
    /// is counted.
    pub fn end_tick(
        &mut self,
        now_ms: u64,
        engine_pos: Point,
        landed: bool,
        bounds: DragBounds,
    ) -> (end: RoundEnd)
        requires
            old(self).wf(),
            bounds.wf(),
        ensures
            final(self).wf(),
            *final(self) == old(self).ended(now_ms, engine_pos, landed, bounds),
            old(self).phase != Phase::Drag ==> final(self).pos == engine_pos,
            end == old(self).end(now_ms, engine_pos, landed),
    {
        match self.phase {
            Phase::Drag => {
                let target: Point = match self.drag_cursor {
                    Some(p) => p,
                    None => self.pos,
                };
                self.pos = self.clamp_drag_target(target, bounds);
                RoundEnd::Continue
            },
            Phase::Roam | Phase::Fall => {
                self.pos = engine_pos;
                if !landed {
                    return RoundEnd::Continue;
                }
                let thrown: bool = self.thrown_flight;
                let seed: u64 = self.reenter_roam(now_ms);
                self.thrown_flight = false;
                if thrown {
                    self.throw_landed_count = self.throw_landed_count.wrapping_add(1);
                }
                RoundEnd::Landed { at: engine_pos, seed, thrown }
            },
        }
    }

    /// Returns to roaming with the next seed.
    fn reenter_roam(&mut self, now_ms: u64) -> (seed: u64)
        ensures
            *final(self) == (CoreLoopState {
                phase: Phase::Roam,
                seed_k: crate::coreloop::seed::next_seed(old(self).seed_k, now_ms) as u64,
                ..*old(self)
            }),
            seed == final(self).seed_k,
    {
        self.seed_k = advance_seed(self.seed_k, now_ms);
        self.phase = Phase::Roam;
        self.seed_k
    }

    /// Takes the place at which the new wandering engine has put the pet.
    pub fn settle_at(&mut self, pos: Point)
        ensures
            *final(self) == (CoreLoopState { pos, ..*old(self) }),
    {
        self.pos = pos;
    }

    /// Begins a drag, or goes on with one. A throw in flight is caught: it will not
    /// land as a throw.
    pub fn begin_drag(
        &mut self,
        cursor: Point,
        bounds: DragBounds,
        toss_is_current: bool,
    ) -> (r: DragStart)
        requires
            old(self).wf(),
            bounds.wf(),
        ensures
            final(self).wf(),
            *final(self) == old(self).dragged(cursor, bounds),
            r == old(self).drag_start(toss_is_current),
    {
        let target: Point = self.clamp_drag_target(cursor, bounds);
        self.drag_cursor = Some(target);
        self.pos = target;
        if let Phase::Drag = self.phase {
            return DragStart::Follow;
        }
        self.phase = Phase::Drag;
        self.thrown_flight = false;
        if toss_is_current {
            DragStart::ReplayToss
        } else {
            DragStart::SubmitToss
        }
    }

    /// Notes where the pet is dragged to; without a drag nothing happens.
    pub fn drag_to(&mut self, cursor: Point)
        requires
            old(self).wf(),
        ensures
            final(self).wf(),
            *final(self) == old(self).drawn_to(cursor),
    {
        if let Phase::Drag = self.phase {
            self.drag_cursor = Some(cursor);
        }
    }

    /// Where the pet would be let go.
    pub fn release_point(&self) -> (r: Point)
        ensures
            r == self.release_at(),
    {
        match self.phase {
            Phase::Drag => match self.drag_cursor {
                Some(p) => p,
                None => self.pos,
            },
            Phase::Roam | Phase::Fall => self.pos,
        }
    }

    /// Lets go of the pet: it is thrown, or put down where it can stand, or dropped.
    /// A throw starts from where the pet is even where nothing was dragged.
    pub fn release_drag(
        &mut self,
        thrown: bool,
        landable: bool,
        current_loops: bool,
        toss_is_current: bool,
        now_ms: u64,
    ) -> (r: Release)
        requires
            old(self).wf(),
        ensures
            final(self).wf(),
            *final(self) == old(self).released(thrown, landable, now_ms),
            r == old(self).release(thrown, landable, current_loops, toss_is_current, now_ms),
    {
        let at: Point = self.release_point();
        let dragged: bool = match self.phase {
            Phase::Drag => true,
            Phase::Roam | Phase::Fall => false,
        };
        if thrown {
            self.drag_cursor = None;
            self.pos = at;
            self.phase = Phase::Fall;
            self.thrown_flight = true;
            return Release::Throw {
                at,
                stop_looping: current_loops,
                submit_toss: !toss_is_current,
            };
        }
        if !dragged {
            return Release::Nothing;
        }
        self.drag_cursor = None;
        self.pos = at;
        self.thrown_flight = false;
        if landable {
            let seed: u64 = self.reenter_roam(now_ms);
            Release::Land { at, seed }
        } else {
            self.phase = Phase::Fall;
            Release::Fall { at }
        }
    }
}

/// A dragged pet stays inside the bounds, whatever finite place the cursor is at.
pub proof fn lemma_drag_stays_inside(state: CoreLoopState, cursor: Point, bounds: DragBounds)
    requires
        bounds.wf(),
        cursor.finite(),
    ensures
        bounds.encloses(state.drag_target(cursor, bounds)),
        bounds.encloses(cursor) ==> state.drag_target(cursor, bounds) == cursor,
{
    crate::scalar::lemma_clamped_in_range(cursor.x, bounds.left, bounds.right);
    crate::scalar::lemma_clamped_in_range(cursor.y, bounds.top, bounds.bottom);
}

/// What a logic round meets: when it runs, whether there is ground under the pet, where
/// the engine puts it and whether it says that it has landed, where a new wandering would
/// put it, and the bounds of a drag.
pub ghost struct Round {
    pub now_ms: u64,
    pub on_surface: bool,
    pub at: Point,
    pub landed: bool,
    pub settled: Point,
    pub bounds: DragBounds,
}

impl CoreLoopState {
    /// What ends a whole round.
    pub open spec fn round_end(self, round: Round) -> RoundEnd {
        self.begun(round.now_ms, round.on_surface).end(round.now_ms, round.at, round.landed)
    }

    /// The state after a whole round; after a landing the new wandering puts the pet in
    /// its place.
    pub open spec fn after_round(self, round: Round) -> CoreLoopState {
        let ended = self.begun(round.now_ms, round.on_surface).ended(
            round.now_ms,
            round.at,
            round.landed,
            round.bounds,
        );
        if self.round_end(round) is Landed {
            CoreLoopState { pos: round.settled, ..ended }
        } else {
            ended
        }
    }

    /// The state after the first `n` of some rounds.
    pub open spec fn after_rounds(self, rounds: Seq<Round>, n: nat) -> CoreLoopState
        decreases n,
    {
        if n == 0 {
            self
        } else {
            self.after_rounds(rounds, (n - 1) as nat).after_round(rounds[n - 1])
        }
    }
}

/// What the arbiter is told at the end of a round.
pub open spec fn told_at(end: RoundEnd) -> Seq<crate::coreloop::effects::ArbiterStep> {
    match end {
        RoundEnd::Landed { thrown, .. } => crate::coreloop::effects::steps_of_landing(thrown),
        RoundEnd::Continue => Seq::empty(),
    }
}

/// A thrown pet flies until the engine says that it has landed. In no round before that
/// one does it land, is anything counted or anything asked of the arbiter; after each of them
/// it is where the engine put it. In that round it lands as thrown, the throw is counted and the steps of a thrown landing are told; the
/// pet then roams from where it was put.
pub proof fn lemma_thrown_pet_lands_when_it_does(
    state: CoreLoopState,
    landable: bool,
    now: u64,
    rounds: Seq<Round>,
    k: nat,
)
    requires
        k < rounds.len(),
        rounds[k as int].landed,
        forall|i: int| 0 <= i < k ==> !(#[trigger] rounds[i]).landed,
    ensures
        ({
            let thrown = state.released(true, landable, now);
            let before = thrown.after_rounds(rounds, k);
            let after = thrown.after_rounds(rounds, k + 1);
            let end = before.round_end(rounds[k as int]);
            &&& end is Landed
            &&& end->thrown
            &&& end->at == rounds[k as int].at
            &&& told_at(end) == crate::coreloop::effects::steps_of_landing(true)
            &&& after.phase == Phase::Roam
            &&& !after.thrown_flight
            &&& after.throw_landed_count == crate::queue::next_count(state.throw_landed_count)
            &&& after.pos == rounds[k as int].settled
        }),
        forall|i: nat|
            i < k ==> {
                let during = #[trigger] state.released(true, landable, now).after_rounds(rounds, i);
                &&& during.round_end(rounds[i as int]) is Continue
                &&& told_at(during.round_end(rounds[i as int])).len() == 0
                &&& during.after_round(rounds[i as int]).pos == rounds[i as int].at
                &&& during.phase == Phase::Fall
                &&& during.thrown_flight
                &&& during.throw_landed_count == state.throw_landed_count
            },
{
    let thrown = state.released(true, landable, now);
    assert forall|i: nat| i < k implies {
        let during = #[trigger] thrown.after_rounds(rounds, i);
        &&& during.round_end(rounds[i as int]) is Continue
        &&& during.phase == Phase::Fall
        &&& during.thrown_flight
        &&& during.throw_landed_count == state.throw_landed_count
    } by {
        lemma_flight_goes_on(thrown, rounds, i);
    }
    lemma_flight_goes_on(thrown, rounds, k);
}

/// Without a landing a flight stays one.
proof fn lemma_flight_goes_on(thrown: CoreLoopState, rounds: Seq<Round>, n: nat)
    requires
        thrown.phase == Phase::Fall,
        thrown.thrown_flight,
        n <= rounds.len(),
        forall|i: int| 0 <= i < n ==> !(#[trigger] rounds[i]).landed,
    ensures
        ({
            let during = thrown.after_rounds(rounds, n);
            &&& during.phase == Phase::Fall
            &&& during.thrown_flight
            &&& during.throw_landed_count == thrown.throw_landed_count
        }),
    decreases n,
{
    if n > 0 {
        lemma_flight_goes_on(thrown, rounds, (n - 1) as nat);
        assert(!rounds[n - 1].landed);
    }
}

/// A throw counts once: after the landing no round counts it again, however often the pet
/// falls and lands before it is thrown anew.
pub proof fn lemma_landing_counts_once(state: CoreLoopState, rounds: Seq<Round>, n: nat)
    requires
        !state.thrown_flight,
        n <= rounds.len(),
    ensures
        !state.after_rounds(rounds, n).thrown_flight,
        state.after_rounds(rounds, n).throw_landed_count == state.throw_landed_count,
        forall|i: nat|
            i < n ==> !((#[trigger] state.after_rounds(rounds, i)).round_end(
                rounds[i as int],
            ) matches RoundEnd::Landed { thrown, .. } && thrown),
    decreases n,
{
    if n > 0 {
        lemma_landing_counts_once(state, rounds, (n - 1) as nat);
    }
}

/// A throw that is caught in flight and put down, or dropped, does not land as a throw.
pub proof fn lemma_caught_throw_is_void(
    state: CoreLoopState,
    cursor: Point,
    bounds: DragBounds,
    landable: bool,
    at: Point,
    now: u64,
)
    ensures
        !state.dragged(cursor, bounds).thrown_flight,
        !state.dragged(cursor, bounds).released(false, landable, now).thrown_flight,
        state.dragged(cursor, bounds).released(false, landable, now).ended(
            now,
            at,
            true,
            bounds,
        ).throw_landed_count == state.throw_landed_count,
{
}

/// Every step keeps a state in order.
pub proof fn lemma_steps_keep_order(
    state: CoreLoopState,
    now: u64,
    on_surface: bool,
    at: Point,
    landed: bool,
    cursor: Point,
    bounds: DragBounds,
    thrown: bool,
    landable: bool,
)
    requires
        state.wf(),
    ensures
        state.begun(now, on_surface).wf(),
        state.ended(now, at, landed, bounds).wf(),
        state.dragged(cursor, bounds).wf(),
        state.released(thrown, landable, now).wf(),
{
}

/// A pet that nobody drags is where the engine put it, in every round, whether it lands or not.
/// A round without a landing changes nothing else. A landing makes it roam on with another
/// seed; it ends a throw, and then counts it, and counts nothing otherwise.
pub proof fn lemma_engine_moves_the_pet(
    state: CoreLoopState,
    now: u64,
    at: Point,
    landed: bool,
    bounds: DragBounds,
)
    requires
        state.phase != Phase::Drag,
    ensures
        ({
            let after = state.ended(now, at, landed, bounds);
            &&& after.pos == at
            &&& !landed ==> CoreLoopState { pos: state.pos, ..after } == state
            &&& landed ==> after.phase == Phase::Roam && !after.thrown_flight
            &&& landed && state.thrown_flight && state.throw_landed_count < u64::MAX
                ==> after.throw_landed_count == state.throw_landed_count + 1
            &&& !(landed && state.thrown_flight) ==> after.throw_landed_count
                == state.throw_landed_count
            &&& CoreLoopState {
                pos: state.pos,
                phase: state.phase,
                seed_k: state.seed_k,
                thrown_flight: state.thrown_flight,
                throw_landed_count: state.throw_landed_count,
                ..after
            } == state
            &&& state.end(now, at, landed) is Landed <==> landed
            &&& state.end(now, at, landed) matches RoundEnd::Landed { at: place, seed, thrown }
                ==> place == at && seed == after.seed_k && thrown == state.thrown_flight
        }),
{
}

/// A dragged pet is where the cursor drew it, inside the bounds, whatever the engines say; it
/// does not land, and nothing else changes.
pub proof fn lemma_cursor_moves_a_dragged_pet(
    state: CoreLoopState,
    now: u64,
    later: u64,
    at: Point,
    elsewhere: Point,
    landed: bool,
    bounds: DragBounds,
    cursor: Point,
)
    requires
        state.phase == Phase::Drag,
        state.drag_cursor == Some(cursor),
        bounds.wf(),
    ensures
        ({
            let after = state.ended(now, at, landed, bounds);
            &&& after == state.ended(later, elsewhere, !landed, bounds)
            &&& cursor.finite() ==> bounds.encloses(after.pos)
            &&& cursor.finite() && bounds.encloses(cursor) ==> after.pos == cursor
            &&& !cursor.finite() ==> after.pos == state.pos
            &&& CoreLoopState { pos: state.pos, ..after } == state
            &&& state.end(now, at, landed) is Continue
        }),
{
    if cursor.finite() {
        lemma_drag_stays_inside(state, cursor, bounds);
    }
}

/// Exactly one engine runs in a round: the wandering one, with the last cursor, for a roaming
/// pet with ground under it; the physics for one that falls, started anew exactly where a
/// roaming pet has lost its ground; and none for a dragged one. Beginning a round notes its
/// time, and makes a pet fall exactly where the ground has gone from under it.
pub proof fn lemma_one_engine_runs(state: CoreLoopState, now: u64, on_surface: bool)
    ensures
        ({
            let run = state.engine_run(on_surface);
            let after = state.begun(now, on_surface);
            &&& run is Roam <==> state.phase == Phase::Roam && on_surface
            &&& run is Drag <==> state.phase == Phase::Drag
            &&& run matches EngineRun::Roam { cursor } ==> cursor == state.cursor
            &&& run matches EngineRun::Fall { start } ==> {
                &&& start is Some <==> state.phase == Phase::Roam
                &&& start is Some ==> start == Some(state.pos)
            }
            &&& after.phase == Phase::Roam <==> run is Roam
            &&& after.phase == Phase::Drag <==> run is Drag
            &&& after.last_logic_ms == now
            &&& CoreLoopState {
                phase: state.phase,
                last_logic_ms: state.last_logic_ms,
                ..after
            } == state
        }),
{
}

/// A drag takes the pet to the cursor, inside the bounds, and ends a flight. The tumbling is
/// asked for where it does not play, shown again where it does, and left alone where the drag
/// goes on. While it goes on, the last place of the cursor counts; without a drag none does.
pub proof fn lemma_drag_takes_hold(
    state: CoreLoopState,
    cursor: Point,
    next: Point,
    bounds: DragBounds,
    toss: bool,
)
    requires
        bounds.wf(),
        cursor.finite(),
    ensures
        ({
            let after = state.dragged(cursor, bounds);
            &&& after.phase == Phase::Drag
            &&& bounds.encloses(after.pos)
            &&& bounds.encloses(cursor) ==> after.pos == cursor
            &&& after.drag_cursor == Some(after.pos)
            &&& !after.thrown_flight
            &&& CoreLoopState {
                pos: state.pos,
                phase: state.phase,
                drag_cursor: state.drag_cursor,
                thrown_flight: state.thrown_flight,
                ..after
            } == state
            &&& after.drawn_to(next).release_at() == next
            &&& CoreLoopState { drag_cursor: after.drag_cursor, ..after.drawn_to(next) } == after
            &&& state.phase != Phase::Drag ==> state.drawn_to(next) == state
            &&& state.drag_start(toss) == DragStart::Follow <==> state.phase == Phase::Drag
            &&& state.drag_start(toss) == DragStart::SubmitToss <==> state.phase != Phase::Drag
                && !toss
            &&& state.drag_start(toss) == DragStart::ReplayToss <==> state.phase != Phase::Drag
                && toss
        }),
{
    lemma_drag_stays_inside(state, cursor, bounds);
}

/// Letting go: a throw flies from where the pet is, whether or not it was dragged; otherwise a
/// dragged pet roams on where it can stand and falls where it cannot, and without a drag
/// nothing happens. No drag is left, and only a throw is a flight. A throw stops what loops and
/// asks for the tumbling where it does not play.
pub proof fn lemma_letting_go(
    state: CoreLoopState,
    thrown: bool,
    landable: bool,
    loops: bool,
    toss: bool,
    now: u64,
)
    requires
        state.wf(),
    ensures
        ({
            let after = state.released(thrown, landable, now);
            let release = state.release(thrown, landable, loops, toss, now);
            let at = if state.phase == Phase::Drag && state.drag_cursor is Some {
                state.drag_cursor->0
            } else {
                state.pos
            };
            let held = state.phase == Phase::Drag;
            &&& release is Nothing <==> !thrown && !held
            &&& release is Nothing ==> after == state
            &&& release is Land <==> !thrown && held && landable
            &&& release is Fall <==> !thrown && held && !landable
            &&& release is Throw <==> thrown
            &&& release matches Release::Land { at: place, seed } ==> place == at && seed
                == after.seed_k && after.phase == Phase::Roam
            &&& release matches Release::Fall { at: place } ==> place == at && after.phase
                == Phase::Fall
            &&& release matches Release::Throw { at: place, stop_looping, submit_toss } ==> {
                &&& place == at
                &&& after.phase == Phase::Fall
                &&& stop_looping == loops
                &&& submit_toss == !toss
            }
            &&& !(release is Nothing) ==> after.pos == at && after.drag_cursor is None
                && after.thrown_flight == thrown
            &&& !(release is Land) ==> after.seed_k == state.seed_k
            &&& CoreLoopState {
                pos: state.pos,
                phase: state.phase,
                seed_k: state.seed_k,
                thrown_flight: state.thrown_flight,
                drag_cursor: state.drag_cursor,
                ..after
            } == state
        }),
{
}

} // verus!
