//! The round of the core loop that comes once a second: what the mood is told of the
//! surroundings, and what needs and activities lead to.

use crate::coreloop::activity::{ActivitySlot, ActivityStep};
use crate::bridge::settings::RemindersSnapshot;
use crate::coreloop::effects::{offline_span, REMINDER_ACTION_ID, STARTUP_GREETING_ACTION};
use crate::coreloop::kinds::{ActionSource, Point};
use crate::coreloop::state::CoreLoopState;
use crate::ports::MonitorGeom;
use crate::scalar::Scalar;
use vstd::prelude::*;

verus! {

/// What the mood is told of the surroundings.
#[derive(Clone, Copy, Debug, PartialEq, Eq, Structural)]
pub struct TickEnv {
    /// The session is locked or away; the mood stands still.
    pub session_paused: bool,
    /// The pet performs something.
    pub performing: bool,
    /// The pet is out.
    pub activity_running: bool,
    /// What interactions have added to the mood.
    pub event_delta: Scalar,
    /// For how long the user has done nothing, in milliseconds.
    pub preset_idle_ms: u64,
    /// The pet can be reached.
    pub interaction_available: bool,
    /// How busy the user is may be taken into account.
    pub activity_sensed: bool,
    /// Something unpleasant happened apart from interactions.
    pub negative_happened: bool,
}

/// What the mood catches up on after the application was off.
#[derive(Clone, Copy, Debug, PartialEq, Eq, Structural)]
pub struct OfflineRound {
    /// For how long it was off, in milliseconds.
    pub away_ms: i64,
    pub env: TickEnv,
}

/// A greeting that waits to be delivered.
#[derive(Debug)]
pub struct StartupGreeting<B> {
    /// What the pet does.
    pub action_id: &'static str,
    /// What the pet says, if anything.
    pub bubble: Option<B>,
}

/// The greeting that waits after the time away was made up for: the pet waves, and says
/// `words` where there are any. Without a round to make up for, what waited before goes
/// on waiting.
pub open spec fn greeting_after<B>(
    round: Option<OfflineRound>,
    words: Option<B>,
    before: Option<StartupGreeting<B>>,
) -> Option<StartupGreeting<B>> {
    match round {
        Some(_) => Some(StartupGreeting { action_id: STARTUP_GREETING_ACTION, bubble: words }),
        None => before,
    }
}

/// Leaves a greeting waiting where time away was made up for, and exactly there.
pub fn leave_startup_greeting<B>(
    round: &Option<OfflineRound>,
    words: Option<B>,
    greeting: &mut Option<StartupGreeting<B>>,
)
    ensures
        *final(greeting) == greeting_after(*round, words, *old(greeting)),
{
    if round.is_some() {
        *greeting = Some(StartupGreeting { action_id: STARTUP_GREETING_ACTION, bubble: words });
    }
}

/// Takes the greeting where it can be delivered; otherwise it goes on waiting.
pub fn flush_startup_greeting<B>(
    greeting: &mut Option<StartupGreeting<B>>,
    deliverable: bool,
) -> (r: Option<StartupGreeting<B>>)
    ensures
        deliverable ==> r == *old(greeting) && *final(greeting) is None,
        !deliverable ==> r is None && *final(greeting) == *old(greeting),
{
    if deliverable {
        greeting.take()
    } else {
        None
    }
}

/// What a need asks for.
#[derive(Clone, Debug, PartialEq, Eq)]
pub struct NeedsIntent {
    pub action_id: String,
    /// Where the words for it are, where it calls for help.
    pub bubble_pool: Option<String>,
}

/// One step that needs lead to.
#[derive(Clone, Debug, PartialEq, Eq)]
pub enum NeedsStep {
    /// Ask for this action.
    Play { action_id: String },
    /// Say something out of this pool, whatever is said already.
    Bubble { pool: String },
}

/// The steps that needs lead to, in order: each asks for its action, and calls for help
/// unless bubbles are silenced.
pub open spec fn steps_for_needs(intents: Seq<NeedsIntent>, silenced: bool) -> Seq<NeedsStep>
    decreases intents.len(),
{
    if intents.len() == 0 {
        Seq::empty()
    } else {
        let intent = intents.last();
        let played = steps_for_needs(intents.drop_last(), silenced).push(
            NeedsStep::Play { action_id: intent.action_id },
        );
        match intent.bubble_pool {
            Some(pool) => if silenced {
                played
            } else {
                played.push(NeedsStep::Bubble { pool })
            },
            None => played,
        }
    }
}

/// What the scheduler of the reminders is told in a round.
#[derive(Clone, Copy, Debug, PartialEq, Eq, Structural)]
pub struct ReminderRound {
    /// Reminders are silenced.
    pub do_not_disturb: bool,
    /// The wall clock, in milliseconds since 1970.
    pub at_ms: i64,
}

/// The action that a reminder asks for.
#[derive(Clone, Copy, Debug, PartialEq, Eq)]
pub struct ReminderCall {
    pub action_id: &'static str,
    pub source: ActionSource,
    /// The time of the last logic round.
    pub at_ms: u64,
}

/// What the scheduler of the reminders is set to: nothing where it is set to that already,
/// so that its timers go on.
pub open spec fn reminders_to_set(
    kept: RemindersSnapshot,
    wanted: RemindersSnapshot,
) -> Option<RemindersSnapshot> {
    if kept == wanted {
        None
    } else {
        Some(wanted)
    }
}

/// How an activity that came to its end was settled.
#[derive(Clone, Copy, Debug, PartialEq, Eq, Structural)]
pub struct SettleEnd {
    /// The activity is over.
    pub cleared: bool,
    /// The pet pants.
    pub tired: bool,
}

/// The step once the pet was sent out, or was not.
pub open spec fn step_of_dispatch(ok: bool) -> Option<ActivityStep> {
    if ok {
        Some(ActivityStep::Play { slot: ActivitySlot::Depart })
    } else {
        None
    }
}

/// How an activity was settled, or was not.
pub open spec fn end_of_settling(ok: bool, energy: Scalar) -> SettleEnd {
    SettleEnd { cleared: ok, tired: ok && crate::coreloop::activity::tired(energy) }
}

/// The pet may be sent out.
pub open spec fn may_go(mood_allows: bool, need_denies: bool) -> bool {
    mood_allows && !need_denies
}

impl CoreLoopState {
    /// What the mood is told of a time at which nobody was there.
    pub open spec fn alone(self) -> TickEnv {
        TickEnv {
            session_paused: false,
            performing: false,
            activity_running: false,
            event_delta: Scalar { bits: 0 },
            preset_idle_ms: u64::MAX,
            interaction_available: self.reachable(),
            activity_sensed: false,
            negative_happened: false,
        }
    }

    /// What the mood catches up on, where there is a save in which a round was kept, and
    /// any time away.
    pub open spec fn offline_round(
        self,
        has_save: bool,
        has_anchor: bool,
        away_ms: i64,
    ) -> Option<OfflineRound> {
        if has_save && has_anchor && away_ms > 0 {
            Some(OfflineRound { away_ms, env: self.alone() })
        } else {
            None
        }
    }

    /// What the mood is told of the surroundings.
    pub open spec fn surroundings(self, paused: bool, activity_running: bool) -> TickEnv {
        TickEnv {
            session_paused: paused,
            performing: false,
            activity_running,
            event_delta: self.pending_mood,
            preset_idle_ms: self.idle_time(),
            interaction_available: self.reachable(),
            activity_sensed: self.activity_sensing,
            negative_happened: false,
        }
    }

    /// The state after the mood was told of the surroundings.
    pub open spec fn told(self, paused: bool) -> CoreLoopState {
        if paused {
            self
        } else {
            CoreLoopState { pending_mood: Scalar { bits: 0 }, ..self }
        }
    }

    /// What the mood is told of the surroundings. What interactions have added is handed
    /// over once, except to a paused session.
    pub fn business_env(&mut self, paused: bool, activity_running: bool) -> (r: TickEnv)
        ensures
            r == old(self).surroundings(paused, activity_running),
            *final(self) == old(self).told(paused),
    {
        let preset_idle_ms: u64 = self.idle_for_mood();
        let interaction_available = self.interaction_available();
        let activity_sensed = self.activity_sensing;
        let event_delta = self.take_mood(paused);
        TickEnv {
            session_paused: paused,
            performing: false,
            activity_running,
            event_delta,
            preset_idle_ms,
            interaction_available,
            activity_sensed,
            negative_happened: false,
        }
    }

    /// What the mood is told of the time the application was off: nobody was there, and
    /// whether the pet can be reached is as it was.
    pub fn offline_env(&self) -> (r: TickEnv)
        ensures
            r == self.alone(),
    {
        TickEnv {
            session_paused: false,
            performing: false,
            activity_running: false,
            event_delta: Scalar { bits: 0 },
            preset_idle_ms: u64::MAX,
            interaction_available: self.interaction_available(),
            activity_sensed: false,
            negative_happened: false,
        }
    }

    /// What the mood catches up on when the application starts: the time it was off,
    /// `away_ms`, as a time without anybody there. Nothing without a save, where no round
    /// was kept in it, or without any time away.
    pub fn compensate_offline(&self, has_save: bool, has_anchor: bool, away_ms: i64) -> (r: Option<
        OfflineRound,
    >)
        ensures
            r == self.offline_round(has_save, has_anchor, away_ms),
    {
        match offline_span(has_save, has_anchor, away_ms) {
            Some(away_ms) => Some(OfflineRound { away_ms, env: self.offline_env() }),
            None => None,
        }
    }

    /// The steps that needs lead to, in order.
    pub fn needs_steps(&self, intents: &[NeedsIntent]) -> (r: Vec<NeedsStep>)
        ensures
            r@ == steps_for_needs(intents@, self.silenced()),
    {
        let silenced = self.bubbles_silenced();
        let mut steps: Vec<NeedsStep> = Vec::new();
        let mut i: usize = 0;
        assert(intents@.take(0) =~= Seq::empty());
        while i < intents.len()
            invariant
                i <= intents.len(),
                silenced == self.silenced(),
                steps@ == steps_for_needs(intents@.take(i as int), silenced),
            decreases intents.len() - i,
        {
            proof {
                assert(intents@.take(i + 1).drop_last() =~= intents@.take(i as int));
            }
            steps.push(NeedsStep::Play { action_id: intents[i].action_id.clone() });
            if !silenced {
                if let Some(pool) = &intents[i].bubble_pool {
                    steps.push(NeedsStep::Bubble { pool: pool.clone() });
                }
            }
            i = i + 1;
        }
        assert(intents@.take(i as int) =~= intents@);
        steps
    }

    /// What the scheduler of the reminders is set to, where that is not what it is set to
    /// already.
    pub fn sync_reminders(kept: RemindersSnapshot, wanted: RemindersSnapshot) -> (r: Option<
        RemindersSnapshot,
    >)
        ensures
            r == reminders_to_set(kept, wanted),
    {
        if kept == wanted {
            None
        } else {
            Some(wanted)
        }
    }

    /// What the scheduler of the reminders is told before it looks what is due: it hears of
    /// do-not-disturb in every round.
    pub fn reminder_tick(&self, wall_now_ms: i64) -> (r: ReminderRound)
        ensures
            r == (ReminderRound { do_not_disturb: self.dnd, at_ms: wall_now_ms }),
    {
        ReminderRound { do_not_disturb: self.dnd, at_ms: wall_now_ms }
    }

    /// The action that a reminder asks for, where one is due.
    pub open spec fn reminder_of(self, due: bool) -> Option<ReminderCall> {
        if due {
            Some(
                ReminderCall {
                    action_id: REMINDER_ACTION_ID,
                    source: ActionSource::Ambient,
                    at_ms: self.last_logic_ms,
                },
            )
        } else {
            None
        }
    }

    /// The action that a reminder asks for, where one is due.
    pub fn reminder_call(&self, due: bool) -> (r: Option<ReminderCall>)
        ensures
            r == self.reminder_of(due),
    {
        if due {
            Some(
                ReminderCall {
                    action_id: REMINDER_ACTION_ID,
                    source: ActionSource::Ambient,
                    at_ms: self.last_logic_ms,
                },
            )
        } else {
            None
        }
    }

    /// Notes whether the pet was sent out: then it sets out with an action, and the save is
    /// to be written.
    pub fn dispatched(&mut self, ok: bool) -> (r: Option<ActivityStep>)
        ensures
            r == step_of_dispatch(ok),
            *final(self) == old(self).to_save(ok),
    {
        if ok {
            self.save_requested = true;
            Some(ActivityStep::Play { slot: ActivitySlot::Depart })
        } else {
            None
        }
    }

    /// Notes whether a return was settled: then the activity is over and the save is to be
    /// written; otherwise it is tried again in the next round. A pet with little energy
    /// pants.
    pub fn settled(&mut self, ok: bool, energy: Scalar) -> (r: SettleEnd)
        ensures
            r == end_of_settling(ok, energy),
            *final(self) == old(self).to_save(ok),
    {
        if ok {
            self.save_requested = true;
        }
        SettleEnd { cleared: ok, tired: ok && crate::coreloop::activity::comes_home_tired(energy) }
    }
}

/// What interactions have added to the mood reaches it once: after a round that is not
/// paused there is nothing more to tell, and a paused round keeps it for the next.
pub proof fn lemma_mood_is_fed_once(state: CoreLoopState, paused: bool, running: bool)
    ensures
        state.told(false).surroundings(paused, running).event_delta.bits == 0,
        state.told(true).surroundings(paused, running) == state.surroundings(paused, running),
{
}

/// Unchanged preferences do not restart the timers of the reminders: once they are set,
/// asking for them again sets nothing.
pub proof fn lemma_reminders_are_set_once(kept: RemindersSnapshot, wanted: RemindersSnapshot)
    ensures
        ({
            let now = match reminders_to_set(kept, wanted) {
                Some(set) => set,
                None => kept,
            };
            &&& now == wanted
            &&& reminders_to_set(now, wanted) is None
        }),
{
}

/// After the start a greeting waits exactly where there is a save in which a round was
/// kept, and any time away; the pet then waves. Where time away is not made up for, what
/// waited before goes on waiting.
pub proof fn lemma_greeting_waits_after_time_away<B>(
    state: CoreLoopState,
    has_save: bool,
    has_anchor: bool,
    away_ms: i64,
    words: Option<B>,
    before: Option<StartupGreeting<B>>,
)
    ensures
        ({
            let round = state.offline_round(has_save, has_anchor, away_ms);
            let after = greeting_after(round, words, before);
            if has_save && has_anchor && away_ms > 0 {
                &&& after is Some
                &&& after->0.action_id == "ACT-T-01"
                &&& after->0.bubble == words
            } else {
                after == before
            }
        }),
{
}

/// Whether the pet may be sent out: neither the mood nor a need forbids it.
pub fn dispatch_verdict(mood_allows: bool, need_denies: bool) -> (r: bool)
    ensures
        r == may_go(mood_allows, need_denies),
{
    mood_allows && !need_denies
}

/// The first place from `from` on at which a primary monitor stands, or the end.
pub open spec fn primary_place(monitors: Seq<MonitorGeom>, from: int) -> int
    decreases monitors.len() - from,
{
    if from >= monitors.len() {
        monitors.len() as int
    } else if monitors[from].primary {
        from
    } else {
        primary_place(monitors, from + 1)
    }
}

/// Where the pet starts: in the middle of its window, or else of the work area of the
/// primary monitor, or else of the first one, or else at the origin.
///
/// `centers` holds the middle of the work area of each monitor.
pub fn initial_pos(window: Option<Point>, monitors: &[MonitorGeom], centers: &[Point]) -> (r: Point)
    requires
        centers.len() == monitors.len(),
    ensures
        r == start_pos(window, monitors@, centers@),
{
    if let Some(p) = window {
        if p.x.is_finite() && p.y.is_finite() {
            return p;
        }
    }
    let mut i: usize = 0;
    while i < monitors.len() && !monitors[i].primary
        invariant
            i <= monitors.len(),
            primary_place(monitors@, 0) == primary_place(monitors@, i as int),
        decreases monitors.len() - i,
    {
        i = i + 1;
    }
    if i < monitors.len() {
        centers[i]
    } else if monitors.len() > 0 {
        centers[0]
    } else {
        Point { x: Scalar { bits: 0 }, y: Scalar { bits: 0 } }
    }
}

/// Where the pet starts.
pub open spec fn start_pos(
    window: Option<Point>,
    monitors: Seq<MonitorGeom>,
    centers: Seq<Point>,
) -> Point {
    match window {
        Some(p) => if p.finite() {
            p
        } else {
            fallback_pos(monitors, centers)
        },
        None => fallback_pos(monitors, centers),
    }
}

/// Where the pet starts without a window.
pub open spec fn fallback_pos(monitors: Seq<MonitorGeom>, centers: Seq<Point>) -> Point {
    let at = primary_place(monitors, 0);
    if at < monitors.len() {
        centers[at]
    } else if monitors.len() > 0 {
        centers[0]
    } else {
        Point { x: Scalar { bits: 0 }, y: Scalar { bits: 0 } }
    }
}

/// Needs are met in their order: the steps for two lists in a row are those for the first and
/// then those for the second. Each need plays its action, and calls for help after that where it
/// has words and bubbles are not silenced.
pub proof fn lemma_needs_are_met_in_order(
    a: Seq<NeedsIntent>,
    b: Seq<NeedsIntent>,
    intent: NeedsIntent,
    silenced: bool,
)
    ensures
        steps_for_needs(a + b, silenced) == steps_for_needs(a, silenced) + steps_for_needs(
            b,
            silenced,
        ),
        ({
            let steps = steps_for_needs(seq![intent], silenced);
            let calls = !silenced && intent.bubble_pool is Some;
            &&& steps.len() == if calls { 2int } else { 1 }
            &&& steps[0] matches NeedsStep::Play { action_id } && action_id == intent.action_id
            &&& calls ==> (steps[1] matches NeedsStep::Bubble { pool } && Some(pool)
                == intent.bubble_pool)
        }),
        steps_for_needs(Seq::empty(), silenced).len() == 0,
    decreases b.len(),
{
    let one = seq![intent];
    assert(one.drop_last() =~= Seq::empty());
    assert(one.last() == intent);
    reveal_with_fuel(steps_for_needs, 2);
    if b.len() == 0 {
        assert(a + b =~= a);
        assert(steps_for_needs(a, silenced) + steps_for_needs(b, silenced) =~= steps_for_needs(
            a,
            silenced,
        ));
    } else {
        lemma_needs_are_met_in_order(a, b.drop_last(), intent, silenced);
        assert((a + b).drop_last() =~= a + b.drop_last());
        assert((a + b).last() == b.last());
        assert(steps_for_needs(a + b, silenced) =~= steps_for_needs(a, silenced)
            + steps_for_needs(b, silenced));
    }
}

/// The mood hears of the surroundings as they are: whether the session stands still and the pet
/// is out, what interactions have added, for how long the user was seen idle, and whether the
/// pet can be reached. It is never told of a performance or of anything unpleasant. Telling it
/// uses up what interactions have added, unless the session stands still, and nothing else.
pub proof fn lemma_mood_hears_of_the_surroundings(
    state: CoreLoopState,
    paused: bool,
    running: bool,
)
    ensures
        ({
            let env = state.surroundings(paused, running);
            let after = state.told(paused);
            &&& env.session_paused == paused
            &&& env.activity_running == running
            &&& env.event_delta == state.pending_mood
            &&& env.preset_idle_ms == state.idle_time()
            &&& env.interaction_available == state.reachable()
            &&& env.activity_sensed == state.activity_sensing
            &&& !env.performing && !env.negative_happened
            &&& paused ==> after == state
            &&& !paused ==> after.pending_mood.bits == 0
            &&& CoreLoopState { pending_mood: state.pending_mood, ..after } == state
        }),
{
}

/// Time away is made up for in full, as time without anybody: no interaction, no session, no
/// activity, nobody sensed and the user idle for good; whether the pet can be reached stays.
pub proof fn lemma_time_away_is_time_alone(
    state: CoreLoopState,
    has_save: bool,
    has_anchor: bool,
    away_ms: i64,
)
    ensures
        ({
            let round = state.offline_round(has_save, has_anchor, away_ms);
            &&& round is Some <==> has_save && has_anchor && away_ms > 0
            &&& round matches Some(made_up) ==> {
                &&& made_up.away_ms == away_ms
                &&& made_up.env.event_delta.bits == 0
                &&& made_up.env.preset_idle_ms == u64::MAX
                &&& made_up.env.interaction_available == state.reachable()
                &&& !made_up.env.session_paused && !made_up.env.performing
                &&& !made_up.env.activity_running && !made_up.env.activity_sensed
                &&& !made_up.env.negative_happened
            }
        }),
{
}

/// A pet that was sent out acts out leaving, and only then. An activity is over exactly where it
/// was settled, and only then can the pet pant. It may be sent out where its mood allows it and
/// no need forbids it.
pub proof fn lemma_outings_follow_their_outcome(
    ok: bool,
    energy: Scalar,
    mood_allows: bool,
    need_denies: bool,
)
    ensures
        step_of_dispatch(true) matches Some(ActivityStep::Play { slot }) && slot
            == ActivitySlot::Depart,
        step_of_dispatch(false) is None,
        end_of_settling(ok, energy).cleared <==> ok,
        !ok ==> !end_of_settling(ok, energy).tired,
        ok ==> (end_of_settling(ok, energy).tired <==> crate::coreloop::activity::tired(energy)),
        need_denies ==> !may_go(mood_allows, need_denies),
        !mood_allows ==> !may_go(mood_allows, need_denies),
        may_go(true, false),
{
}

/// The pet starts in its window where that is somewhere; otherwise in the middle of the first
/// primary monitor, or of the first monitor where none is primary, or at the origin where there
/// is none.
pub proof fn lemma_pet_starts_where_it_can_be_seen(
    window: Option<Point>,
    monitors: Seq<MonitorGeom>,
    centers: Seq<Point>,
    k: int,
)
    requires
        centers.len() == monitors.len(),
    ensures
        ({
            let at = start_pos(window, monitors, centers);
            let nowhere = window is None || !window->0.finite();
            &&& !nowhere ==> Some(at) == window
            &&& nowhere && 0 <= k < monitors.len() && monitors[k].primary && (forall|i: int|
                0 <= i < k ==> !(#[trigger] monitors[i]).primary) ==> at == centers[k]
            &&& nowhere && monitors.len() > 0 && (forall|i: int|
                0 <= i < monitors.len() ==> !(#[trigger] monitors[i]).primary) ==> at == centers[0]
            &&& nowhere && monitors.len() == 0 ==> at.x.bits == 0 && at.y.bits == 0
        }),
{
    lemma_primary_place(monitors, 0);
    let p = primary_place(monitors, 0);
    if 0 <= k < monitors.len() && monitors[k].primary && (forall|i: int|
        0 <= i < k ==> !(#[trigger] monitors[i]).primary) {
        if p < k {
            assert(!monitors[p].primary);
        }
        if k < p {
            assert(!monitors[k].primary);
        }
        assert(p == k);
    }
}

proof fn lemma_primary_place(monitors: Seq<MonitorGeom>, from: int)
    requires
        0 <= from <= monitors.len(),
    ensures
        ({
            let p = primary_place(monitors, from);
            &&& from <= p <= monitors.len()
            &&& p < monitors.len() ==> monitors[p].primary
            &&& forall|i: int| from <= i < p ==> !(#[trigger] monitors[i]).primary
        }),
    decreases monitors.len() - from,
{
    if from < monitors.len() && !monitors[from].primary {
        lemma_primary_place(monitors, from + 1);
    }
}

/// A reminder that is due asks for its action on behalf of the surroundings, at the time of the
/// last logic round; one that is not due asks for nothing.
pub proof fn lemma_reminders_call_when_due(state: CoreLoopState)
    ensures
        state.reminder_of(false) is None,
        state.reminder_of(true) matches Some(call) && call.action_id == REMINDER_ACTION_ID
            && call.source == ActionSource::Ambient && call.at_ms == state.last_logic_ms,
{
}

} // verus!
