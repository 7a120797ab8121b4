//! What gestures, moods and landings set off: particles, sounds, bubbles, actions.

use crate::bridge::channel::{PlaybackChannel, PlaybackOrder, PlaybackReport};
use crate::bridge::frame::{particle_cmd, ParticleCmd, ParticleKind};
use crate::coreloop::kinds::{
    ActionSource, Arbitration, AudioCue, CoaxStep, CurrentAction, EmotionEvent, InteractionKind,
    Point,
};
use crate::coreloop::state::CoreLoopState;
use crate::text;
use vstd::prelude::*;

verus! {

/// How many hearts a kind gesture sets off.
pub const FX_HEART_BURST_COUNT: u32 = 12;

/// How much dust a landed throw sets off.
pub const FX_DUST_BURST_COUNT: u32 = 16;

/// The action that points out a reminder.
pub const REMINDER_ACTION_ID: &'static str = "ACT-P-03";

/// The action that greets a user who comes back.
pub const STARTUP_GREETING_ACTION: &'static str = "ACT-T-01";

/// The action of an ordinary landing.
pub const LANDING_ACTION_ID: &'static str = "ACT-M-06";

/// The tumbling action, from the start of a drag to the landing of a throw.
pub const TOSS_ACTION_ID: &'static str = "ACT-T-06";

/// The first action after a landed throw.
pub const THROW_LANDING_HEAD: &'static str = "ACT-T-07";

/// The second action after a landed throw.
pub const THROW_LANDING_TAIL: &'static str = "ACT-T-08";

/// The lines after an accepted apology.
pub const RUNAWAY_POOL: &'static str = "runaway";

/// The lines while the pet waits for the heart.
pub const HAPPY_POOL: &'static str = "happy";

/// What a click sets off.
#[derive(Clone, Copy, Debug, PartialEq, Eq, Structural)]
pub struct ClickFeedbackCfg {
    pub enabled: bool,
    /// How much dust.
    pub burst_count: u32,
}

/// The kind and number of particles that a gesture sets off.
pub open spec fn burst_of(kind: InteractionKind, feedback: ClickFeedbackCfg) -> Option<
    (ParticleKind, u32),
> {
    match kind {
        InteractionKind::DoubleClick | InteractionKind::Tickle | InteractionKind::Stroke => Some(
            (ParticleKind::Heart, FX_HEART_BURST_COUNT),
        ),
        InteractionKind::Click => if feedback.enabled {
            Some((ParticleKind::Dust, crate::bridge::frame::burst(feedback.burst_count)))
        } else {
            None
        },
        _ => None,
    }
}

/// The particles that a gesture sets off: hearts for a kind one, dust for a click
/// where clicks are answered, nothing otherwise.
pub fn fx_burst_for_intent(
    kind: InteractionKind,
    click_feedback: &ClickFeedbackCfg,
) -> (r: Option<ParticleCmd>)
    ensures
        r is Some <==> burst_of(kind, *click_feedback) is Some,
        r matches Some(cmd) ==> cmd.version == crate::bridge::frame::PARTICLE_CMD_VERSION
            && burst_of(kind, *click_feedback) == Some((cmd.kind, cmd.count)),
{
    match kind {
        InteractionKind::DoubleClick | InteractionKind::Tickle | InteractionKind::Stroke => Some(
            particle_cmd(ParticleKind::Heart, FX_HEART_BURST_COUNT),
        ),
        InteractionKind::Click => {
            if click_feedback.enabled {
                Some(particle_cmd(ParticleKind::Dust, click_feedback.burst_count))
            } else {
                None
            }
        },
        _ => None,
    }
}

/// The sound of a gesture.
pub open spec fn intent_cue(kind: InteractionKind) -> Option<AudioCue> {
    match kind {
        InteractionKind::Click => Some(AudioCue::InteractHehe),
        InteractionKind::DoubleClick => Some(AudioCue::InteractHeart),
        InteractionKind::Stroke => Some(AudioCue::InteractHeartbeat),
        InteractionKind::Tickle => Some(AudioCue::InteractYaa),
        InteractionKind::Throw => Some(AudioCue::MoveWind),
        _ => None,
    }
}

/// The sound of a gesture.
pub fn audio_cue_for_intent(kind: InteractionKind) -> (r: Option<AudioCue>)
    ensures
        r == intent_cue(kind),
{
    match kind {
        InteractionKind::Click => Some(AudioCue::InteractHehe),
        InteractionKind::DoubleClick => Some(AudioCue::InteractHeart),
        InteractionKind::Stroke => Some(AudioCue::InteractHeartbeat),
        InteractionKind::Tickle => Some(AudioCue::InteractYaa),
        InteractionKind::Throw => Some(AudioCue::MoveWind),
        _ => None,
    }
}

/// The sound of a mood event: a level has the sound of the level that is reached.
pub open spec fn emotion_cue(ev: EmotionEvent) -> Option<AudioCue> {
    match ev {
        EmotionEvent::ColdLevelChanged { to, .. } => if to == 1 {
            Some(AudioCue::EmotionSigh)
        } else if to == 2 {
            Some(AudioCue::EmotionSob)
        } else if to == 3 {
            Some(AudioCue::InteractHmph)
        } else if to == 4 {
            Some(AudioCue::EmotionAnger)
        } else if to == 5 {
            Some(AudioCue::EmotionStepsFade)
        } else {
            None
        },
        EmotionEvent::CoaxProgress { step } => match step {
            CoaxStep::Heart => Some(AudioCue::InteractHeart),
            CoaxStep::Runaway | CoaxStep::Away => Some(AudioCue::EmotionStepsFade),
            CoaxStep::Other => None,
        },
        EmotionEvent::CoaxSucceeded => Some(AudioCue::EmotionCheer),
        EmotionEvent::CoaxFailed => Some(AudioCue::InteractHmph),
        _ => None,
    }
}

/// The sound of a mood event.
pub fn audio_cue_for_emotion(ev: &EmotionEvent) -> (r: Option<AudioCue>)
    ensures
        r == emotion_cue(*ev),
{
    match ev {
        EmotionEvent::ColdLevelChanged { to, .. } => match *to {
            1 => Some(AudioCue::EmotionSigh),
            2 => Some(AudioCue::EmotionSob),
            3 => Some(AudioCue::InteractHmph),
            4 => Some(AudioCue::EmotionAnger),
            5 => Some(AudioCue::EmotionStepsFade),
            _ => None,
        },
        EmotionEvent::CoaxProgress { step } => match step {
            CoaxStep::Heart => Some(AudioCue::InteractHeart),
            CoaxStep::Runaway | CoaxStep::Away => Some(AudioCue::EmotionStepsFade),
            CoaxStep::Other => None,
        },
        EmotionEvent::CoaxSucceeded => Some(AudioCue::EmotionCheer),
        EmotionEvent::CoaxFailed => Some(AudioCue::InteractHmph),
        _ => None,
    }
}

/// Where the words of a bubble come from.
#[derive(Clone, Debug, PartialEq, Eq)]
pub enum BubbleSource {
    /// The lines of a mood level.
    Level { level: u8 },
    /// The lines of a pool; `preempt` takes the place of what is shown.
    Pool { pool: String, preempt: bool },
}

/// The mathematical content of a [`BubbleSource`].
pub enum BubbleView {
    Level(u8),
    Pool(Seq<char>, bool),
}

impl View for BubbleSource {
    type V = BubbleView;

    open spec fn view(&self) -> BubbleView {
        match *self {
            BubbleSource::Level { level } => BubbleView::Level(level),
            BubbleSource::Pool { pool, preempt } => BubbleView::Pool(pool@, preempt),
        }
    }
}

/// The bubble that a mood event sets off. Only the lines of joy take the place of
/// what is shown.
pub open spec fn bubble_of(ev: EmotionEvent) -> Option<BubbleView> {
    match ev {
        EmotionEvent::ColdLevelChanged { to, .. } => Some(BubbleView::Level(to)),
        EmotionEvent::CoaxSucceeded => Some(BubbleView::Pool(RUNAWAY_POOL@, false)),
        EmotionEvent::CoaxProgress { step } => if step == CoaxStep::Heart {
            Some(BubbleView::Pool(HAPPY_POOL@, true))
        } else {
            None
        },
        EmotionEvent::SlackLinger { pool } => Some(
            BubbleView::Pool(pool@, pool@ == HAPPY_POOL@),
        ),
        _ => None,
    }
}

/// The bubble that a mood event sets off.
pub fn derive_bubble(ev: &EmotionEvent) -> (r: Option<BubbleSource>)
    ensures
        r is Some <==> bubble_of(*ev) is Some,
        r matches Some(source) ==> bubble_of(*ev) == Some(source@),
{
    match ev {
        EmotionEvent::ColdLevelChanged { to, .. } => Some(BubbleSource::Level { level: *to }),
        EmotionEvent::CoaxSucceeded => Some(
            BubbleSource::Pool { pool: RUNAWAY_POOL.to_owned(), preempt: false },
        ),
        EmotionEvent::CoaxProgress { step } => match step {
            CoaxStep::Heart => Some(
                BubbleSource::Pool { pool: HAPPY_POOL.to_owned(), preempt: true },
            ),
            CoaxStep::Runaway | CoaxStep::Away | CoaxStep::Other => None,
        },
        EmotionEvent::SlackLinger { pool } => Some(
            BubbleSource::Pool {
                pool: pool.clone(),
                preempt: text::equal(pool.as_str(), HAPPY_POOL),
            },
        ),
        _ => None,
    }
}

/// What a batch of mood events sets off.
#[derive(Debug, PartialEq)]
pub struct EmotionPlan {
    /// Actions to ask for, on behalf of the mood.
    pub actions: Vec<String>,
    pub bubbles: Vec<BubbleSource>,
    pub cues: Vec<AudioCue>,
}

/// The actions that mood events demand.
pub open spec fn demanded(events: Seq<EmotionEvent>) -> Seq<String>
    decreases events.len(),
{
    if events.len() == 0 {
        Seq::empty()
    } else {
        let before = demanded(events.drop_last());
        match events.last() {
            EmotionEvent::ForceAction { action_id, .. } => before.push(action_id),
            _ => before,
        }
    }
}

/// The bubbles that mood events set off.
pub open spec fn bubbles(events: Seq<EmotionEvent>) -> Seq<BubbleView>
    decreases events.len(),
{
    if events.len() == 0 {
        Seq::empty()
    } else {
        let before = bubbles(events.drop_last());
        match bubble_of(events.last()) {
            Some(b) => before.push(b),
            None => before,
        }
    }
}

/// The sounds of mood events.
pub open spec fn cues(events: Seq<EmotionEvent>) -> Seq<AudioCue>
    decreases events.len(),
{
    if events.len() == 0 {
        Seq::empty()
    } else {
        let before = cues(events.drop_last());
        match emotion_cue(events.last()) {
            Some(c) => before.push(c),
            None => before,
        }
    }
}

/// Whether a mood event asks for the save to be written.
pub open spec fn persists(events: Seq<EmotionEvent>) -> bool {
    exists|i: int| 0 <= i < events.len() && #[trigger] events[i] is PersistNow
}

/// The content of each bubble of a list.
pub open spec fn bubble_views(list: Seq<BubbleSource>) -> Seq<BubbleView> {
    Seq::new(list.len(), |i: int| list[i]@)
}

impl CoreLoopState {
    /// The bubbles that are shown for mood events: none while they are silenced.
    pub open spec fn shown_bubbles(self, events: Seq<EmotionEvent>) -> Seq<BubbleView> {
        if self.silenced() {
            Seq::empty()
        } else {
            bubbles(events)
        }
    }

    /// What a batch of mood events sets off: the demanded actions, the bubbles unless
    /// they are silenced, the sounds; each in the order of the events. A request to
    /// write the save is noted.
    pub fn dispatch_emotion_events(&mut self, events: &Vec<EmotionEvent>) -> (r: EmotionPlan)
        ensures
            *final(self) == old(self).to_save(persists(events@)),
            r.actions@ == demanded(events@),
            bubble_views(r.bubbles@) == old(self).shown_bubbles(events@),
            r.cues@ == cues(events@),
    {
        let silent: bool = self.dnd && self.dnd_pause_bubbles;
        let mut actions: Vec<String> = Vec::new();
        let mut shown: Vec<BubbleSource> = Vec::new();
        let mut sounds: Vec<AudioCue> = Vec::new();
        let mut i: usize = 0;
        assert(bubble_views(shown@) =~= Seq::empty());
        while i < events.len()
            invariant
                i <= events@.len(),
                silent == (old(self).dnd && old(self).dnd_pause_bubbles),
                *self == (CoreLoopState {
                    save_requested: old(self).save_requested || persists(
                        events@.subrange(0, i as int),
                    ),
                    ..*old(self)
                }),
                actions@ == demanded(events@.subrange(0, i as int)),
                bubble_views(shown@) == if silent {
                    Seq::<BubbleView>::empty()
                } else {
                    bubbles(events@.subrange(0, i as int))
                },
                sounds@ == cues(events@.subrange(0, i as int)),
            decreases events@.len() - i,
        {
            let ghost head = events@.subrange(0, i + 1);
            let ghost tail = events@.subrange(0, i as int);
            assert(head.drop_last() =~= tail);
            assert(head.last() == events@[i as int]);
            proof {
                assert forall|k: int| 0 <= k < i implies #[trigger] head[k] == tail[k] by {}
                if persists(tail) {
                    let k = choose|k: int| 0 <= k < tail.len() && #[trigger] tail[k] is PersistNow;
                    assert(head[k] is PersistNow);
                }
                if persists(head) && !(head[i as int] is PersistNow) {
                    let k = choose|k: int| 0 <= k < head.len() && #[trigger] head[k] is PersistNow;
                    assert(tail[k] is PersistNow);
                }
            }
            let ev: &EmotionEvent = &events[i];
            match ev {
                EmotionEvent::PersistNow => {
                    self.save_requested = true;
                },
                EmotionEvent::ForceAction { action_id, .. } => {
                    actions.push(action_id.clone());
                },
                _ => {},
            }
            if !silent {
                if let Some(source) = derive_bubble(ev) {
                    let ghost before = bubble_views(shown@);
                    shown.push(source);
                    assert(bubble_views(shown@) =~= before.push(source@));
                }
            }
            if let Some(cue) = audio_cue_for_emotion(ev) {
                sounds.push(cue);
            }
            i = i + 1;
        }
        assert(events@.subrange(0, i as int) =~= events@);
        EmotionPlan { actions, bubbles: shown, cues: sounds }
    }
}

/// What a logic round has come to.
#[derive(Clone, Copy, Debug, PartialEq, Eq, Structural)]
pub struct LogicOutcome {
    /// Where the pet is.
    pub pos: Point,
    /// Whether it has moved.
    pub moved: bool,
    /// What the arbiter made of the landing.
    pub submitted: Option<Arbitration>,
    /// Whether a throw has landed.
    pub landed_thrown: bool,
}

/// What a logic round has come to, from where the pet was and is.
pub open spec fn outcome_of(
    before: Point,
    pos: Point,
    submitted: Option<Arbitration>,
    landed_thrown: bool,
) -> LogicOutcome {
    LogicOutcome { pos, moved: !pos.equals(before), submitted, landed_thrown }
}

/// What a logic round has come to, from where the pet was and is.
pub fn logic_outcome(
    before: Point,
    pos: Point,
    submitted: Option<Arbitration>,
    landed_thrown: bool,
) -> (r: LogicOutcome)
    ensures
        r == outcome_of(before, pos, submitted, landed_thrown),
{
    LogicOutcome { pos, moved: !pos.same(before), submitted, landed_thrown }
}

/// One step with the arbiter.
#[derive(Clone, Copy, Debug, PartialEq, Eq)]
pub enum ArbiterStep {
    /// Ask for an action; `forced` passes the pause between interruptions, `reported`
    /// makes the verdict that of the landing.
    Submit { action_id: &'static str, source: ActionSource, forced: bool, reported: bool },
    /// Stop what loops and let the next action start.
    StopLooping,
}

/// What follows a landing. After a throw both actions are asked for while the
/// tumbling still plays, so that they queue up in order; only after that it is
/// stopped. Otherwise what loops is stopped first.
pub open spec fn steps_of_landing(thrown: bool) -> Seq<ArbiterStep> {
    if thrown {
        seq![
            ArbiterStep::Submit {
                action_id: THROW_LANDING_HEAD,
                source: ActionSource::Interaction,
                forced: true,
                reported: true,
            },
            ArbiterStep::Submit {
                action_id: THROW_LANDING_TAIL,
                source: ActionSource::Interaction,
                forced: false,
                reported: false,
            },
            ArbiterStep::StopLooping,
        ]
    } else {
        seq![
            ArbiterStep::StopLooping,
            ArbiterStep::Submit {
                action_id: LANDING_ACTION_ID,
                source: ActionSource::Motion,
                forced: false,
                reported: true,
            },
        ]
    }
}

/// What follows a landing.
pub fn landing_steps(thrown: bool) -> (r: Vec<ArbiterStep>)
    ensures
        r@ == steps_of_landing(thrown),
{
    let mut r: Vec<ArbiterStep> = Vec::new();
    if thrown {
        r.push(
            ArbiterStep::Submit {
                action_id: THROW_LANDING_HEAD,
                source: ActionSource::Interaction,
                forced: true,
                reported: true,
            },
        );
        r.push(
            ArbiterStep::Submit {
                action_id: THROW_LANDING_TAIL,
                source: ActionSource::Interaction,
                forced: false,
                reported: false,
            },
        );
        r.push(ArbiterStep::StopLooping);
    } else {
        r.push(ArbiterStep::StopLooping);
        r.push(
            ArbiterStep::Submit {
                action_id: LANDING_ACTION_ID,
                source: ActionSource::Motion,
                forced: false,
                reported: true,
            },
        );
    }
    r
}

/// Whether a verdict starts the action at once.
pub open spec fn starts_now(verdict: Arbitration) -> bool {
    verdict == Arbitration::Play || verdict == Arbitration::Interrupt
}

/// The orders that wait once one was pushed, or none.
pub open spec fn ordered_after(
    orders: Seq<PlaybackOrder>,
    pushed: bool,
    order: PlaybackOrder,
) -> Seq<PlaybackOrder> {
    if pushed {
        crate::queue::newest(
            orders,
            crate::bridge::channel::PLAYBACK_CHANNEL_CAP as nat,
            order,
        )
    } else {
        orders
    }
}

/// How many orders are lost once one was pushed, or none: the oldest of a full channel
/// gives way.
pub open spec fn lost_after(channel: &PlaybackChannel, pushed: bool) -> u64 {
    if pushed && channel.orders().len() >= crate::bridge::channel::PLAYBACK_CHANNEL_CAP {
        crate::queue::next_count(channel.lost())
    } else {
        channel.lost()
    }
}

/// Orders the player to play an action that the arbiter lets start at once; an action
/// that waits or gives way is not ordered.
pub fn settle_play(channel: &mut PlaybackChannel, verdict: Arbitration, action_id: String)
    requires
        old(channel).wf(),
    ensures
        final(channel).wf(),
        final(channel).reports() == old(channel).reports(),
        final(channel).orders() == ordered_after(
            old(channel).orders(),
            starts_now(verdict),
            PlaybackOrder::Play { action_id },
        ),
        final(channel).lost() == lost_after(old(channel), starts_now(verdict)),
{
    match verdict {
        Arbitration::Play | Arbitration::Interrupt => {
            channel.push_order(PlaybackOrder::Play { action_id });
        },
        Arbitration::Queued { .. } | Arbitration::Suppressed | Arbitration::Dropped => {},
    }
}

/// Whether the current action loops.
pub open spec fn loops(current: Option<CurrentAction>) -> bool {
    current matches Some(action) && action.looping
}

/// Whether the current action loops; without one nothing does.
pub fn current_is_looping(current: &Option<CurrentAction>) -> (r: bool)
    ensures
        r == loops(*current),
{
    match current {
        Some(action) => action.looping,
        None => false,
    }
}

/// Whether the current action is the one named.
pub open spec fn is_current(current: Option<CurrentAction>, action_id: Seq<char>) -> bool {
    current matches Some(action) && action.id@ == action_id
}

/// Whether the current action is the one named.
pub fn current_is(current: &Option<CurrentAction>, action_id: &str) -> (r: bool)
    ensures
        r == is_current(*current, action_id@),
{
    match current {
        Some(action) => text::equal(action.id.as_str(), action_id),
        None => false,
    }
}

/// Stops the current action where it loops; says whether the arbiter has to be told
/// that it is over.
pub fn stop_looping_current(
    channel: &mut PlaybackChannel,
    current: &Option<CurrentAction>,
) -> (over: bool)
    requires
        old(channel).wf(),
    ensures
        final(channel).wf(),
        over == loops(*current),
        final(channel).reports() == old(channel).reports(),
        final(channel).orders() == ordered_after(old(channel).orders(), over, PlaybackOrder::Stop),
        final(channel).lost() == lost_after(old(channel), over),
{
    if !current_is_looping(current) {
        return false;
    }
    channel.push_order(PlaybackOrder::Stop);
    true
}

/// Orders the player to play what the arbiter has started next.
pub fn start_next(channel: &mut PlaybackChannel, started: Option<String>)
    requires
        old(channel).wf(),
    ensures
        final(channel).wf(),
        final(channel).reports() == old(channel).reports(),
        final(channel).orders() == ordered_after(
            old(channel).orders(),
            started is Some,
            PlaybackOrder::Play { action_id: started->0 },
        ),
        final(channel).lost() == lost_after(old(channel), started is Some),
{
    if let Some(action_id) = started {
        channel.push_order(PlaybackOrder::Play { action_id });
    }
}

/// Whether a report ends the current action; any other report is out of date.
pub fn report_ends_current(report: &PlaybackReport, current: &Option<CurrentAction>) -> (r: bool)
    ensures
        r == (report matches PlaybackReport::Finished { action_id } && is_current(
            *current,
            action_id@,
        )),
{
    match report {
        PlaybackReport::Finished { action_id } => current_is(current, action_id.as_str()),
    }
}

/// What a wanted action comes to before it reaches the arbiter.
#[derive(Clone, Copy, Debug, PartialEq, Eq, Structural)]
pub enum PlayRequest {
    /// No action is named.
    Unnamed,
    /// No such action is listed.
    Unlisted,
    /// The action is listed but cannot be played yet.
    Disabled,
    /// Ask the arbiter for it.
    Submit,
}

/// What a wanted action comes to: the first thing that it lacks, or a request.
pub open spec fn requested(action_id: Seq<char>, listed: bool, enabled: bool) -> PlayRequest {
    if action_id.len() == 0 {
        PlayRequest::Unnamed
    } else if !listed {
        PlayRequest::Unlisted
    } else if !enabled {
        PlayRequest::Disabled
    } else {
        PlayRequest::Submit
    }
}

/// Whether a wanted action is asked for: it has to be named, listed and enabled.
pub fn play_request(action_id: &str, listed: bool, enabled: bool) -> (r: PlayRequest)
    ensures
        r == requested(action_id@, listed, enabled),
{
    if action_id.is_empty() {
        PlayRequest::Unnamed
    } else if !listed {
        PlayRequest::Unlisted
    } else if !enabled {
        PlayRequest::Disabled
    } else {
        PlayRequest::Submit
    }
}

/// For how long the pet was left alone while the application was off.
pub open spec fn time_away(has_save: bool, has_anchor: bool, away_ms: i64) -> Option<i64> {
    if has_save && has_anchor && away_ms > 0 {
        Some(away_ms)
    } else {
        None
    }
}

/// For how long the pet was left alone while the application was off, in
/// milliseconds; none without a save, before the first round, or without any time.
pub fn offline_span(has_save: bool, has_anchor: bool, away_ms: i64) -> (r: Option<i64>)
    ensures
        r == time_away(has_save, has_anchor, away_ms),
{
    if has_save && has_anchor && away_ms > 0 {
        Some(away_ms)
    } else {
        None
    }
}

/// Every sound has its moods: the levels from one to five are heard as a sigh, a sob, a
/// huff, anger and fading steps, the steps also where the pet leaves or has left, the huff
/// also after a refused apology, the heart where the pet waits for it, and the cheer exactly
/// where an apology was accepted. No other sound comes from the mood.
pub proof fn lemma_sounds_of_moods(ev: EmotionEvent)
    ensures
        ({
            let at = |level: u8| ev matches EmotionEvent::ColdLevelChanged { to, .. } && to == level;
            let gone = |s: CoaxStep| ev matches EmotionEvent::CoaxProgress { step } && step == s;
            let cue = emotion_cue(ev);
            &&& cue == Some(AudioCue::EmotionSigh) <==> at(1)
            &&& cue == Some(AudioCue::EmotionSob) <==> at(2)
            &&& cue == Some(AudioCue::InteractHmph) <==> at(3) || ev is CoaxFailed
            &&& cue == Some(AudioCue::EmotionAnger) <==> at(4)
            &&& cue == Some(AudioCue::EmotionStepsFade) <==> at(5) || gone(CoaxStep::Runaway)
                || gone(CoaxStep::Away)
            &&& cue == Some(AudioCue::InteractHeart) <==> gone(CoaxStep::Heart)
            &&& cue == Some(AudioCue::EmotionCheer) <==> ev is CoaxSucceeded
            &&& cue matches Some(c) ==> c != AudioCue::InteractHehe && c
                != AudioCue::InteractHeartbeat && c != AudioCue::InteractYaa && c
                != AudioCue::MoveWind && c != AudioCue::MoveLand && c != AudioCue::EmotionHum
        }),
{
}

/// Where a mood speaks from: a new level speaks with its own lines, an accepted apology with
/// those of the runaway, the wait for the heart with those of joy, and lingering with its own
/// pool. Words push others aside exactly where they are words of joy. Nothing else speaks.
pub proof fn lemma_words_of_moods(ev: EmotionEvent)
    ensures
        ({
            let words = bubble_of(ev);
            &&& (words matches Some(BubbleView::Level(_))) <==> ev is ColdLevelChanged
            &&& ev matches EmotionEvent::ColdLevelChanged { to, .. } ==> words == Some(
                BubbleView::Level(to),
            )
            &&& words matches Some(BubbleView::Pool(pool, preempt)) ==> preempt == (pool
                == "happy"@)
            &&& ev is CoaxSucceeded ==> (words matches Some(BubbleView::Pool(pool, _)) && pool
                == "runaway"@)
            &&& ev matches EmotionEvent::CoaxProgress { step } ==> if step == CoaxStep::Heart {
                words matches Some(BubbleView::Pool(pool, _)) && pool == "happy"@
            } else {
                words is None
            }
            &&& ev matches EmotionEvent::SlackLinger { pool: own } ==> (
            words matches Some(BubbleView::Pool(pool, _)) && pool == own@)
            &&& ev is CoaxFailed || ev is ForceAction || ev is PersistNow || ev is ValuesChanged
                ==> words is None
        }),
{
    reveal_strlit("happy");
    reveal_strlit("runaway");
    assert("happy"@.len() != "runaway"@.len());
}

/// What mood events set off adds up: the actions, words and sounds of two batches in a row are
/// those of the first followed by those of the second, and a batch of one event sets off what
/// the event does. So everything comes in the order of the events, and nothing twice.
pub proof fn lemma_moods_add_up(a: Seq<EmotionEvent>, b: Seq<EmotionEvent>, ev: EmotionEvent)
    ensures
        demanded(a + b) == demanded(a) + demanded(b),
        bubbles(a + b) == bubbles(a) + bubbles(b),
        cues(a + b) == cues(a) + cues(b),
        persists(a + b) == (persists(a) || persists(b)),
        demanded(seq![ev]) == match ev {
            EmotionEvent::ForceAction { action_id, .. } => seq![action_id],
            _ => Seq::empty(),
        },
        bubble_of(ev) matches Some(words) ==> bubbles(seq![ev]) == seq![words],
        bubble_of(ev) is None ==> bubbles(seq![ev]).len() == 0,
        emotion_cue(ev) matches Some(cue) ==> cues(seq![ev]) == seq![cue],
        emotion_cue(ev) is None ==> cues(seq![ev]).len() == 0,
        persists(seq![ev]) == (ev is PersistNow),
        demanded(Seq::empty()).len() == 0 && bubbles(Seq::empty()).len() == 0,
        cues(Seq::empty()).len() == 0 && !persists(Seq::empty()),
    decreases b.len(),
{
    let one = seq![ev];
    assert(one.drop_last() =~= Seq::empty());
    assert(one.last() == ev);
    reveal_with_fuel(demanded, 2);
    reveal_with_fuel(bubbles, 2);
    reveal_with_fuel(cues, 2);
    assert(one[0] == ev);
    if persists(a) {
        let k = choose|k: int| 0 <= k < a.len() && #[trigger] a[k] is PersistNow;
        assert((a + b)[k] is PersistNow);
    }
    if persists(b) {
        let k = choose|k: int| 0 <= k < b.len() && #[trigger] b[k] is PersistNow;
        assert((a + b)[a.len() + k] is PersistNow);
    }
    if persists(a + b) {
        let k = choose|k: int| 0 <= k < (a + b).len() && #[trigger] (a + b)[k] is PersistNow;
        if k < a.len() {
            assert(a[k] is PersistNow);
        } else {
            assert(b[k - a.len()] is PersistNow);
        }
    }
    if b.len() == 0 {
        assert(a + b =~= a);
        assert(demanded(a) + demanded(b) =~= demanded(a));
        assert(bubbles(a) + bubbles(b) =~= bubbles(a));
        assert(cues(a) + cues(b) =~= cues(a));
    } else {
        lemma_moods_add_up(a, b.drop_last(), ev);
        assert((a + b).drop_last() =~= a + b.drop_last());
        assert((a + b).last() == b.last());
        assert(demanded(a + b) =~= demanded(a) + demanded(b));
        assert(bubbles(a + b) =~= bubbles(a) + bubbles(b));
        assert(cues(a + b) =~= cues(a) + cues(b));
    }
}

/// Bubbles are shown, all of them, unless both switches silence them; then none is.
pub proof fn lemma_silence_takes_both_switches(state: CoreLoopState, events: Seq<EmotionEvent>)
    ensures
        !state.dnd ==> state.shown_bubbles(events) == bubbles(events),
        !state.dnd_pause_bubbles ==> state.shown_bubbles(events) == bubbles(events),
        state.dnd && state.dnd_pause_bubbles ==> state.shown_bubbles(events).len() == 0,
{
}

/// Hearts fly for exactly the three kind gestures, always twelve. Dust flies for a click, and
/// only where clicks are answered: as much as is configured, but at least one grain and at most
/// sixty. Nothing else sets off particles.
pub proof fn lemma_particles_of_gestures(kind: InteractionKind, feedback: ClickFeedbackCfg)
    ensures
        ({
            let kindly = kind == InteractionKind::DoubleClick || kind == InteractionKind::Tickle
                || kind == InteractionKind::Stroke;
            let burst = burst_of(kind, feedback);
            &&& (burst matches Some((what, _)) && what == ParticleKind::Heart) <==> kindly
            &&& (burst matches Some((what, _)) && what == ParticleKind::Dust) <==> kind
                == InteractionKind::Click && feedback.enabled
            &&& burst matches Some((what, count)) ==> {
                &&& what == ParticleKind::Heart || what == ParticleKind::Dust
                &&& what == ParticleKind::Heart ==> count == 12
                &&& 1 <= count <= 60
                &&& what == ParticleKind::Dust && 1 <= feedback.burst_count <= 60 ==> count
                    == feedback.burst_count
                &&& what == ParticleKind::Dust && feedback.burst_count > 60 ==> count == 60
            }
        }),
{
}

/// Every sound of a gesture belongs to one gesture alone.
pub proof fn lemma_sounds_of_gestures(kind: InteractionKind)
    ensures
        intent_cue(kind) == Some(AudioCue::InteractHehe) <==> kind == InteractionKind::Click,
        intent_cue(kind) == Some(AudioCue::InteractHeart) <==> kind
            == InteractionKind::DoubleClick,
        intent_cue(kind) == Some(AudioCue::InteractHeartbeat) <==> kind == InteractionKind::Stroke,
        intent_cue(kind) == Some(AudioCue::InteractYaa) <==> kind == InteractionKind::Tickle,
        intent_cue(kind) == Some(AudioCue::MoveWind) <==> kind == InteractionKind::Throw,
        intent_cue(kind) is None <==> kind == InteractionKind::Hover || kind
            == InteractionKind::EarTwitch || kind == InteractionKind::DragStart || kind
            == InteractionKind::Other,
{
}

/// Every landing tells the arbiter exactly once to stop what loops. After an ordinary one that
/// comes first, and one request for the landing action follows, from the movement. After a
/// throw it comes last: the two requests before it, from the interaction, queue up while the
/// tumbling still plays, and the first of them passes the pause between interruptions. The
/// first request of a landing is the one whose verdict counts.
pub proof fn lemma_landing_stops_what_loops(thrown: bool)
    ensures
        ({
            let steps = steps_of_landing(thrown);
            let stop = if thrown { steps.len() - 1 } else { 0 };
            let first = if thrown { 0int } else { 1 };
            &&& steps.len() == if thrown { 3int } else { 2 }
            &&& forall|i: int|
                0 <= i < steps.len() ==> ((#[trigger] steps[i]) is StopLooping <==> i == stop)
            &&& forall|i: int|
                0 <= i < steps.len() ==> ((#[trigger] steps[i]) matches ArbiterStep::Submit {
                    action_id,
                    source,
                    forced,
                    reported,
                } ==> {
                    &&& source == if thrown {
                        ActionSource::Interaction
                    } else {
                        ActionSource::Motion
                    }
                    &&& reported == (i == first)
                    &&& forced == (thrown && i == first)
                })
            &&& !thrown ==> steps[1]->action_id@ == "ACT-M-06"@
            &&& thrown ==> steps[0]->action_id@ == "ACT-T-07"@ && steps[1]->action_id@
                == "ACT-T-08"@
        }),
{
}

/// An order that is pushed becomes the last one, behind all that waited; a channel that was
/// full lets its first go. Where none is pushed, nothing changes. An order to play comes of a
/// verdict exactly where the action starts at once.
pub proof fn lemma_orders_queue_up(
    orders: Seq<PlaybackOrder>,
    order: PlaybackOrder,
    verdict: Arbitration,
)
    requires
        orders.len() <= 16,
    ensures
        ordered_after(orders, false, order) == orders,
        ordered_after(orders, true, order).last() == order,
        orders.len() < 16 ==> ordered_after(orders, true, order).drop_last() == orders,
        orders.len() == 16 ==> ordered_after(orders, true, order).drop_last() == orders.skip(1),
        starts_now(verdict) <==> !(verdict is Queued) && !(verdict is Suppressed) && !(
        verdict is Dropped),
{
    let after = ordered_after(orders, true, order);
    if orders.len() < 16 {
        assert(after.drop_last() =~= orders);
    } else {
        assert(after.drop_last() =~= orders.skip(1));
    }
}

/// What plays is one action: it is the one of its own name and of no other, and it loops
/// where it says so. Where nothing plays, nothing is current and nothing loops.
pub proof fn lemma_one_action_plays(action: CurrentAction, a: Seq<char>, b: Seq<char>)
    ensures
        is_current(Some(action), action.id@),
        is_current(Some(action), a) && is_current(Some(action), b) ==> a == b,
        !is_current(None, a),
        loops(Some(action)) <==> action.looping,
        !loops(None),
{
}

/// A wanted action is asked for exactly where it has a name and is listed and enabled; what
/// stands in the way is told apart, the name before the list and the list before the rest.
pub proof fn lemma_requests_need_all_three(action_id: Seq<char>, listed: bool, enabled: bool)
    ensures
        requested(action_id, listed, enabled) == PlayRequest::Submit <==> action_id.len() > 0
            && listed && enabled,
        requested(action_id, listed, enabled) == PlayRequest::Unnamed <==> action_id.len() == 0,
        requested(action_id, listed, enabled) == PlayRequest::Unlisted <==> action_id.len() > 0
            && !listed,
        requested(action_id, listed, enabled) == PlayRequest::Disabled <==> action_id.len() > 0
            && listed && !enabled,
{
}

/// A round counts as moved exactly where one of the coordinates is another number than before,
/// and it hands on where the pet is, the verdict and the landing as they are.
pub proof fn lemma_moved_means_elsewhere(
    before: Point,
    pos: Point,
    submitted: Option<Arbitration>,
    landed_thrown: bool,
)
    requires
        before.finite(),
        pos.finite(),
    ensures
        ({
            let outcome = outcome_of(before, pos, submitted, landed_thrown);
            &&& outcome.moved <==> pos.x.key() != before.x.key() || pos.y.key() != before.y.key()
            &&& outcome.pos == pos
            &&& outcome.submitted == submitted
            &&& outcome.landed_thrown == landed_thrown
            &&& !outcome_of(pos, pos, submitted, landed_thrown).moved
        }),
{
}

/// Time away counts, in full, exactly where there is a save in which a round was kept, and
/// only where it is more than none.
pub proof fn lemma_time_away_counts_in_full(has_save: bool, has_anchor: bool, away_ms: i64)
    ensures
        time_away(has_save, has_anchor, away_ms) matches Some(ms) ==> ms == away_ms && ms > 0
            && has_save && has_anchor,
        time_away(has_save, has_anchor, away_ms) is None ==> away_ms <= 0 || !has_save
            || !has_anchor,
{
}

/// An order that is not pushed costs none; one that is pushed costs the oldest only where
/// sixteen wait.
pub proof fn lemma_full_channels_lose_one(channel: PlaybackChannel)
    requires
        channel.lost() < u64::MAX,
    ensures
        lost_after(&channel, false) == channel.lost(),
        channel.orders().len() < 16 ==> lost_after(&channel, true) == channel.lost(),
        channel.orders().len() >= 16 ==> lost_after(&channel, true) == channel.lost() + 1,
{
}

} // verus!
