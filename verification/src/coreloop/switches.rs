//! The switches of the core loop: what settings, samples and the mood set, and what
//! follows from them.

use crate::bridge::merge::{PendingSettings, SettingsState};
use crate::bridge::settings::{RemindersSnapshot, SettingsPatch, SettingsSnapshot};
use crate::bridge::snapshot::{persist_settings_patch, SavedSettings};
use crate::coreloop::kinds::{Point, TrayIconState};
use crate::coreloop::state::CoreLoopState;
use crate::scalar::Scalar;
use vstd::prelude::*;

verus! {

/// What the tray has to show.
#[derive(Clone, Copy, Debug, PartialEq, Eq, Structural)]
pub struct TraySync {
    pub icon: TrayIconState,
    /// Offer to call the pet home.
    pub left_home: bool,
}

/// What the engines take over from the settings.
#[derive(Debug, PartialEq)]
pub struct EngineSettings {
    pub sensitivity_value: Scalar,
    pub easy_coax_mode: bool,
    pub click_feedback_enabled: bool,
    pub roam_pace: Scalar,
    /// A new name; none where the settings hold an empty one.
    pub name: Option<String>,
    pub catchphrase_enabled: bool,
    pub catchphrase_frequency: String,
}

/// What a change of the settings leads to.
#[derive(Debug, PartialEq)]
pub struct SettingsUpdate {
    pub engine: EngineSettings,
    /// Install (`true`) or remove (`false`) the keyboard hook, where that changes.
    pub keyboard_hook: Option<bool>,
    pub reminders: RemindersSnapshot,
    /// The name for the tray.
    pub pet_name: String,
    pub revision: u64,
    /// The settings groups that changed.
    pub groups: Vec<&'static str>,
    /// Whether the change was kept.
    pub persisted: bool,
}

/// What was sampled.
#[derive(Clone, Copy, Debug, PartialEq, Eq, Structural)]
pub enum PerceptionEvent {
    Cursor { pos: Point },
    /// The windows and task bars, kept outside.
    Windows,
    System { presence_idle_ms: Option<u64> },
    Fullscreen,
    /// How busy the user is, kept outside.
    Activity,
}

impl CoreLoopState {
    /// The state after the settings are taken over.
    pub open spec fn with_settings(
        self,
        settings: crate::bridge::settings::SettingsView,
    ) -> CoreLoopState {
        CoreLoopState {
            dnd: settings.do_not_disturb,
            click_through: settings.click_through,
            activity_sensing: settings.activity_sensing,
            auto_roam: settings.auto_roam,
            ..self
        }
    }

    /// Whether the user can reach the pet on the desktop.
    pub open spec fn reachable(self) -> bool {
        !self.click_through && !self.dnd && !self.runaway_away
    }

    /// How the tray shows the pet: away from home first, out of reach second.
    pub open spec fn icon(self) -> TrayIconState {
        if self.runaway_away {
            TrayIconState::LeftHome
        } else if !self.reachable() {
            TrayIconState::NotInteractive
        } else {
            TrayIconState::Normal
        }
    }

    /// Takes over the settings: sets the switches and gives what the engines need.
    pub fn apply_settings_snapshot(&mut self, snapshot: &SettingsSnapshot) -> (r: EngineSettings)
        ensures
            *final(self) == old(self).with_settings(snapshot@),
            engine_follows(r, snapshot@),
    {
        self.dnd = snapshot.do_not_disturb;
        self.click_through = snapshot.click_through;
        self.activity_sensing = snapshot.activity_sensing;
        self.auto_roam = snapshot.auto_roam;
        let name: Option<String> = if snapshot.name.as_str().is_empty() {
            None
        } else {
            Some(snapshot.name.clone())
        };
        EngineSettings {
            sensitivity_value: snapshot.sensitivity_value,
            easy_coax_mode: snapshot.easy_coax_mode,
            click_feedback_enabled: snapshot.click_feedback_enabled,
            roam_pace: snapshot.roam_pace,
            name,
            catchphrase_enabled: snapshot.catchphrase_enabled,
            catchphrase_frequency: snapshot.catchphrase_frequency.clone(),
        }
    }

    /// Sets whether do-not-disturb silences bubbles.
    pub fn apply_schedule_flags(&mut self, pause_bubbles: bool)
        ensures
            *final(self) == (CoreLoopState { dnd_pause_bubbles: pause_bubbles, ..*old(self) }),
    {
        self.dnd_pause_bubbles = pause_bubbles;
    }

    /// Takes the waiting changes of the settings, once: the switches follow, the
    /// change is kept in the save where it may be written, and a kept change asks for
    /// the save to be written. Without waiting changes nothing happens.
    pub fn apply_pending_settings(
        &mut self,
        state: &mut SettingsState,
        save: &mut Option<SavedSettings>,
    ) -> (r: Option<SettingsUpdate>)
        ensures
            final(state).settings() == old(state).settings(),
            final(state).waiting() is None,
            r is Some <==> old(state).waiting() is Some,
            r is None ==> *final(self) == *old(self) && *final(save) == *old(save),
            r matches Some(update) ==> {
                let settings = old(state).settings();
                let patch = old(state).waiting()->0;
                &&& engine_follows(update.engine, settings)
                &&& update.keyboard_hook == switched(
                    old(self).activity_sensing,
                    settings.activity_sensing,
                )
                &&& update.reminders == settings.reminders
                &&& update.pet_name@ == settings.name
                &&& update.revision == settings.revision
                &&& crate::bridge::settings::texts(update.groups@) == patch.group_names()
                &&& update.persisted == (*old(save) matches Some(s) && s.writable)
                &&& (*final(save)) is Some <==> (*old(save)) is Some
                &&& update.persisted ==> (*final(save))->0@ == (*old(save))->0@.stored(patch)
                &&& !update.persisted ==> *final(save) == *old(save)
                &&& *final(self) == old(self).with_settings(settings).to_save(update.persisted)
            },
    {
        let pending: PendingSettings = match state.take_pending() {
            Some(p) => p,
            None => {
                return None;
            },
        };
        let before: bool = self.activity_sensing;
        let snapshot: SettingsSnapshot = state.snapshot();
        let engine: EngineSettings = self.apply_settings_snapshot(&snapshot);
        let keyboard_hook: Option<bool> = if self.activity_sensing != before {
            Some(self.activity_sensing)
        } else {
            None
        };
        let groups: Vec<&'static str> = pending.patch.groups();
        let persisted: bool = persist_settings_patch(save, &pending.patch);
        if persisted {
            self.save_requested = true;
        }
        Some(
            SettingsUpdate {
                engine,
                keyboard_hook,
                reminders: snapshot.reminders,
                pet_name: snapshot.name,
                revision: pending.revision,
                groups,
                persisted,
            },
        )
    }

    /// Whether the user can reach the pet on the desktop: clicks do not pass through
    /// it, it is not to be left alone, and it is at home.
    pub fn interaction_available(&self) -> (r: bool)
        ensures
            r == self.reachable(),
    {
        !self.click_through && !self.dnd && !self.runaway_away
    }

    /// How the tray shows the pet.
    pub fn tray_icon_state(&self) -> (r: TrayIconState)
        ensures
            r == self.icon(),
    {
        if self.runaway_away {
            TrayIconState::LeftHome
        } else if !self.interaction_available() {
            TrayIconState::NotInteractive
        } else {
            TrayIconState::Normal
        }
    }

    /// What the tray has to show, where that has changed.
    pub open spec fn tray_news(self) -> Option<TraySync> {
        if self.tray_state != Some(self.icon()) || self.tray_left_home != self.runaway_away {
            Some(TraySync { icon: self.icon(), left_home: self.runaway_away })
        } else {
            None
        }
    }

    /// What the tray has to show, where that has changed since it was last told.
    pub fn sync_tray(&mut self) -> (r: Option<TraySync>)
        ensures
            r == old(self).tray_news(),
            *final(self) == old(self).tray_told(),
    {
        let icon: TrayIconState = self.tray_icon_state();
        let shown: bool = match self.tray_state {
            Some(s) => s == icon,
            None => false,
        };
        if shown && self.tray_left_home == self.runaway_away {
            return None;
        }
        self.tray_state = Some(icon);
        self.tray_left_home = self.runaway_away;
        Some(TraySync { icon, left_home: self.runaway_away })
    }

    /// The state once the tray shows what it should.
    pub open spec fn tray_told(self) -> CoreLoopState {
        CoreLoopState {
            tray_state: Some(self.icon()),
            tray_left_home: self.runaway_away,
            ..self
        }
    }

    /// Whether the window should be visible once the pet is away, or not, where that changes.
    pub open spec fn visibility(self, away: bool) -> Option<bool> {
        if away == self.runaway_away {
            None
        } else {
            Some(!away)
        }
    }

    /// Notes whether the pet is away; gives whether its window should be visible,
    /// where that changes.
    pub fn sync_runaway_visibility(&mut self, away: bool) -> (r: Option<bool>)
        ensures
            r == old(self).visibility(away),
            *final(self) == (CoreLoopState { runaway_away: away, ..*old(self) }),
    {
        if away == self.runaway_away {
            return None;
        }
        self.runaway_away = away;
        Some(!away)
    }

    /// Whether the pet is away from home.
    pub fn is_runaway_away(&self) -> (r: bool)
        ensures
            r == self.runaway_away,
    {
        self.runaway_away
    }

    /// The state where the save is also to be written if `wanted`.
    pub open spec fn to_save(self, wanted: bool) -> CoreLoopState {
        CoreLoopState { save_requested: self.save_requested || wanted, ..self }
    }

    /// Asks for the save to be written at once.
    pub fn request_save(&mut self)
        ensures
            *final(self) == old(self).to_save(true),
    {
        self.save_requested = true;
    }

    /// Whether the save was asked to be written; the request is taken, so that one
    /// request writes once, whether or not the writing succeeds.
    pub fn take_save_request(&mut self) -> (force: bool)
        ensures
            force == old(self).save_requested,
            *final(self) == (CoreLoopState { save_requested: false, ..*old(self) }),
    {
        let force: bool = self.save_requested;
        self.save_requested = false;
        force
    }

    /// Whether a round writes the save, and whether at once, and the state after that.
    pub open spec fn save_round(self, has_save: bool) -> (Option<bool>, CoreLoopState) {
        if has_save {
            (Some(self.save_requested), CoreLoopState { save_requested: false, ..self })
        } else {
            (None, self)
        }
    }

    /// What the second's round does with the save: nothing without one; otherwise it is
    /// written, at once where that was asked for, and the request is taken.
    pub fn save_tick(&mut self, has_save: bool) -> (force: Option<bool>)
        ensures
            (force, *final(self)) == old(self).save_round(has_save),
    {
        if has_save {
            Some(self.take_save_request())
        } else {
            None
        }
    }

    /// For how long the mood takes the user to be idle.
    pub open spec fn idle_time(self) -> u64 {
        if self.activity_sensing && self.presence_idle_ms is Some {
            self.presence_idle_ms->0
        } else {
            0
        }
    }

    /// For how long the mood takes the user to be idle: not at all where it is not
    /// known or must not be sensed.
    pub fn idle_for_mood(&self) -> (r: u64)
        ensures
            r == self.idle_time(),
    {
        if !self.activity_sensing {
            return 0;
        }
        match self.presence_idle_ms {
            Some(ms) => ms,
            None => 0,
        }
    }

    /// What interactions have added to the mood. It is fed in once; a paused session
    /// does not take it, so it stays.
    pub fn take_mood(&mut self, paused: bool) -> (r: Scalar)
        ensures
            r == old(self).pending_mood,
            *final(self) == old(self).told(paused),
    {
        let r: Scalar = self.pending_mood;
        if !paused {
            self.pending_mood = Scalar { bits: 0 };
        }
        r
    }

    /// The state once an interaction has added to the mood.
    pub open spec fn with_mood(self, delta: Scalar, sum: Scalar) -> CoreLoopState {
        CoreLoopState {
            pending_mood: if delta.finite() {
                sum
            } else {
                self.pending_mood
            },
            ..self
        }
    }

    /// Notes what an interaction adds to the mood, given the sum with what waits; a
    /// number that is not finite adds nothing.
    pub fn record_interaction_mood(&mut self, delta: Scalar, sum: Scalar)
        ensures
            *final(self) == old(self).with_mood(delta, sum),
    {
        if delta.is_finite() {
            self.pending_mood = sum;
        }
    }

    /// What interactions have added to the mood.
    pub fn pending_mood_delta(&self) -> (r: Scalar)
        ensures
            r == self.pending_mood,
    {
        self.pending_mood
    }

    /// Bubbles are silenced: the user is not to be disturbed, and that goes for bubbles.
    pub open spec fn silenced(self) -> bool {
        self.dnd && self.dnd_pause_bubbles
    }

    /// Whether bubbles are silenced.
    pub fn bubbles_silenced(&self) -> (r: bool)
        ensures
            r == self.silenced(),
    {
        self.dnd && self.dnd_pause_bubbles
    }

    /// The state after one sample.
    pub open spec fn sampled(self, event: PerceptionEvent) -> CoreLoopState {
        match event {
            PerceptionEvent::Cursor { pos } => CoreLoopState { cursor: Some(pos), ..self },
            PerceptionEvent::System { presence_idle_ms } => CoreLoopState {
                presence_idle_ms,
                ..self
            },
            PerceptionEvent::Windows | PerceptionEvent::Fullscreen | PerceptionEvent::Activity => {
                self
            },
        }
    }

    /// The state after all of `events`, first to last.
    pub open spec fn sampled_all(self, events: Seq<PerceptionEvent>) -> CoreLoopState
        decreases events.len(),
    {
        if events.len() == 0 {
            self
        } else {
            self.sampled_all(events.drop_last()).sampled(events.last())
        }
    }

    /// Takes a batch of samples; the last of each kind counts.
    pub fn apply_perception(&mut self, events: &Vec<PerceptionEvent>)
        ensures
            *final(self) == old(self).sampled_all(events@),
    {
        let mut i: usize = 0;
        while i < events.len()
            invariant
                i <= events@.len(),
                *self == old(self).sampled_all(events@.subrange(0, i as int)),
            decreases events@.len() - i,
        {
            let ghost head = events@.subrange(0, i + 1);
            assert(head.drop_last() =~= events@.subrange(0, i as int));
            match events[i] {
                PerceptionEvent::Cursor { pos } => {
                    self.cursor = Some(pos);
                },
                PerceptionEvent::System { presence_idle_ms } => {
                    self.presence_idle_ms = presence_idle_ms;
                },
                PerceptionEvent::Windows
                | PerceptionEvent::Fullscreen
                | PerceptionEvent::Activity => {},
            }
            i = i + 1;
        }
        assert(events@.subrange(0, i as int) =~= events@);
    }
}

/// How a switch is thrown that stands at `before` and is to stand at `after`; not at all where
/// it stands there.
pub open spec fn switched(before: bool, after: bool) -> Option<bool> {
    if after != before {
        Some(after)
    } else {
        None
    }
}

/// What the engines are given is what the settings say.
pub open spec fn engine_follows(
    engine: EngineSettings,
    settings: crate::bridge::settings::SettingsView,
) -> bool {
    &&& engine.sensitivity_value == settings.sensitivity_value
    &&& engine.easy_coax_mode == settings.easy_coax_mode
    &&& engine.click_feedback_enabled == settings.click_feedback_enabled
    &&& engine.roam_pace == settings.roam_pace
    &&& engine.name is Some <==> settings.name.len() > 0
    &&& engine.name matches Some(name) ==> name@ == settings.name
    &&& engine.catchphrase_enabled == settings.catchphrase_enabled
    &&& engine.catchphrase_frequency@ == settings.catchphrase_frequency
}

/// A request to write the save is served by the next round that has a save, and by that
/// round alone.
pub proof fn lemma_save_request_is_served_once(state: CoreLoopState)
    requires
        state.save_requested,
    ensures
        state.save_round(false) == (None::<bool>, state),
        state.save_round(true).0 == Some(true),
        state.save_round(true).1.save_round(true).0 == Some(false),
{
}

/// The tray is told once: a second time without a change tells it nothing.
pub proof fn lemma_tray_told_once(state: CoreLoopState)
    ensures
        state.tray_told().tray_state == Some(state.tray_told().icon()),
        state.tray_told().tray_left_home == state.tray_told().runaway_away,
        state.tray_told().tray_told() == state.tray_told(),
{
}

/// The tray shows the ordinary icon exactly where the pet can be reached, and shows
/// that it left home exactly where it is away.
pub proof fn lemma_icon_tells_reach(state: CoreLoopState)
    ensures
        state.icon() == TrayIconState::Normal <==> state.reachable(),
        state.icon() == TrayIconState::LeftHome <==> state.runaway_away,
{
}

/// The pet can be reached unless clicks pass through it, it is to be left alone, or it is away;
/// each of the three is enough. The tray says so, and says first that the pet is away.
pub proof fn lemma_reach_takes_all_three(state: CoreLoopState)
    ensures
        state.click_through ==> !state.reachable(),
        state.dnd ==> !state.reachable(),
        state.runaway_away ==> !state.reachable(),
        !state.click_through && !state.dnd && !state.runaway_away ==> state.reachable(),
        state.icon() == TrayIconState::LeftHome <==> state.runaway_away,
        state.icon() == TrayIconState::NotInteractive <==> !state.runaway_away && (state.dnd
            || state.click_through),
{
}

/// The tray is told exactly what it does not show yet: the icon, and whether to offer to call the
/// pet home, which it does where the pet is away.
pub proof fn lemma_tray_hears_the_news(state: CoreLoopState)
    ensures
        state.tray_news() is None <==> state.tray_state == Some(state.icon())
            && state.tray_left_home == state.runaway_away,
        state.tray_news() matches Some(news) ==> news.icon == state.icon() && news.left_home
            == state.runaway_away,
        state.tray_told().tray_news() is None,
        state == (CoreLoopState {
            tray_state: state.tray_state,
            tray_left_home: state.tray_left_home,
            ..state.tray_told()
        }),
{
}

/// The window disappears when the pet leaves and comes back when it does; while nothing changes
/// nothing is asked of it.
pub proof fn lemma_window_leaves_with_the_pet(state: CoreLoopState, away: bool)
    ensures
        state.visibility(away) == Some(false) <==> away && !state.runaway_away,
        state.visibility(away) == Some(true) <==> !away && state.runaway_away,
        state.visibility(away) is None <==> away == state.runaway_away,
{
}

/// The mood takes the user to be idle for as long as was seen, and not at all where nothing was
/// seen or nothing may be. Interactions reach it unless what they add is no finite number.
pub proof fn lemma_mood_knows_what_it_may(state: CoreLoopState, delta: Scalar, sum: Scalar)
    ensures
        state.activity_sensing ==> (state.presence_idle_ms matches Some(ms) ==> state.idle_time()
            == ms),
        !state.activity_sensing ==> state.idle_time() == 0,
        state.presence_idle_ms is None ==> state.idle_time() == 0,
        delta.finite() ==> state.with_mood(delta, sum).pending_mood == sum,
        !delta.finite() ==> state.with_mood(delta, sum) == state,
        state == (CoreLoopState {
            pending_mood: state.pending_mood,
            ..state.with_mood(delta, sum)
        }),
{
}

/// Of the samples the last of its kind counts: the cursor is where it was seen last, and the user
/// idle for as long as was seen last; samples of another kind change neither, and without a
/// sample of its kind each stays as it was. Nothing else changes.
pub proof fn lemma_last_sample_counts(state: CoreLoopState, events: Seq<PerceptionEvent>, k: int)
    ensures
        ({
            let after = state.sampled_all(events);
            &&& 0 <= k < events.len() && events[k] is Cursor && (forall|i: int|
                k < i < events.len() ==> !(#[trigger] events[i] is Cursor)) ==> (
            events[k] matches PerceptionEvent::Cursor { pos } && after.cursor == Some(pos))
            &&& 0 <= k < events.len() && events[k] is System && (forall|i: int|
                k < i < events.len() ==> !(#[trigger] events[i] is System)) ==> (
            events[k] matches PerceptionEvent::System { presence_idle_ms }
                && after.presence_idle_ms == presence_idle_ms)
            &&& (forall|i: int| 0 <= i < events.len() ==> !(#[trigger] events[i] is Cursor))
                ==> after.cursor == state.cursor
            &&& (forall|i: int| 0 <= i < events.len() ==> !(#[trigger] events[i] is System))
                ==> after.presence_idle_ms == state.presence_idle_ms
            &&& CoreLoopState {
                cursor: state.cursor,
                presence_idle_ms: state.presence_idle_ms,
                ..after
            } == state
        }),
    decreases events.len(),
{
    if events.len() > 0 {
        let before = events.drop_last();
        lemma_last_sample_counts(state, before, k);
        assert forall|i: int| 0 <= i < before.len() implies before[i] == events[i] by {}
        assert(events.last() == events[events.len() - 1]);
        if 0 <= k < before.len() && (forall|i: int|
            k < i < events.len() ==> !(#[trigger] events[i] is Cursor)) {
            assert(!(events[events.len() - 1] is Cursor));
            assert(forall|i: int| k < i < before.len() ==> !(#[trigger] before[i] is Cursor)) by {
                assert forall|i: int| k < i < before.len() implies !(
                #[trigger] before[i] is Cursor) by {
                    assert(!(events[i] is Cursor));
                }
            }
        }
        if 0 <= k < before.len() && (forall|i: int|
            k < i < events.len() ==> !(#[trigger] events[i] is System)) {
            assert(!(events[events.len() - 1] is System));
            assert forall|i: int| k < i < before.len() implies !(#[trigger] before[i] is System) by {
                assert(!(events[i] is System));
            }
        }
        if forall|i: int| 0 <= i < events.len() ==> !(#[trigger] events[i] is Cursor) {
            assert(!(events[events.len() - 1] is Cursor));
            assert forall|i: int| 0 <= i < before.len() implies !(#[trigger] before[i] is Cursor) by {
                assert(!(events[i] is Cursor));
            }
        }
        if forall|i: int| 0 <= i < events.len() ==> !(#[trigger] events[i] is System) {
            assert(!(events[events.len() - 1] is System));
            assert forall|i: int| 0 <= i < before.len() implies !(#[trigger] before[i] is System) by {
                assert(!(events[i] is System));
            }
        }
    }
}

/// The switches follow the settings, each its own, and nothing else does.
pub proof fn lemma_switches_follow_settings(
    state: CoreLoopState,
    settings: crate::bridge::settings::SettingsView,
)
    ensures
        ({
            let after = state.with_settings(settings);
            &&& after.dnd == settings.do_not_disturb
            &&& after.click_through == settings.click_through
            &&& after.activity_sensing == settings.activity_sensing
            &&& after.auto_roam == settings.auto_roam
            &&& CoreLoopState {
                dnd: state.dnd,
                click_through: state.click_through,
                activity_sensing: state.activity_sensing,
                auto_roam: state.auto_roam,
                ..after
            } == state
        }),
{
}

/// A request to write the save lasts until a round has a save to write, and no round makes one
/// up: it is written at once exactly where that was asked for.
pub proof fn lemma_save_is_forced_on_request(state: CoreLoopState, has_save: bool)
    ensures
        state.save_round(has_save).0 is Some <==> has_save,
        state.save_round(has_save).0 == Some(true) <==> has_save && state.save_requested,
        !has_save ==> state.save_round(has_save).1 == state,
        has_save ==> !state.save_round(has_save).1.save_requested,
        state == (CoreLoopState {
            save_requested: state.save_requested,
            ..state.save_round(has_save).1
        }),
{
}

/// A request to write the save stays until it is served: no later step withdraws it, and asking
/// changes nothing else.
pub proof fn lemma_save_requests_stay(state: CoreLoopState, wanted: bool, also: bool)
    ensures
        state.save_requested ==> state.to_save(wanted).save_requested,
        wanted ==> state.to_save(wanted).save_requested,
        !wanted ==> state.to_save(wanted) == state,
        state == (CoreLoopState {
            save_requested: state.save_requested,
            ..state.to_save(wanted)
        }),
        state.to_save(wanted).to_save(also) == state.to_save(also).to_save(wanted),
{
}

/// A switch is thrown only to where it does not stand, and stands there afterwards.
pub proof fn lemma_switches_are_thrown_over(before: bool, after: bool)
    ensures
        switched(before, after) matches Some(on) ==> on == after && on == !before,
        switched(before, after) is None <==> before == after,
{
}

/// The engines get every setting as it is; a name without characters is not handed on.
pub proof fn lemma_engines_get_the_settings(
    engine: EngineSettings,
    settings: crate::bridge::settings::SettingsView,
)
    requires
        engine_follows(engine, settings),
    ensures
        engine.sensitivity_value == settings.sensitivity_value,
        engine.easy_coax_mode == settings.easy_coax_mode,
        engine.click_feedback_enabled == settings.click_feedback_enabled,
        engine.roam_pace == settings.roam_pace,
        engine.catchphrase_enabled == settings.catchphrase_enabled,
        engine.catchphrase_frequency@ == settings.catchphrase_frequency,
        settings.name.len() == 0 ==> engine.name is None,
        settings.name.len() > 0 ==> engine.name is Some && engine.name->0@ == settings.name,
{
}

} // verus!
