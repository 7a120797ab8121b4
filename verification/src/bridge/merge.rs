//! How patches change settings, and the state that collects them.

use crate::bridge::settings::{
    maybe_clone, scalars, PatchView, RemindersPatch, RemindersSnapshot, SettingsPatch, SettingsSnapshot,
    SettingsView, HALF_BITS, SENSITIVITY_TOP_BITS, TWO_BITS,
};
use crate::scalar::Scalar;
use crate::text;
use vstd::prelude::*;

verus! {

/// The policy that a word stands for, in either spelling of its first letter.
pub open spec fn policy_of(word: Seq<char>) -> Option<Seq<char>> {
    if word == "Always"@ || word == "always"@ {
        Some("Always"@)
    } else if word == "BelowFullscreen"@ || word == "belowFullscreen"@ {
        Some("BelowFullscreen"@)
    } else if word == "Never"@ || word == "never"@ {
        Some("Never"@)
    } else {
        None
    }
}

/// The frequency that a word stands for.
pub open spec fn frequency_of(word: Seq<char>) -> Option<Seq<char>> {
    if word == "off"@ || word == "low"@ || word == "standard"@ || word == "high"@ {
        Some(word)
    } else {
        None
    }
}

/// The proper spelling of a policy; white space around it does not count.
pub fn normalize_topmost_policy(value: &str) -> (r: Option<&'static str>)
    ensures
        r matches Some(word) ==> policy_of(text::trimmed(value@)) == Some(word@),
        r is None ==> policy_of(text::trimmed(value@)) is None,
{
    let word: String = text::trim(value);
    let w: &str = word.as_str();
    if text::equal(w, "Always") || text::equal(w, "always") {
        Some("Always")
    } else if text::equal(w, "BelowFullscreen") || text::equal(w, "belowFullscreen") {
        Some("BelowFullscreen")
    } else if text::equal(w, "Never") || text::equal(w, "never") {
        Some("Never")
    } else {
        None
    }
}

/// The frequency that a word stands for; white space around it does not count.
pub fn normalize_catchphrase_frequency(value: &str) -> (r: Option<&'static str>)
    ensures
        r matches Some(word) ==> frequency_of(text::trimmed(value@)) == Some(word@),
        r is None ==> frequency_of(text::trimmed(value@)) is None,
{
    let word: String = text::trim(value);
    let w: &str = word.as_str();
    if text::equal(w, "off") {
        Some("off")
    } else if text::equal(w, "low") {
        Some("low")
    } else if text::equal(w, "standard") {
        Some("standard")
    } else if text::equal(w, "high") {
        Some("high")
    } else {
        None
    }
}

/// `value` held between `low` and `high`.
pub open spec fn held(value: u32, low: u32, high: u32) -> u32 {
    if value < low {
        low
    } else if value > high {
        high
    } else {
        value
    }
}

fn hold(value: u32, low: u32, high: u32) -> (r: u32)
    requires
        low <= high,
    ensures
        r == held(value, low, high),
{
    if value < low {
        low
    } else if value > high {
        high
    } else {
        value
    }
}

/// The range that a list of choices spans: from the first to the last, in whichever
/// order they stand; a missing end is `low` or `high`.
pub open spec fn span(choices: Seq<Scalar>, low: u32, high: u32) -> (Scalar, Scalar) {
    let first = if choices.len() > 0 {
        choices[0]
    } else {
        Scalar { bits: low }
    };
    let last = if choices.len() > 0 {
        choices.last()
    } else {
        Scalar { bits: high }
    };
    (first.lesser(last), last.greater(first))
}

/// Some end of the range that a list of choices spans is a number.
pub open spec fn spans(choices: Seq<Scalar>) -> bool {
    choices.len() > 0 ==> !choices[0].nan() || !choices.last().nan()
}

fn span_of(choices: &Vec<Scalar>, low: u32, high: u32) -> (r: (Scalar, Scalar))
    ensures
        r == span(choices@, low, high),
{
    let n: usize = choices.len();
    let first: Scalar = if n > 0 {
        choices[0]
    } else {
        Scalar { bits: low }
    };
    let last: Scalar = if n > 0 {
        choices[n - 1]
    } else {
        Scalar { bits: high }
    };
    (first.min(last), last.max(first))
}

/// The reminders after a patch: intervals are held in their range.
pub open spec fn merged_reminders(
    now: RemindersSnapshot,
    patch: RemindersPatch,
) -> RemindersSnapshot {
    let (low, high) = (now.interval_min_min, now.interval_max_min);
    RemindersSnapshot {
        sedentary_enabled: match patch.sedentary_enabled {
            Some(v) => v,
            None => now.sedentary_enabled,
        },
        sedentary_interval_min: match patch.sedentary_interval_min {
            Some(v) => held(v, low, high),
            None => now.sedentary_interval_min,
        },
        water_enabled: match patch.water_enabled {
            Some(v) => v,
            None => now.water_enabled,
        },
        water_interval_min: match patch.water_interval_min {
            Some(v) => held(v, low, high),
            None => now.water_interval_min,
        },
        ..now
    }
}

impl SettingsView {
    /// The range in which the pace may lie.
    pub open spec fn pace_span(self) -> (Scalar, Scalar) {
        span(self.roam_pace_options, HALF_BITS, TWO_BITS)
    }

    /// The range in which the sensitivity may lie.
    pub open spec fn sensitivity_span(self) -> (Scalar, Scalar) {
        span(self.sensitivity_options, HALF_BITS, SENSITIVITY_TOP_BITS)
    }

    /// The settings after a patch. An empty name brings back the one that the pet comes
    /// with. Numbers are held in their ranges; words that mean nothing, an empty language
    /// and numbers that are not finite change nothing.
    #[verifier::opaque]
    pub open spec fn merged(self, patch: PatchView) -> SettingsView {
        SettingsView {
            name: match patch.name {
                Some(v) => if crate::text::trimmed(v).len() > 0 {
                    crate::text::trimmed(v)
                } else {
                    self.default_name
                },
                None => self.name,
            },
            scale_percent: match patch.scale_percent {
                Some(v) => held(v, self.scale_min_percent, self.scale_max_percent),
                None => self.scale_percent,
            },
            opacity_percent: match patch.opacity_percent {
                Some(v) => held(v, self.opacity_min_percent, self.opacity_max_percent),
                None => self.opacity_percent,
            },
            language: match patch.language {
                Some(v) => if crate::text::trimmed(v).len() > 0 {
                    crate::text::trimmed(v)
                } else {
                    self.language
                },
                None => self.language,
            },
            master_volume_percent: match patch.master_volume_percent {
                Some(v) => held(v, self.volume_min_percent, self.volume_max_percent),
                None => self.master_volume_percent,
            },
            muted: match patch.muted {
                Some(v) => v,
                None => self.muted,
            },
            auto_roam: match patch.auto_roam {
                Some(v) => v,
                None => self.auto_roam,
            },
            roam_pace: match patch.roam_pace {
                Some(v) => if v.finite() {
                    v.clamped(self.pace_span().0, self.pace_span().1)
                } else {
                    self.roam_pace
                },
                None => self.roam_pace,
            },
            do_not_disturb: match patch.do_not_disturb {
                Some(v) => v,
                None => self.do_not_disturb,
            },
            easy_coax_mode: match patch.easy_coax_mode {
                Some(v) => v,
                None => self.easy_coax_mode,
            },
            click_through: match patch.click_through {
                Some(v) => v,
                None => self.click_through,
            },
            always_on_top_policy: match patch.always_on_top_policy {
                Some(v) => match policy_of(crate::text::trimmed(v)) {
                    Some(word) => word,
                    None => self.always_on_top_policy,
                },
                None => self.always_on_top_policy,
            },
            autostart: match patch.autostart {
                Some(v) => v,
                None => self.autostart,
            },
            sensitivity_value: match patch.sensitivity_value {
                Some(v) => if v.finite() {
                    v.clamped(self.sensitivity_span().0, self.sensitivity_span().1)
                } else {
                    self.sensitivity_value
                },
                None => self.sensitivity_value,
            },
            catchphrase_enabled: match patch.catchphrase_enabled {
                Some(v) => v,
                None => self.catchphrase_enabled,
            },
            catchphrase_frequency: match patch.catchphrase_frequency {
                Some(v) => match frequency_of(crate::text::trimmed(v)) {
                    Some(word) => word,
                    None => self.catchphrase_frequency,
                },
                None => self.catchphrase_frequency,
            },
            click_feedback_enabled: match patch.click_feedback_enabled {
                Some(v) => v,
                None => self.click_feedback_enabled,
            },
            activity_sensing: match patch.activity_sensing {
                Some(v) => v,
                None => self.activity_sensing,
            },
            reminders: match patch.reminders {
                Some(r) => merged_reminders(self.reminders, r),
                None => self.reminders,
            },
            ..self
        }
    }

    /// The settings with one more change counted.
    pub open spec fn recounted(self) -> SettingsView {
        SettingsView {
            revision: if self.revision == u64::MAX {
                u64::MAX
            } else {
                (self.revision + 1) as u64
            },
            ..self
        }
    }

    /// The ranges are ranges: no lower end lies above its upper end.
    pub open spec fn ranged(self) -> bool {
        &&& self.scale_min_percent <= self.scale_max_percent
        &&& self.opacity_min_percent <= self.opacity_max_percent
        &&& self.volume_min_percent <= self.volume_max_percent
        &&& self.reminders.interval_min_min <= self.reminders.interval_max_min
        &&& spans(self.roam_pace_options)
        &&& spans(self.sensitivity_options)
    }

    /// Where the patch gives a number, there is a range to hold it in.
    pub open spec fn takes(self, patch: PatchView) -> bool {
        &&& patch.scale_percent is Some ==> self.scale_min_percent <= self.scale_max_percent
        &&& patch.opacity_percent is Some ==> self.opacity_min_percent
            <= self.opacity_max_percent
        &&& patch.master_volume_percent is Some ==> self.volume_min_percent
            <= self.volume_max_percent
        &&& (patch.roam_pace matches Some(v) && v.finite()) ==> spans(self.roam_pace_options)
        &&& (patch.sensitivity_value matches Some(v) && v.finite()) ==> spans(
            self.sensitivity_options,
        )
        &&& (patch.reminders matches Some(r) && (r.sedentary_interval_min is Some
            || r.water_interval_min is Some)) ==> self.reminders.interval_min_min
            <= self.reminders.interval_max_min
    }

    /// Every value lies in its range, and every word is one of the known ones.
    pub open spec fn settled(self) -> bool {
        &&& self.ranged()
        &&& self.scale_min_percent <= self.scale_percent <= self.scale_max_percent
        &&& self.opacity_min_percent <= self.opacity_percent <= self.opacity_max_percent
        &&& self.volume_min_percent <= self.master_volume_percent <= self.volume_max_percent
        &&& !self.roam_pace.nan()
        &&& self.pace_span().0.key() <= self.roam_pace.key() <= self.pace_span().1.key()
        &&& !self.sensitivity_value.nan()
        &&& self.sensitivity_span().0.key() <= self.sensitivity_value.key()
            <= self.sensitivity_span().1.key()
        &&& self.reminders.interval_min_min <= self.reminders.sedentary_interval_min
            <= self.reminders.interval_max_min
        &&& self.reminders.interval_min_min <= self.reminders.water_interval_min
            <= self.reminders.interval_max_min
        &&& policy_of(self.always_on_top_policy) == Some(self.always_on_top_policy)
        &&& frequency_of(self.catchphrase_frequency) == Some(self.catchphrase_frequency)
    }
}

fn pick<T: Copy>(change: Option<T>, now: T) -> (r: T)
    ensures
        r == match change {
            Some(v) => v,
            None => now,
        },
{
    match change {
        Some(v) => v,
        None => now,
    }
}

fn pick_held(change: Option<u32>, now: u32, low: u32, high: u32) -> (r: u32)
    requires
        change is Some ==> low <= high,
    ensures
        r == match change {
            Some(v) => held(v, low, high),
            None => now,
        },
{
    match change {
        Some(v) => hold(v, low, high),
        None => now,
    }
}

fn pick_number(
    change: Option<Scalar>,
    now: Scalar,
    choices: &Vec<Scalar>,
    low: u32,
    high: u32,
) -> (r: Scalar)
    requires
        (change matches Some(v) && v.finite()) ==> spans(choices@),
        !(Scalar { bits: low }).nan(),
        !(Scalar { bits: high }).nan(),
    ensures
        r == match change {
            Some(v) => if v.finite() {
                v.clamped(span(choices@, low, high).0, span(choices@, low, high).1)
            } else {
                now
            },
            None => now,
        },
{
    match change {
        Some(v) => if v.is_finite() {
            let (bottom, top): (Scalar, Scalar) = span_of(choices, low, high);
            v.clamp_to(bottom, top)
        } else {
            now
        },
        None => now,
    }
}

fn pick_name(change: &Option<String>, now: &String, factory: &String) -> (r: String)
    ensures
        r@ == match *change {
            Some(v) => if text::trimmed(v@).len() > 0 {
                text::trimmed(v@)
            } else {
                factory@
            },
            None => now@,
        },
{
    match change {
        Some(v) => {
            let word: String = text::trim(v.as_str());
            if word.as_str().is_empty() {
                factory.clone()
            } else {
                word
            }
        },
        None => now.clone(),
    }
}

fn pick_language(change: &Option<String>, now: &String) -> (r: String)
    ensures
        r@ == match *change {
            Some(v) => if text::trimmed(v@).len() > 0 {
                text::trimmed(v@)
            } else {
                now@
            },
            None => now@,
        },
{
    if let Some(v) = change {
        let word: String = text::trim(v.as_str());
        if !word.as_str().is_empty() {
            return word;
        }
    }
    now.clone()
}

fn pick_policy(change: &Option<String>, now: &String) -> (r: String)
    ensures
        r@ == match *change {
            Some(v) => match policy_of(text::trimmed(v@)) {
                Some(word) => word,
                None => now@,
            },
            None => now@,
        },
{
    if let Some(v) = change {
        if let Some(word) = normalize_topmost_policy(v.as_str()) {
            return word.to_owned();
        }
    }
    now.clone()
}

fn pick_frequency(change: &Option<String>, now: &String) -> (r: String)
    ensures
        r@ == match *change {
            Some(v) => match frequency_of(text::trimmed(v@)) {
                Some(word) => word,
                None => now@,
            },
            None => now@,
        },
{
    if let Some(v) = change {
        if let Some(word) = normalize_catchphrase_frequency(v.as_str()) {
            return word.to_owned();
        }
    }
    now.clone()
}

/// The snapshot after a patch.
#[verifier::rlimit(40)]
fn patched(now: &SettingsSnapshot, patch: &SettingsPatch) -> (r: SettingsSnapshot)
    requires
        now@.takes(patch@),
    ensures
        r@ == now@.merged(patch@),
{
    reveal(SettingsView::merged);
    let r: SettingsSnapshot = SettingsSnapshot {
        version: now.version,
        revision: now.revision,
        writable: now.writable,
        name: pick_name(&patch.name, &now.name, &now.default_name),
        default_name: now.default_name.clone(),
        scale_percent: pick_held(
            patch.scale_percent,
            now.scale_percent,
            now.scale_min_percent,
            now.scale_max_percent,
        ),
        scale_min_percent: now.scale_min_percent,
        scale_max_percent: now.scale_max_percent,
        scale_step_percent: now.scale_step_percent,
        opacity_percent: pick_held(
            patch.opacity_percent,
            now.opacity_percent,
            now.opacity_min_percent,
            now.opacity_max_percent,
        ),
        opacity_min_percent: now.opacity_min_percent,
        opacity_max_percent: now.opacity_max_percent,
        language: pick_language(&patch.language, &now.language),
        master_volume_percent: pick_held(
            patch.master_volume_percent,
            now.master_volume_percent,
            now.volume_min_percent,
            now.volume_max_percent,
        ),
        volume_min_percent: now.volume_min_percent,
        volume_max_percent: now.volume_max_percent,
        muted: pick(patch.muted, now.muted),
        auto_roam: pick(patch.auto_roam, now.auto_roam),
        roam_pace: pick_number(
            patch.roam_pace,
            now.roam_pace,
            &now.roam_pace_options,
            HALF_BITS,
            TWO_BITS,
        ),
        roam_pace_options: scalars(&now.roam_pace_options),
        do_not_disturb: pick(patch.do_not_disturb, now.do_not_disturb),
        easy_coax_mode: pick(patch.easy_coax_mode, now.easy_coax_mode),
        click_through: pick(patch.click_through, now.click_through),
        always_on_top_policy: pick_policy(&patch.always_on_top_policy, &now.always_on_top_policy),
        autostart: pick(patch.autostart, now.autostart),
        sensitivity_value: pick_number(
            patch.sensitivity_value,
            now.sensitivity_value,
            &now.sensitivity_options,
            HALF_BITS,
            SENSITIVITY_TOP_BITS,
        ),
        sensitivity_options: scalars(&now.sensitivity_options),
        catchphrase_enabled: pick(patch.catchphrase_enabled, now.catchphrase_enabled),
        catchphrase_frequency: pick_frequency(
            &patch.catchphrase_frequency,
            &now.catchphrase_frequency,
        ),
        click_feedback_enabled: pick(patch.click_feedback_enabled, now.click_feedback_enabled),
        activity_sensing: pick(patch.activity_sensing, now.activity_sensing),
        reminders: merge_reminders(now.reminders, patch.reminders),
    };
    assert(r@ =~= now@.merged(patch@));
    r
}

/// Applies a patch to a snapshot.
///
/// Where the patch gives a number, the snapshot has to hold a range for it.
pub fn merge_patch(snapshot: &mut SettingsSnapshot, patch: &SettingsPatch)
    requires
        old(snapshot)@.takes(patch@),
    ensures
        final(snapshot)@ == old(snapshot)@.merged(patch@),
{
    *snapshot = patched(snapshot, patch);
}

fn merge_reminders(now: RemindersSnapshot, patch: Option<RemindersPatch>) -> (r: RemindersSnapshot)
    requires
        (patch matches Some(p) && (p.sedentary_interval_min is Some || p.water_interval_min is Some))
            ==> now.interval_min_min <= now.interval_max_min,
    ensures
        r == match patch {
            Some(p) => merged_reminders(now, p),
            None => now,
        },
{
    match patch {
        Some(p) => RemindersSnapshot {
            sedentary_enabled: pick(p.sedentary_enabled, now.sedentary_enabled),
            sedentary_interval_min: pick_held(
                p.sedentary_interval_min,
                now.sedentary_interval_min,
                now.interval_min_min,
                now.interval_max_min,
            ),
            water_enabled: pick(p.water_enabled, now.water_enabled),
            water_interval_min: pick_held(
                p.water_interval_min,
                now.water_interval_min,
                now.interval_min_min,
                now.interval_max_min,
            ),
            interval_min_min: now.interval_min_min,
            interval_max_min: now.interval_max_min,
            ack_resets_timer: now.ack_resets_timer,
        },
        None => now,
    }
}

fn later<T: Copy>(next: Option<T>, now: Option<T>) -> (r: Option<T>)
    ensures
        r == crate::bridge::settings::or(next, now),
{
    if next.is_some() {
        next
    } else {
        now
    }
}

fn later_text(next: &Option<String>, now: &Option<String>) -> (r: Option<String>)
    ensures
        r == crate::bridge::settings::or(*next, *now),
{
    if next.is_some() {
        maybe_clone(next)
    } else {
        maybe_clone(now)
    }
}

fn later_reminders(next: Option<RemindersPatch>, now: Option<RemindersPatch>) -> (r: Option<
    RemindersPatch,
>)
    ensures
        r == crate::bridge::settings::joined_reminders(now, next),
{
    match next {
        None => now,
        Some(n) => {
            let base: RemindersPatch = match now {
                Some(b) => b,
                None => RemindersPatch::default(),
            };
            Some(
                RemindersPatch {
                    sedentary_enabled: later(n.sedentary_enabled, base.sedentary_enabled),
                    sedentary_interval_min: later(
                        n.sedentary_interval_min,
                        base.sedentary_interval_min,
                    ),
                    water_enabled: later(n.water_enabled, base.water_enabled),
                    water_interval_min: later(n.water_interval_min, base.water_interval_min),
                },
            )
        },
    }
}

/// Adds a later patch to an earlier one: what the later one names counts.
pub fn merge_patch_value(base: &mut SettingsPatch, patch: &SettingsPatch)
    ensures
        final(base)@ == old(base)@.followed_by(patch@),
{
    base.name = later_text(&patch.name, &base.name);
    base.scale_percent = later(patch.scale_percent, base.scale_percent);
    base.opacity_percent = later(patch.opacity_percent, base.opacity_percent);
    base.language = later_text(&patch.language, &base.language);
    base.master_volume_percent = later(patch.master_volume_percent, base.master_volume_percent);
    base.muted = later(patch.muted, base.muted);
    base.auto_roam = later(patch.auto_roam, base.auto_roam);
    base.roam_pace = later(patch.roam_pace, base.roam_pace);
    base.do_not_disturb = later(patch.do_not_disturb, base.do_not_disturb);
    base.easy_coax_mode = later(patch.easy_coax_mode, base.easy_coax_mode);
    base.click_through = later(patch.click_through, base.click_through);
    base.always_on_top_policy =
        later_text(&patch.always_on_top_policy, &base.always_on_top_policy);
    base.autostart = later(patch.autostart, base.autostart);
    base.sensitivity_value = later(patch.sensitivity_value, base.sensitivity_value);
    base.catchphrase_enabled = later(patch.catchphrase_enabled, base.catchphrase_enabled);
    base.catchphrase_frequency =
        later_text(&patch.catchphrase_frequency, &base.catchphrase_frequency);
    base.click_feedback_enabled =
        later(patch.click_feedback_enabled, base.click_feedback_enabled);
    base.activity_sensing = later(patch.activity_sensing, base.activity_sensing);
    base.reminders = later_reminders(patch.reminders, base.reminders);
    assert(base@ =~= old(base)@.followed_by(patch@));
}

/// Counts a change of the settings; gives the new revision.
fn count_change(snapshot: &mut SettingsSnapshot) -> (r: u64)
    ensures
        final(snapshot)@ == old(snapshot)@.recounted(),
        r == final(snapshot)@.revision,
{
    snapshot.revision = snapshot.revision.saturating_add(1);
    assert(snapshot@ =~= old(snapshot)@.recounted());
    snapshot.revision
}

/// A patch that waits for the core loop, with the revision that it led to.
#[derive(Debug, PartialEq)]
pub struct PendingSettings {
    pub revision: u64,
    pub patch: SettingsPatch,
}

/// The settings in effect, with the changes that the core loop has not taken yet.
#[derive(Debug)]
pub struct SettingsState {
    snapshot: SettingsSnapshot,
    pending: Option<SettingsPatch>,
}

/// The content of a patch that may be missing.
pub open spec fn maybe_patch(patch: Option<SettingsPatch>) -> Option<PatchView> {
    match patch {
        Some(p) => Some(p@),
        None => None,
    }
}

/// What waits after one more patch.
pub open spec fn joined(waiting: Option<PatchView>, patch: PatchView) -> PatchView {
    match waiting {
        Some(before) => before.followed_by(patch),
        None => patch,
    }
}

fn join_waiting(waiting: Option<SettingsPatch>, patch: &SettingsPatch) -> (r: SettingsPatch)
    ensures
        r@ == joined(maybe_patch(waiting), patch@),
{
    match waiting {
        Some(before) => {
            let mut all: SettingsPatch = before;
            merge_patch_value(&mut all, patch);
            all
        },
        None => patch.clone(),
    }
}

impl SettingsState {
    /// The settings in effect.
    pub closed spec fn settings(self) -> SettingsView {
        self.snapshot@
    }

    /// The changes that the core loop has not taken yet.
    pub closed spec fn waiting(self) -> Option<PatchView> {
        maybe_patch(self.pending)
    }

    /// A state without waiting changes.
    pub fn new(snapshot: SettingsSnapshot) -> (r: Self)
        ensures
            r.settings() == snapshot@,
            r.waiting() is None,
    {
        SettingsState { snapshot, pending: None }
    }

    /// The settings in effect.
    pub fn snapshot(&self) -> (r: SettingsSnapshot)
        ensures
            r@ == self.settings(),
    {
        self.snapshot.clone()
    }

    /// Applies a patch, counts the change, and leaves the patch for the core loop,
    /// joined to what waits there already; gives the new revision.
    pub fn apply(&mut self, patch: &SettingsPatch) -> (r: Option<u64>)
        requires
            old(self).settings().takes(patch@),
        ensures
            final(self).settings() == old(self).settings().merged(patch@).recounted(),
            r == Some(final(self).settings().revision),
            final(self).waiting() == Some(joined(old(self).waiting(), patch@)),
    {
        merge_patch(&mut self.snapshot, patch);
        let revision: u64 = count_change(&mut self.snapshot);
        let waiting: Option<SettingsPatch> = self.pending.take();
        self.pending = Some(join_waiting(waiting, patch));
        Some(revision)
    }

    /// Replaces the settings as a whole; what waits for the core loop stays.
    pub fn replace_snapshot(&mut self, snapshot: SettingsSnapshot)
        ensures
            final(self).settings() == snapshot@,
            final(self).waiting() == old(self).waiting(),
    {
        self.snapshot = snapshot;
    }

    /// Hands the waiting changes to the core loop.
    pub fn take_pending(&mut self) -> (r: Option<PendingSettings>)
        ensures
            final(self).settings() == old(self).settings(),
            final(self).waiting() is None,
            r is Some <==> old(self).waiting() is Some,
            r matches Some(p) ==> old(self).waiting() == Some(p.patch@) && p.revision == old(
                self,
            ).settings().revision,
    {
        match self.pending.take() {
            Some(patch) => Some(PendingSettings { revision: self.snapshot.revision, patch }),
            None => None,
        }
    }
}

impl Default for SettingsState {
    /// The values that the pet comes with.
    fn default() -> (r: Self)
        ensures
            r.settings() == SettingsView::factory(),
            r.waiting() is None,
    {
        SettingsState::new(SettingsSnapshot::default())
    }
}

/// The patch that changes nothing changes nothing.
pub proof fn lemma_nothing_merges_to_itself(s: SettingsView)
    ensures
        s.merged(PatchView::nothing()) == s,
{
    reveal(SettingsView::merged);
    assert(s.merged(PatchView::nothing()) =~= s);
}

/// No patch brings settled values out of their ranges.
pub proof fn lemma_merge_stays_settled(s: SettingsView, patch: PatchView)
    requires
        s.settled(),
    ensures
        s.takes(patch),
        s.merged(patch).settled(),
{
    reveal(SettingsView::merged);
    let t = s.merged(patch);
    assert(t.pace_span() == s.pace_span());
    assert(t.sensitivity_span() == s.sensitivity_span());
    lemma_policy_words();
    lemma_frequency_words();
}

proof fn lemma_policy_words()
    ensures
        forall|w: Seq<char>| #[trigger]
            policy_of(w) matches Some(p) ==> policy_of(p) == Some(p),
{
    reveal_strlit("Always");
    reveal_strlit("always");
    reveal_strlit("BelowFullscreen");
    reveal_strlit("belowFullscreen");
    reveal_strlit("Never");
    assert("BelowFullscreen"@.len() == 15 && "Always"@.len() == 6 && "always"@.len() == 6
        && "Never"@.len() == 5 && "belowFullscreen"@.len() == 15);
}

proof fn lemma_frequency_words()
    ensures
        forall|w: Seq<char>| #[trigger]
            frequency_of(w) matches Some(p) ==> frequency_of(p) == Some(p),
{
}

/// Applying a patch twice is applying it once.
pub proof fn lemma_merge_once(s: SettingsView, patch: PatchView)
    requires
        s.takes(patch),
    ensures
        s.merged(patch).merged(patch) == s.merged(patch),
{
    reveal(SettingsView::merged);
    assert(s.merged(patch).pace_span() == s.pace_span());
    assert(s.merged(patch).sensitivity_span() == s.sensitivity_span());
    assert(s.merged(patch).merged(patch) =~= s.merged(patch));
}

/// A patch leaves the ranges, the choices, the version and the revision alone.
pub proof fn lemma_merge_keeps_ranges(s: SettingsView, patch: PatchView)
    ensures
        ({
            let t = s.merged(patch);
            &&& t.version == s.version
            &&& t.revision == s.revision
            &&& t.writable == s.writable
            &&& t.default_name == s.default_name
            &&& t.scale_min_percent == s.scale_min_percent
            &&& t.scale_max_percent == s.scale_max_percent
            &&& t.scale_step_percent == s.scale_step_percent
            &&& t.opacity_min_percent == s.opacity_min_percent
            &&& t.opacity_max_percent == s.opacity_max_percent
            &&& t.volume_min_percent == s.volume_min_percent
            &&& t.volume_max_percent == s.volume_max_percent
            &&& t.roam_pace_options == s.roam_pace_options
            &&& t.sensitivity_options == s.sensitivity_options
            &&& t.reminders.interval_min_min == s.reminders.interval_min_min
            &&& t.reminders.interval_max_min == s.reminders.interval_max_min
            &&& t.reminders.ack_resets_timer == s.reminders.ack_resets_timer
        }),
{
    reveal(SettingsView::merged);
}

/// Each applied patch counts one change, as long as the counter can.
pub proof fn lemma_apply_counts(s: SettingsView, patch: PatchView)
    ensures
        s.revision < u64::MAX ==> s.merged(patch).recounted().revision == s.revision + 1,
        s.revision == u64::MAX ==> s.merged(patch).recounted().revision == u64::MAX,
{
    lemma_merge_keeps_ranges(s, patch);
}

impl PatchView {
    /// Every word and number of the patch means something.
    pub open spec fn meaningful(self) -> bool {
        &&& self.language matches Some(v) ==> crate::text::trimmed(v).len() > 0
        &&& self.roam_pace matches Some(v) ==> v.finite()
        &&& self.sensitivity_value matches Some(v) ==> v.finite()
        &&& self.always_on_top_policy matches Some(v) ==> policy_of(crate::text::trimmed(v)) is Some
        &&& self.catchphrase_frequency matches Some(v) ==> frequency_of(
            crate::text::trimmed(v),
        ) is Some
    }
}

/// Two patches one after the other do what their join does at once, where every word
/// and number of the later one means something.
pub proof fn lemma_join_is_sequence(s: SettingsView, first: PatchView, later: PatchView)
    requires
        later.meaningful(),
    ensures
        s.merged(first).merged(later) == s.merged(first.followed_by(later)),
{
    reveal(SettingsView::merged);
    assert(s.merged(first).merged(later) =~= s.merged(first.followed_by(later)));
}

/// Joining patches is associative, and the patch that changes nothing is neutral.
pub proof fn lemma_join_laws(a: PatchView, b: PatchView, c: PatchView)
    ensures
        a.followed_by(b).followed_by(c) == a.followed_by(b.followed_by(c)),
        a.followed_by(PatchView::nothing()) == a,
        PatchView::nothing().followed_by(a) == a,
{
    assert(a.followed_by(b).followed_by(c) =~= a.followed_by(b.followed_by(c)));
    assert(a.followed_by(PatchView::nothing()) =~= a);
    assert(PatchView::nothing().followed_by(a) =~= a);
}

/// The join of two patches touches exactly the groups that one of them touches.
pub proof fn lemma_join_groups(a: PatchView, b: PatchView)
    ensures
        a.followed_by(b).touches_pet() == (a.touches_pet() || b.touches_pet()),
        a.followed_by(b).touches_appearance() == (a.touches_appearance()
            || b.touches_appearance()),
        a.followed_by(b).touches_audio() == (a.touches_audio() || b.touches_audio()),
        a.followed_by(b).touches_behavior() == (a.touches_behavior() || b.touches_behavior()),
        a.followed_by(b).touches_interaction() == (a.touches_interaction()
            || b.touches_interaction()),
        a.followed_by(b).touches_reminders() == (a.touches_reminders() || b.touches_reminders()),
{
}

/// No name of the list has `n` characters.
spec fn absent(list: Seq<Seq<char>>, n: nat) -> bool {
    forall|k: int| 0 <= k < list.len() ==> (#[trigger] list[k]).len() != n
}

proof fn lemma_listed_distinct(list: Seq<Seq<char>>, name: Seq<char>, there: bool)
    requires
        list.no_duplicates(),
        absent(list, name.len()),
    ensures
        ({
            let next = list + crate::bridge::settings::listed(name, there);
            &&& next.no_duplicates()
            &&& next.len() <= list.len() + 1
            &&& forall|n: nat| absent(list, n) && n != name.len() ==> #[trigger] absent(next, n)
        }),
{
}

/// No group is listed twice.
pub proof fn lemma_groups_distinct(p: PatchView)
    ensures
        p.group_names().len() <= 6,
        p.group_names().no_duplicates(),
{
    reveal_strlit("pet");
    reveal_strlit("appearance");
    reveal_strlit("audio");
    reveal_strlit("behavior");
    reveal_strlit("interaction");
    reveal_strlit("reminders");
    let none = Seq::<Seq<char>>::empty();
    let l0 = crate::bridge::settings::listed("pet"@, p.touches_pet());
    assert(none + l0 =~= l0);
    lemma_listed_distinct(none, "pet"@, p.touches_pet());
    assert(absent(l0, 10) && absent(l0, 5) && absent(l0, 8) && absent(l0, 11) && absent(l0, 9));
    let l1 = l0 + crate::bridge::settings::listed("appearance"@, p.touches_appearance());
    lemma_listed_distinct(l0, "appearance"@, p.touches_appearance());
    assert(absent(l1, 5) && absent(l1, 8) && absent(l1, 11) && absent(l1, 9));
    let l2 = l1 + crate::bridge::settings::listed("audio"@, p.touches_audio());
    lemma_listed_distinct(l1, "audio"@, p.touches_audio());
    assert(absent(l2, 8) && absent(l2, 11) && absent(l2, 9));
    let l3 = l2 + crate::bridge::settings::listed("behavior"@, p.touches_behavior());
    lemma_listed_distinct(l2, "behavior"@, p.touches_behavior());
    assert(absent(l3, 11) && absent(l3, 9));
    let l4 = l3 + crate::bridge::settings::listed("interaction"@, p.touches_interaction());
    lemma_listed_distinct(l3, "interaction"@, p.touches_interaction());
    assert(absent(l4, 9));
    lemma_listed_distinct(l4, "reminders"@, p.touches_reminders());
}

/// The settings that the pet comes with lie in their ranges.
pub proof fn lemma_factory_settled()
    ensures
        SettingsView::factory().settled(),
{
    let f = SettingsView::factory();
    assert(f.roam_pace_options.len() == 3);
    assert(f.pace_span().0 == f.roam_pace_options[0]);
}

/// `after` is what was asked for, or `before` where nothing was.
pub open spec fn follows<T>(asked: Option<T>, before: T, after: T) -> bool {
    &&& asked is None ==> after == before
    &&& asked is Some ==> after == asked->0
}

/// `after` is the number in the range that is nearest to what was asked for, or `before` where
/// nothing was.
pub open spec fn follows_within(asked: Option<u32>, before: u32, after: u32, low: u32, high: u32) -> bool {
    &&& asked is None ==> after == before
    &&& asked matches Some(v) ==> {
        &&& low <= after <= high
        &&& low <= v <= high ==> after == v
        &&& v < low ==> after == low
        &&& v > high ==> after == high
    }
}

/// `after` is the number in the range that is nearest to a finite one that was asked for, or
/// `before` where none was.
pub open spec fn follows_between(
    asked: Option<Scalar>,
    before: Scalar,
    after: Scalar,
    ends: (Scalar, Scalar),
) -> bool {
    &&& asked is None ==> after == before
    &&& asked matches Some(v) ==> {
        &&& !v.finite() ==> after == before
        &&& v.finite() ==> !after.below(ends.0) && !ends.1.below(after)
        &&& v.finite() && !v.below(ends.0) && !ends.1.below(v) ==> after == v
        &&& v.below(ends.0) && v.finite() ==> after == ends.0
        &&& ends.1.below(v) && v.finite() ==> after == ends.1
    }
}

/// A patch puts every switch that it names where it names it.
pub proof fn lemma_switches_follow_the_patch(s: SettingsView, patch: PatchView)
    ensures
        ({
            let t = s.merged(patch);
            &&& follows(patch.muted, s.muted, t.muted)
            &&& follows(patch.auto_roam, s.auto_roam, t.auto_roam)
            &&& follows(patch.do_not_disturb, s.do_not_disturb, t.do_not_disturb)
            &&& follows(patch.easy_coax_mode, s.easy_coax_mode, t.easy_coax_mode)
            &&& follows(patch.click_through, s.click_through, t.click_through)
            &&& follows(patch.autostart, s.autostart, t.autostart)
            &&& follows(patch.catchphrase_enabled, s.catchphrase_enabled, t.catchphrase_enabled)
            &&& follows(
                patch.click_feedback_enabled,
                s.click_feedback_enabled,
                t.click_feedback_enabled,
            )
            &&& follows(patch.activity_sensing, s.activity_sensing, t.activity_sensing)
            &&& patch.reminders is None ==> t.reminders == s.reminders
            &&& patch.reminders matches Some(r) ==> {
                &&& follows(
                    r.sedentary_enabled,
                    s.reminders.sedentary_enabled,
                    t.reminders.sedentary_enabled,
                )
                &&& follows(r.water_enabled, s.reminders.water_enabled, t.reminders.water_enabled)
            }
        }),
{
    reveal(SettingsView::merged);
}

/// A patch moves every number that it names as near to the named one as its range lets it.
pub proof fn lemma_numbers_follow_the_patch(s: SettingsView, patch: PatchView)
    requires
        s.takes(patch),
    ensures
        ({
            let t = s.merged(patch);
            &&& follows_within(
                patch.scale_percent,
                s.scale_percent,
                t.scale_percent,
                s.scale_min_percent,
                s.scale_max_percent,
            )
            &&& follows_within(
                patch.opacity_percent,
                s.opacity_percent,
                t.opacity_percent,
                s.opacity_min_percent,
                s.opacity_max_percent,
            )
            &&& follows_within(
                patch.master_volume_percent,
                s.master_volume_percent,
                t.master_volume_percent,
                s.volume_min_percent,
                s.volume_max_percent,
            )
            &&& follows_between(patch.roam_pace, s.roam_pace, t.roam_pace, s.pace_span())
            &&& follows_between(
                patch.sensitivity_value,
                s.sensitivity_value,
                t.sensitivity_value,
                s.sensitivity_span(),
            )
            &&& patch.reminders matches Some(r) ==> {
                let (low, high) = (s.reminders.interval_min_min, s.reminders.interval_max_min);
                &&& follows_within(
                    r.sedentary_interval_min,
                    s.reminders.sedentary_interval_min,
                    t.reminders.sedentary_interval_min,
                    low,
                    high,
                )
                &&& follows_within(
                    r.water_interval_min,
                    s.reminders.water_interval_min,
                    t.reminders.water_interval_min,
                    low,
                    high,
                )
            }
        }),
{
    reveal(SettingsView::merged);
}

/// Words are taken without the white space around them. A name without characters gives way to
/// the one that the pet comes with; a language without characters, an unknown policy and an
/// unknown frequency leave what was there.
pub proof fn lemma_words_follow_the_patch(s: SettingsView, patch: PatchView)
    ensures
        ({
            let t = s.merged(patch);
            &&& patch.name is None ==> t.name == s.name
            &&& patch.name matches Some(v) ==> {
                let word = crate::text::trimmed(v);
                &&& word.len() > 0 ==> t.name == word
                &&& word.len() == 0 ==> t.name == s.default_name
            }
            &&& patch.language is None ==> t.language == s.language
            &&& patch.language matches Some(v) ==> {
                let word = crate::text::trimmed(v);
                &&& word.len() > 0 ==> t.language == word
                &&& word.len() == 0 ==> t.language == s.language
            }
            &&& patch.always_on_top_policy is None ==> t.always_on_top_policy
                == s.always_on_top_policy
            &&& patch.always_on_top_policy matches Some(v) ==> {
                let word = crate::text::trimmed(v);
                &&& word == "Always"@ || word == "always"@ ==> t.always_on_top_policy == "Always"@
                &&& word == "BelowFullscreen"@ || word == "belowFullscreen"@
                    ==> t.always_on_top_policy == "BelowFullscreen"@
                &&& word == "Never"@ || word == "never"@ ==> t.always_on_top_policy == "Never"@
                &&& policy_of(word) is None ==> t.always_on_top_policy == s.always_on_top_policy
            }
            &&& patch.catchphrase_frequency is None ==> t.catchphrase_frequency
                == s.catchphrase_frequency
            &&& patch.catchphrase_frequency matches Some(v) ==> {
                let word = crate::text::trimmed(v);
                &&& frequency_of(word) is Some ==> t.catchphrase_frequency == word
                &&& frequency_of(word) is None ==> t.catchphrase_frequency
                    == s.catchphrase_frequency
            }
        }),
{
    reveal(SettingsView::merged);
    lemma_known_words(crate::text::trimmed(patch.always_on_top_policy->0));
}

/// Three policies are known, each with a large or a small first letter, and four frequencies.
pub proof fn lemma_known_words(word: Seq<char>)
    ensures
        policy_of(word) == Some("Always"@) <==> word == "Always"@ || word == "always"@,
        policy_of(word) == Some("BelowFullscreen"@) <==> word == "BelowFullscreen"@ || word
            == "belowFullscreen"@,
        policy_of(word) == Some("Never"@) <==> word == "Never"@ || word == "never"@,
        policy_of(word) matches Some(p) ==> p == "Always"@ || p == "BelowFullscreen"@ || p
            == "Never"@,
        frequency_of(word) is Some <==> word == "off"@ || word == "low"@ || word == "standard"@
            || word == "high"@,
{
    reveal_strlit("Always");
    reveal_strlit("always");
    reveal_strlit("BelowFullscreen");
    reveal_strlit("belowFullscreen");
    reveal_strlit("Never");
    reveal_strlit("never");
    assert("BelowFullscreen"@.len() == 15 && "Always"@.len() == 6 && "always"@.len() == 6
        && "Never"@.len() == 5 && "belowFullscreen"@.len() == 15 && "never"@.len() == 5);
}

/// The choices span the range between the first and the last of them, whichever is the smaller.
/// Without choices the range is the one that is given.
pub proof fn lemma_choices_span_their_ends(choices: Seq<Scalar>, low: u32, high: u32)
    requires
        choices.len() > 0 ==> !choices[0].nan() && !choices.last().nan(),
        !(Scalar { bits: low }).nan(),
        !(Scalar { bits: high }).nan(),
        (Scalar { bits: low }).key() <= (Scalar { bits: high }).key(),
    ensures
        ({
            let (bottom, top) = span(choices, low, high);
            &&& choices.len() == 0 ==> bottom.bits == low && top.bits == high
            &&& choices.len() > 0 ==> {
                &&& !top.below(bottom)
                &&& (bottom == choices[0] && top == choices.last()) || (bottom == choices.last()
                    && top == choices[0])
            }
        }),
{
}

/// Counting a change changes the count and nothing else.
pub proof fn lemma_counting_leaves_the_values(s: SettingsView)
    ensures
        s == (SettingsView { revision: s.revision, ..s.recounted() }),
        s.recounted().revision >= s.revision,
{
}

/// What waits for the core loop does what the patches did one after the other.
pub proof fn lemma_waiting_changes_add_up(s: SettingsView, waiting: PatchView, patch: PatchView)
    requires
        patch.meaningful(),
    ensures
        joined(None, patch) == patch,
        s.merged(joined(Some(waiting), patch)) == s.merged(waiting).merged(patch),
{
    lemma_join_is_sequence(s, waiting, patch);
}

/// A group is listed exactly where the patch names one of its settings.
pub proof fn lemma_groups_hold_their_settings(p: PatchView)
    ensures
        p.group_names().contains("pet"@) <==> p.name is Some,
        p.group_names().contains("appearance"@) <==> p.scale_percent is Some || p.opacity_percent
            is Some || p.language is Some,
        p.group_names().contains("audio"@) <==> p.master_volume_percent is Some || p.muted is Some,
        p.group_names().contains("behavior"@) <==> p.auto_roam is Some || p.roam_pace is Some
            || p.do_not_disturb is Some || p.easy_coax_mode is Some || p.click_through is Some
            || p.always_on_top_policy is Some || p.autostart is Some,
        p.group_names().contains("interaction"@) <==> p.sensitivity_value is Some
            || p.catchphrase_enabled is Some || p.catchphrase_frequency is Some
            || p.click_feedback_enabled is Some || p.activity_sensing is Some,
        p.group_names().contains("reminders"@) <==> (p.reminders matches Some(r) && (
        r.sedentary_enabled is Some || r.sedentary_interval_min is Some || r.water_enabled is Some
            || r.water_interval_min is Some)),
{
    reveal_strlit("pet");
    reveal_strlit("appearance");
    reveal_strlit("audio");
    reveal_strlit("behavior");
    reveal_strlit("interaction");
    reveal_strlit("reminders");
    assert("pet"@.len() == 3 && "appearance"@.len() == 10 && "audio"@.len() == 5
        && "behavior"@.len() == 8 && "interaction"@.len() == 11 && "reminders"@.len() == 9);
    let l0 = crate::bridge::settings::listed("pet"@, p.touches_pet());
    let l1 = l0 + crate::bridge::settings::listed("appearance"@, p.touches_appearance());
    let l2 = l1 + crate::bridge::settings::listed("audio"@, p.touches_audio());
    let l3 = l2 + crate::bridge::settings::listed("behavior"@, p.touches_behavior());
    let l4 = l3 + crate::bridge::settings::listed("interaction"@, p.touches_interaction());
    let none = Seq::<Seq<char>>::empty();
    assert(none + l0 =~= l0);
    lemma_listed_contains(none, "pet"@, p.touches_pet());
    lemma_listed_contains(l0, "appearance"@, p.touches_appearance());
    lemma_listed_contains(l1, "audio"@, p.touches_audio());
    lemma_listed_contains(l2, "behavior"@, p.touches_behavior());
    lemma_listed_contains(l3, "interaction"@, p.touches_interaction());
    lemma_listed_contains(l4, "reminders"@, p.touches_reminders());
}

proof fn lemma_listed_contains(list: Seq<Seq<char>>, name: Seq<char>, there: bool)
    ensures
        forall|w: Seq<char>| #[trigger]
            (list + crate::bridge::settings::listed(name, there)).contains(w) <==> list.contains(w)
                || (there && w == name),
{
    let next = list + crate::bridge::settings::listed(name, there);
    assert forall|w: Seq<char>| #[trigger] next.contains(w) <==> list.contains(w) || (there && w
        == name) by {
        if list.contains(w) {
            let i = choose|i: int| 0 <= i < list.len() && list[i] == w;
            assert(next[i] == w);
        }
        if there {
            assert(next[list.len() as int] == name);
        }
        if next.contains(w) {
            let i = choose|i: int| 0 <= i < next.len() && next[i] == w;
            if i < list.len() {
                assert(list[i] == w);
            }
        }
    }
}

/// Without choices the pace lies between a half and two, the sensitivity between a half and one
/// and six tenths.
pub proof fn lemma_ranges_without_choices(s: SettingsView)
    ensures
        s.roam_pace_options.len() == 0 ==> s.pace_span().0.bits == 0x3f00_0000 && s.pace_span().1.bits
            == 0x4000_0000,
        s.sensitivity_options.len() == 0 ==> s.sensitivity_span().0.bits == 0x3f00_0000
            && s.sensitivity_span().1.bits == 0x3fcc_cccd,
{
}

} // verus!
