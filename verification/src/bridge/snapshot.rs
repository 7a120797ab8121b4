//! The settings in effect: what the pet comes with, and what the user has kept.
//!
//! Ranges and choices always come from the configuration. Values come from the
//! save where there is one; without a save they come from the configuration too, as a
//! preview that cannot be kept.

use crate::bridge::settings::{
    scalars, PatchView, RemindersPatch, RemindersSnapshot, SettingsPatch, SettingsSnapshot,
    SettingsView, SETTINGS_VERSION,
};
use crate::scalar::Scalar;
use crate::text;
use vstd::prelude::*;

verus! {

/// How often the pet uses its catchphrase.
#[derive(Clone, Copy, Debug, PartialEq, Eq, Structural)]
pub enum CatchphraseFrequency {
    Off,
    Low,
    Standard,
    High,
}

impl CatchphraseFrequency {
    /// The word for the frequency.
    pub open spec fn word(self) -> Seq<char> {
        match self {
            CatchphraseFrequency::Off => "off"@,
            CatchphraseFrequency::Low => "low"@,
            CatchphraseFrequency::Standard => "standard"@,
            CatchphraseFrequency::High => "high"@,
        }
    }

    /// The frequency that a word stands for.
    pub open spec fn of(word: Seq<char>) -> Option<CatchphraseFrequency> {
        if word == "off"@ {
            Some(CatchphraseFrequency::Off)
        } else if word == "low"@ {
            Some(CatchphraseFrequency::Low)
        } else if word == "standard"@ {
            Some(CatchphraseFrequency::Standard)
        } else if word == "high"@ {
            Some(CatchphraseFrequency::High)
        } else {
            None
        }
    }

    /// The word for the frequency.
    pub fn as_cfg_name(self) -> (r: &'static str)
        ensures
            r@ == self.word(),
    {
        match self {
            CatchphraseFrequency::Off => "off",
            CatchphraseFrequency::Low => "low",
            CatchphraseFrequency::Standard => "standard",
            CatchphraseFrequency::High => "high",
        }
    }

    /// The frequency that a word stands for, if it is exactly one of the four.
    pub fn from_word(word: &str) -> (r: Option<CatchphraseFrequency>)
        ensures
            r == CatchphraseFrequency::of(word@),
    {
        if text::equal(word, "off") {
            Some(CatchphraseFrequency::Off)
        } else if text::equal(word, "low") {
            Some(CatchphraseFrequency::Low)
        } else if text::equal(word, "standard") {
            Some(CatchphraseFrequency::Standard)
        } else if text::equal(word, "high") {
            Some(CatchphraseFrequency::High)
        } else {
            None
        }
    }
}

/// What the pet comes with: its name, the values, the ranges and the choices.
#[derive(Debug, PartialEq)]
pub struct ConfigDefaults {
    pub default_name: String,
    pub scale_percent: u32,
    pub opacity_percent: u32,
    pub language: String,
    pub master_volume_percent: u32,
    pub muted: bool,
    pub auto_roam: bool,
    pub roam_pace: Scalar,
    pub do_not_disturb: bool,
    pub easy_coax_mode: bool,
    pub click_through: bool,
    pub always_on_top_policy: String,
    pub autostart: bool,
    pub sensitivity_value: Scalar,
    pub catchphrase_enabled: bool,
    pub catchphrase_frequency: CatchphraseFrequency,
    pub activity_sensing: bool,
    pub scale_min_percent: u32,
    pub scale_max_percent: u32,
    pub scale_step_percent: u32,
    pub opacity_min_percent: u32,
    pub opacity_max_percent: u32,
    pub volume_min_percent: u32,
    pub volume_max_percent: u32,
    pub roam_pace_options: Vec<Scalar>,
    pub sensitivity_options: Vec<Scalar>,
    pub click_feedback_enabled: bool,
    pub reminders: RemindersSnapshot,
}

/// The mathematical content of [`ConfigDefaults`].
#[verifier::ext_equal]
pub struct ConfigView {
    pub default_name: Seq<char>,
    pub scale_percent: u32,
    pub opacity_percent: u32,
    pub language: Seq<char>,
    pub master_volume_percent: u32,
    pub muted: bool,
    pub auto_roam: bool,
    pub roam_pace: Scalar,
    pub do_not_disturb: bool,
    pub easy_coax_mode: bool,
    pub click_through: bool,
    pub always_on_top_policy: Seq<char>,
    pub autostart: bool,
    pub sensitivity_value: Scalar,
    pub catchphrase_enabled: bool,
    pub catchphrase_frequency: CatchphraseFrequency,
    pub activity_sensing: bool,
    pub scale_min_percent: u32,
    pub scale_max_percent: u32,
    pub scale_step_percent: u32,
    pub opacity_min_percent: u32,
    pub opacity_max_percent: u32,
    pub volume_min_percent: u32,
    pub volume_max_percent: u32,
    pub roam_pace_options: Seq<Scalar>,
    pub sensitivity_options: Seq<Scalar>,
    pub click_feedback_enabled: bool,
    pub reminders: RemindersSnapshot,
}

impl View for ConfigDefaults {
    type V = ConfigView;

    open spec fn view(&self) -> ConfigView {
        ConfigView {
            default_name: self.default_name@,
            scale_percent: self.scale_percent,
            opacity_percent: self.opacity_percent,
            language: self.language@,
            master_volume_percent: self.master_volume_percent,
            muted: self.muted,
            auto_roam: self.auto_roam,
            roam_pace: self.roam_pace,
            do_not_disturb: self.do_not_disturb,
            easy_coax_mode: self.easy_coax_mode,
            click_through: self.click_through,
            always_on_top_policy: self.always_on_top_policy@,
            autostart: self.autostart,
            sensitivity_value: self.sensitivity_value,
            catchphrase_enabled: self.catchphrase_enabled,
            catchphrase_frequency: self.catchphrase_frequency,
            activity_sensing: self.activity_sensing,
            scale_min_percent: self.scale_min_percent,
            scale_max_percent: self.scale_max_percent,
            scale_step_percent: self.scale_step_percent,
            opacity_min_percent: self.opacity_min_percent,
            opacity_max_percent: self.opacity_max_percent,
            volume_min_percent: self.volume_min_percent,
            volume_max_percent: self.volume_max_percent,
            roam_pace_options: self.roam_pace_options@,
            sensitivity_options: self.sensitivity_options@,
            click_feedback_enabled: self.click_feedback_enabled,
            reminders: self.reminders,
        }
    }
}

/// Reminder preferences as they are kept.
#[derive(Clone, Copy, Debug, PartialEq, Eq, Structural)]
pub struct SavedReminders {
    pub sedentary_enabled: bool,
    pub sedentary_interval_min: u32,
    pub water_enabled: bool,
    pub water_interval_min: u32,
}

/// The settings as they are kept in the save.
#[derive(Debug, PartialEq)]
pub struct SavedSettings {
    /// Whether the save may be written.
    pub writable: bool,
    pub pet_name: String,
    pub catchphrase_enabled: bool,
    pub catchphrase_frequency: CatchphraseFrequency,
    pub scale_percent: u32,
    pub opacity_percent: u32,
    pub language: String,
    pub master_volume_percent: u32,
    pub muted: bool,
    pub auto_roam: bool,
    pub roam_pace: Scalar,
    pub do_not_disturb: bool,
    pub easy_coax_mode: bool,
    pub click_through: bool,
    pub always_on_top_policy: String,
    pub autostart: bool,
    pub emotion_sensitivity: Scalar,
    pub activity_sensing: bool,
    pub reminders: SavedReminders,
}

/// The mathematical content of [`SavedSettings`].
#[verifier::ext_equal]
pub struct SavedView {
    pub writable: bool,
    pub pet_name: Seq<char>,
    pub catchphrase_enabled: bool,
    pub catchphrase_frequency: CatchphraseFrequency,
    pub scale_percent: u32,
    pub opacity_percent: u32,
    pub language: Seq<char>,
    pub master_volume_percent: u32,
    pub muted: bool,
    pub auto_roam: bool,
    pub roam_pace: Scalar,
    pub do_not_disturb: bool,
    pub easy_coax_mode: bool,
    pub click_through: bool,
    pub always_on_top_policy: Seq<char>,
    pub autostart: bool,
    pub emotion_sensitivity: Scalar,
    pub activity_sensing: bool,
    pub reminders: SavedReminders,
}

impl View for SavedSettings {
    type V = SavedView;

    open spec fn view(&self) -> SavedView {
        SavedView {
            writable: self.writable,
            pet_name: self.pet_name@,
            catchphrase_enabled: self.catchphrase_enabled,
            catchphrase_frequency: self.catchphrase_frequency,
            scale_percent: self.scale_percent,
            opacity_percent: self.opacity_percent,
            language: self.language@,
            master_volume_percent: self.master_volume_percent,
            muted: self.muted,
            auto_roam: self.auto_roam,
            roam_pace: self.roam_pace,
            do_not_disturb: self.do_not_disturb,
            easy_coax_mode: self.easy_coax_mode,
            click_through: self.click_through,
            always_on_top_policy: self.always_on_top_policy@,
            autostart: self.autostart,
            emotion_sensitivity: self.emotion_sensitivity,
            activity_sensing: self.activity_sensing,
            reminders: self.reminders,
        }
    }
}

impl ConfigView {
    /// The name of the pet: the one that was given to it, or else the one it comes with.
    pub open spec fn called(self, given: Seq<char>) -> Seq<char> {
        if given.len() > 0 {
            given
        } else {
            self.default_name
        }
    }

    /// The settings without a save: all of them as the pet comes with them; nothing can
    /// be kept.
    pub open spec fn preview(self) -> SettingsView {
        SettingsView {
            version: SETTINGS_VERSION,
            revision: 0,
            writable: false,
            name: self.default_name,
            default_name: self.default_name,
            scale_percent: self.scale_percent,
            scale_min_percent: self.scale_min_percent,
            scale_max_percent: self.scale_max_percent,
            scale_step_percent: self.scale_step_percent,
            opacity_percent: self.opacity_percent,
            opacity_min_percent: self.opacity_min_percent,
            opacity_max_percent: self.opacity_max_percent,
            language: self.language,
            master_volume_percent: self.master_volume_percent,
            volume_min_percent: self.volume_min_percent,
            volume_max_percent: self.volume_max_percent,
            muted: self.muted,
            auto_roam: self.auto_roam,
            roam_pace: self.roam_pace,
            roam_pace_options: self.roam_pace_options,
            do_not_disturb: self.do_not_disturb,
            easy_coax_mode: self.easy_coax_mode,
            click_through: self.click_through,
            always_on_top_policy: self.always_on_top_policy,
            autostart: self.autostart,
            sensitivity_value: self.sensitivity_value,
            sensitivity_options: self.sensitivity_options,
            catchphrase_enabled: self.catchphrase_enabled,
            catchphrase_frequency: self.catchphrase_frequency.word(),
            click_feedback_enabled: self.click_feedback_enabled,
            activity_sensing: self.activity_sensing,
            reminders: self.reminders,
        }
    }

    /// The settings with a save: the ranges of the configuration around the values of
    /// the save.
    pub open spec fn with(self, saved: SavedView) -> SettingsView {
        SettingsView {
            version: SETTINGS_VERSION,
            revision: 0,
            writable: saved.writable,
            name: self.called(saved.pet_name),
            default_name: self.default_name,
            scale_percent: saved.scale_percent,
            scale_min_percent: self.scale_min_percent,
            scale_max_percent: self.scale_max_percent,
            scale_step_percent: self.scale_step_percent,
            opacity_percent: saved.opacity_percent,
            opacity_min_percent: self.opacity_min_percent,
            opacity_max_percent: self.opacity_max_percent,
            language: saved.language,
            master_volume_percent: saved.master_volume_percent,
            volume_min_percent: self.volume_min_percent,
            volume_max_percent: self.volume_max_percent,
            muted: saved.muted,
            auto_roam: saved.auto_roam,
            roam_pace: saved.roam_pace,
            roam_pace_options: self.roam_pace_options,
            do_not_disturb: saved.do_not_disturb,
            easy_coax_mode: saved.easy_coax_mode,
            click_through: saved.click_through,
            always_on_top_policy: saved.always_on_top_policy,
            autostart: saved.autostart,
            sensitivity_value: saved.emotion_sensitivity,
            sensitivity_options: self.sensitivity_options,
            catchphrase_enabled: saved.catchphrase_enabled,
            catchphrase_frequency: saved.catchphrase_frequency.word(),
            click_feedback_enabled: self.click_feedback_enabled,
            activity_sensing: saved.activity_sensing,
            reminders: RemindersSnapshot {
                sedentary_enabled: saved.reminders.sedentary_enabled,
                sedentary_interval_min: saved.reminders.sedentary_interval_min,
                water_enabled: saved.reminders.water_enabled,
                water_interval_min: saved.reminders.water_interval_min,
                interval_min_min: self.reminders.interval_min_min,
                interval_max_min: self.reminders.interval_max_min,
                ack_resets_timer: self.reminders.ack_resets_timer,
            },
        }
    }
}

/// The settings in effect, from the configuration and the save.
pub fn build_settings_snapshot(
    config: &ConfigDefaults,
    save: Option<&SavedSettings>,
) -> (r: SettingsSnapshot)
    ensures
        save matches Some(saved) ==> r@ == config@.with(saved@),
        save is None ==> r@ == config@.preview(),
{
    match save {
        None => preview_snapshot(config),
        Some(saved) => saved_snapshot(config, saved),
    }
}

fn preview_snapshot(config: &ConfigDefaults) -> (r: SettingsSnapshot)
    ensures
        r@ == config@.preview(),
{
    let r: SettingsSnapshot = SettingsSnapshot {
        version: SETTINGS_VERSION,
        revision: 0,
        writable: false,
        name: config.default_name.clone(),
        default_name: config.default_name.clone(),
        scale_percent: config.scale_percent,
        scale_min_percent: config.scale_min_percent,
        scale_max_percent: config.scale_max_percent,
        scale_step_percent: config.scale_step_percent,
        opacity_percent: config.opacity_percent,
        opacity_min_percent: config.opacity_min_percent,
        opacity_max_percent: config.opacity_max_percent,
        language: config.language.clone(),
        master_volume_percent: config.master_volume_percent,
        volume_min_percent: config.volume_min_percent,
        volume_max_percent: config.volume_max_percent,
        muted: config.muted,
        auto_roam: config.auto_roam,
        roam_pace: config.roam_pace,
        roam_pace_options: scalars(&config.roam_pace_options),
        do_not_disturb: config.do_not_disturb,
        easy_coax_mode: config.easy_coax_mode,
        click_through: config.click_through,
        always_on_top_policy: config.always_on_top_policy.clone(),
        autostart: config.autostart,
        sensitivity_value: config.sensitivity_value,
        sensitivity_options: scalars(&config.sensitivity_options),
        catchphrase_enabled: config.catchphrase_enabled,
        catchphrase_frequency: config.catchphrase_frequency.as_cfg_name().to_owned(),
        click_feedback_enabled: config.click_feedback_enabled,
        activity_sensing: config.activity_sensing,
        reminders: config.reminders,
    };
    assert(r@ =~= config@.preview());
    r
}

fn effective_name(config: &ConfigDefaults, saved: &SavedSettings) -> (r: String)
    ensures
        r@ == config@.called(saved@.pet_name),
{
    if saved.pet_name.as_str().is_empty() {
        config.default_name.clone()
    } else {
        saved.pet_name.clone()
    }
}

fn saved_snapshot(config: &ConfigDefaults, saved: &SavedSettings) -> (r: SettingsSnapshot)
    ensures
        r@ == config@.with(saved@),
{
    let r: SettingsSnapshot = SettingsSnapshot {
        version: SETTINGS_VERSION,
        revision: 0,
        writable: saved.writable,
        name: effective_name(config, saved),
        default_name: config.default_name.clone(),
        scale_percent: saved.scale_percent,
        scale_min_percent: config.scale_min_percent,
        scale_max_percent: config.scale_max_percent,
        scale_step_percent: config.scale_step_percent,
        opacity_percent: saved.opacity_percent,
        opacity_min_percent: config.opacity_min_percent,
        opacity_max_percent: config.opacity_max_percent,
        language: saved.language.clone(),
        master_volume_percent: saved.master_volume_percent,
        volume_min_percent: config.volume_min_percent,
        volume_max_percent: config.volume_max_percent,
        muted: saved.muted,
        auto_roam: saved.auto_roam,
        roam_pace: saved.roam_pace,
        roam_pace_options: scalars(&config.roam_pace_options),
        do_not_disturb: saved.do_not_disturb,
        easy_coax_mode: saved.easy_coax_mode,
        click_through: saved.click_through,
        always_on_top_policy: saved.always_on_top_policy.clone(),
        autostart: saved.autostart,
        sensitivity_value: saved.emotion_sensitivity,
        sensitivity_options: scalars(&config.sensitivity_options),
        catchphrase_enabled: saved.catchphrase_enabled,
        catchphrase_frequency: saved.catchphrase_frequency.as_cfg_name().to_owned(),
        click_feedback_enabled: config.click_feedback_enabled,
        activity_sensing: saved.activity_sensing,
        reminders: RemindersSnapshot {
            sedentary_enabled: saved.reminders.sedentary_enabled,
            sedentary_interval_min: saved.reminders.sedentary_interval_min,
            water_enabled: saved.reminders.water_enabled,
            water_interval_min: saved.reminders.water_interval_min,
            interval_min_min: config.reminders.interval_min_min,
            interval_max_min: config.reminders.interval_max_min,
            ack_resets_timer: config.reminders.ack_resets_timer,
        },
    };
    assert(r@ =~= config@.with(saved@));
    r
}

/// `change` where it is there, `now` where it is not.
pub open spec fn kept<T>(change: Option<T>, now: T) -> T {
    match change {
        Some(v) => v,
        None => now,
    }
}

impl SavedView {
    /// The save after a patch is kept: the values that the patch names, as it names
    /// them. A frequency counts only where it is exactly one of the four words; the
    /// feedback on clicks is not kept.
    pub open spec fn stored(self, patch: PatchView) -> SavedView {
        SavedView {
            writable: self.writable,
            pet_name: kept(patch.name, self.pet_name),
            catchphrase_frequency: match patch.catchphrase_frequency {
                Some(word) => kept(CatchphraseFrequency::of(word), self.catchphrase_frequency),
                None => self.catchphrase_frequency,
            },
            emotion_sensitivity: kept(patch.sensitivity_value, self.emotion_sensitivity),
            catchphrase_enabled: kept(patch.catchphrase_enabled, self.catchphrase_enabled),
            scale_percent: kept(patch.scale_percent, self.scale_percent),
            opacity_percent: kept(patch.opacity_percent, self.opacity_percent),
            language: kept(patch.language, self.language),
            master_volume_percent: kept(patch.master_volume_percent, self.master_volume_percent),
            muted: kept(patch.muted, self.muted),
            auto_roam: kept(patch.auto_roam, self.auto_roam),
            roam_pace: kept(patch.roam_pace, self.roam_pace),
            do_not_disturb: kept(patch.do_not_disturb, self.do_not_disturb),
            easy_coax_mode: kept(patch.easy_coax_mode, self.easy_coax_mode),
            click_through: kept(patch.click_through, self.click_through),
            always_on_top_policy: kept(patch.always_on_top_policy, self.always_on_top_policy),
            autostart: kept(patch.autostart, self.autostart),
            activity_sensing: kept(patch.activity_sensing, self.activity_sensing),
            reminders: stored_reminders(self.reminders, patch.reminders),
        }
    }
}

/// The kept reminder preferences after a patch.
pub open spec fn stored_reminders(
    now: SavedReminders,
    patch: Option<RemindersPatch>,
) -> SavedReminders {
    match patch {
        Some(p) => SavedReminders {
            sedentary_enabled: kept(p.sedentary_enabled, now.sedentary_enabled),
            sedentary_interval_min: kept(p.sedentary_interval_min, now.sedentary_interval_min),
            water_enabled: kept(p.water_enabled, now.water_enabled),
            water_interval_min: kept(p.water_interval_min, now.water_interval_min),
        },
        None => now,
    }
}

fn keep<T: Copy>(change: Option<T>, now: T) -> (r: T)
    ensures
        r == kept(change, now),
{
    match change {
        Some(v) => v,
        None => now,
    }
}

fn keep_text(change: &Option<String>, now: &String) -> (r: String)
    ensures
        r == kept(*change, *now),
{
    match change {
        Some(v) => v.clone(),
        None => now.clone(),
    }
}

fn keep_frequency(change: &Option<String>, now: CatchphraseFrequency) -> (r: CatchphraseFrequency)
    ensures
        r == match *change {
            Some(word) => kept(CatchphraseFrequency::of(word@), now),
            None => now,
        },
{
    match change {
        Some(word) => keep(CatchphraseFrequency::from_word(word.as_str()), now),
        None => now,
    }
}

fn keep_reminders(change: Option<RemindersPatch>, now: SavedReminders) -> (r: SavedReminders)
    ensures
        r == stored_reminders(now, change),
{
    match change {
        Some(p) => SavedReminders {
            sedentary_enabled: keep(p.sedentary_enabled, now.sedentary_enabled),
            sedentary_interval_min: keep(p.sedentary_interval_min, now.sedentary_interval_min),
            water_enabled: keep(p.water_enabled, now.water_enabled),
            water_interval_min: keep(p.water_interval_min, now.water_interval_min),
        },
        None => now,
    }
}

fn store(now: &SavedSettings, patch: &SettingsPatch) -> (r: SavedSettings)
    ensures
        r@ == now@.stored(patch@),
{
    let r: SavedSettings = SavedSettings {
        writable: now.writable,
        pet_name: keep_text(&patch.name, &now.pet_name),
        catchphrase_frequency: keep_frequency(
            &patch.catchphrase_frequency,
            now.catchphrase_frequency,
        ),
        emotion_sensitivity: keep(patch.sensitivity_value, now.emotion_sensitivity),
        catchphrase_enabled: keep(patch.catchphrase_enabled, now.catchphrase_enabled),
        scale_percent: keep(patch.scale_percent, now.scale_percent),
        opacity_percent: keep(patch.opacity_percent, now.opacity_percent),
        language: keep_text(&patch.language, &now.language),
        master_volume_percent: keep(patch.master_volume_percent, now.master_volume_percent),
        muted: keep(patch.muted, now.muted),
        auto_roam: keep(patch.auto_roam, now.auto_roam),
        roam_pace: keep(patch.roam_pace, now.roam_pace),
        do_not_disturb: keep(patch.do_not_disturb, now.do_not_disturb),
        easy_coax_mode: keep(patch.easy_coax_mode, now.easy_coax_mode),
        click_through: keep(patch.click_through, now.click_through),
        always_on_top_policy: keep_text(&patch.always_on_top_policy, &now.always_on_top_policy),
        autostart: keep(patch.autostart, now.autostart),
        activity_sensing: keep(patch.activity_sensing, now.activity_sensing),
        reminders: keep_reminders(patch.reminders, now.reminders),
    };
    assert(r@ =~= now@.stored(patch@));
    r
}

/// Keeps a patch in the save; says whether there is a save that may be written.
pub fn persist_settings_patch(save: &mut Option<SavedSettings>, patch: &SettingsPatch) -> (r: bool)
    ensures
        r == (*old(save) matches Some(saved) && saved.writable),
        (*final(save)) is Some <==> (*old(save)) is Some,
        r ==> (*final(save))->0@ == (*old(save))->0@.stored(patch@),
        !r ==> *final(save) == *old(save),
{
    let next: SavedSettings = match &*save {
        None => {
            return false;
        },
        Some(saved) => {
            if !saved.writable {
                return false;
            }
            store(saved, patch)
        },
    };
    *save = Some(next);
    true
}

impl PatchView {
    /// The patch names only values that a snapshot with these ranges takes as they
    /// are, and none that is not kept.
    pub open spec fn exact(self, ranges: SettingsView) -> bool {
        &&& self.name matches Some(v) ==> crate::text::trimmed(v) == v
        &&& self.scale_percent matches Some(v) ==> ranges.scale_min_percent <= v
            <= ranges.scale_max_percent
        &&& self.opacity_percent matches Some(v) ==> ranges.opacity_min_percent <= v
            <= ranges.opacity_max_percent
        &&& self.language matches Some(v) ==> v.len() > 0 && crate::text::trimmed(v) == v
        &&& self.master_volume_percent matches Some(v) ==> ranges.volume_min_percent <= v
            <= ranges.volume_max_percent
        &&& self.roam_pace matches Some(v) ==> v.finite() && v.clamped(
            ranges.pace_span().0,
            ranges.pace_span().1,
        ) == v
        &&& self.always_on_top_policy matches Some(v) ==> crate::bridge::merge::policy_of(
            crate::text::trimmed(v),
        ) == Some(v)
        &&& self.sensitivity_value matches Some(v) ==> v.finite() && v.clamped(
            ranges.sensitivity_span().0,
            ranges.sensitivity_span().1,
        ) == v
        &&& self.catchphrase_frequency matches Some(v) ==> crate::text::trimmed(v) == v
            && crate::bridge::merge::frequency_of(v) is Some
        &&& self.click_feedback_enabled is None
        &&& self.reminders matches Some(r) ==> {
            &&& r.sedentary_interval_min matches Some(v) ==> ranges.reminders.interval_min_min
                <= v <= ranges.reminders.interval_max_min
            &&& r.water_interval_min matches Some(v) ==> ranges.reminders.interval_min_min <= v
                <= ranges.reminders.interval_max_min
        }
    }
}

/// What is kept is what is in effect: settings built from a save after a patch was
/// kept are the settings built before it, with the patch applied. The patch has to
/// name values as they stand in a snapshot, and none that is not kept. The empty name is
/// among them: it stands for the name that the pet comes with.
pub proof fn lemma_kept_is_in_effect(config: ConfigView, saved: SavedView, patch: PatchView)
    requires
        patch.exact(config.with(saved)),
    ensures
        config.with(saved.stored(patch)) == config.with(saved).merged(patch),
{
    reveal(SettingsView::merged);
    if let Some(v) = patch.catchphrase_frequency {
        assert(CatchphraseFrequency::of(v) is Some);
        assert(CatchphraseFrequency::of(v)->0.word() == v);
    }
    assert(config.with(saved.stored(patch)) =~= config.with(saved).merged(patch));
}

/// An empty name brings back the one that the pet comes with, at once and after the next
/// start. At once a name of blanks does so too.
pub proof fn lemma_empty_name_brings_back_the_default(
    config: ConfigView,
    saved: SavedView,
    patch: PatchView,
)
    requires
        patch.name is Some,
        crate::text::trimmed(patch.name->0).len() == 0,
    ensures
        config.with(saved).merged(patch).name == config.default_name,
        config.preview().merged(patch).name == config.default_name,
        patch.name->0.len() == 0 ==> config.with(saved.stored(patch)).name
            == config.default_name,
{
    reveal(SettingsView::merged);
}

/// The words for the frequencies are read back as the frequencies.
pub proof fn lemma_frequency_round_trip(f: CatchphraseFrequency)
    ensures
        CatchphraseFrequency::of(f.word()) == Some(f),
{
    reveal_strlit("off");
    reveal_strlit("low");
    reveal_strlit("standard");
    reveal_strlit("high");
    assert("off"@[0] == 'o' && "low"@[0] == 'l' && "standard"@[0] == 's' && "high"@[0] == 'h');
}

/// Keeping the patch that names nothing changes nothing, and keeping two patches one
/// after the other keeps their join, where the later one names a known frequency or
/// none.
pub proof fn lemma_stored_laws(saved: SavedView, first: PatchView, later: PatchView)
    requires
        later.catchphrase_frequency matches Some(v) ==> CatchphraseFrequency::of(v) is Some,
    ensures
        saved.stored(PatchView::nothing()) == saved,
        saved.stored(first).stored(later) == saved.stored(first.followed_by(later)),
{
    assert(saved.stored(PatchView::nothing()) =~= saved);
    assert(saved.stored(first).stored(later) =~= saved.stored(first.followed_by(later)));
}

/// Each frequency has a word of its own, and nothing but the word stands for it.
pub proof fn lemma_words_of_frequencies(word: Seq<char>, f: CatchphraseFrequency)
    ensures
        CatchphraseFrequency::of(word) == Some(CatchphraseFrequency::Off) <==> word == "off"@,
        CatchphraseFrequency::of(word) == Some(CatchphraseFrequency::Low) <==> word == "low"@,
        CatchphraseFrequency::of(word) == Some(CatchphraseFrequency::Standard) <==> word
            == "standard"@,
        CatchphraseFrequency::of(word) == Some(CatchphraseFrequency::High) <==> word == "high"@,
        CatchphraseFrequency::of(word) == Some(f) <==> word == f.word(),
{
    reveal_strlit("off");
    reveal_strlit("low");
    reveal_strlit("standard");
    reveal_strlit("high");
    assert("off"@[0] == 'o' && "low"@[0] == 'l' && "standard"@[0] == 's' && "high"@[0] == 'h');
}

/// Ranges and choices come from the configuration, whether there is a save or not.
pub proof fn lemma_ranges_come_from_the_configuration(config: ConfigView, saved: SavedView)
    ensures
        ({
            let (s, p) = (config.with(saved), config.preview());
            &&& s.scale_min_percent == p.scale_min_percent == config.scale_min_percent
            &&& s.scale_max_percent == p.scale_max_percent == config.scale_max_percent
            &&& s.scale_step_percent == p.scale_step_percent == config.scale_step_percent
            &&& s.opacity_min_percent == p.opacity_min_percent == config.opacity_min_percent
            &&& s.opacity_max_percent == p.opacity_max_percent == config.opacity_max_percent
            &&& s.volume_min_percent == p.volume_min_percent == config.volume_min_percent
            &&& s.volume_max_percent == p.volume_max_percent == config.volume_max_percent
            &&& s.roam_pace_options == config.roam_pace_options
            &&& p.roam_pace_options == config.roam_pace_options
            &&& s.sensitivity_options == config.sensitivity_options
            &&& p.sensitivity_options == config.sensitivity_options
            &&& s.reminders.interval_min_min == config.reminders.interval_min_min
            &&& s.reminders.interval_max_min == config.reminders.interval_max_min
            &&& s.reminders.ack_resets_timer == config.reminders.ack_resets_timer
            &&& s.click_feedback_enabled == config.click_feedback_enabled
            &&& s.default_name == config.default_name && p.default_name == config.default_name
            &&& s.revision == 0 && p.revision == 0 && s.version == 1 && p.version == 1
            &&& s.writable == saved.writable && !p.writable
        }),
{
}

/// A save that holds what the pet comes with makes no difference but that changes can be kept
/// where it may be written. A saved name takes the place of the one that the pet comes with,
/// unless it has no characters.
pub proof fn lemma_save_of_the_defaults_is_the_preview(config: ConfigView, saved: SavedView)
    ensures
        saved == (SavedView {
            writable: saved.writable,
            pet_name: Seq::empty(),
            catchphrase_enabled: config.catchphrase_enabled,
            catchphrase_frequency: config.catchphrase_frequency,
            scale_percent: config.scale_percent,
            opacity_percent: config.opacity_percent,
            language: config.language,
            master_volume_percent: config.master_volume_percent,
            muted: config.muted,
            auto_roam: config.auto_roam,
            roam_pace: config.roam_pace,
            do_not_disturb: config.do_not_disturb,
            easy_coax_mode: config.easy_coax_mode,
            click_through: config.click_through,
            always_on_top_policy: config.always_on_top_policy,
            autostart: config.autostart,
            emotion_sensitivity: config.sensitivity_value,
            activity_sensing: config.activity_sensing,
            reminders: saved.reminders,
        }) && saved.reminders.sedentary_enabled == config.reminders.sedentary_enabled
            && saved.reminders.sedentary_interval_min == config.reminders.sedentary_interval_min
            && saved.reminders.water_enabled == config.reminders.water_enabled
            && saved.reminders.water_interval_min == config.reminders.water_interval_min
            ==> config.with(saved) == (SettingsView {
            writable: saved.writable,
            ..config.preview()
        }),
        saved.pet_name.len() > 0 ==> config.with(saved).name == saved.pet_name,
        saved.pet_name.len() == 0 ==> config.with(saved).name == config.preview().name,
        config.preview().name == config.default_name,
{
    if config.with(saved).name =~= config.preview().name {
    }
}

/// Every saved value is in effect as it was saved.
pub proof fn lemma_saved_values_are_in_effect(config: ConfigView, saved: SavedView)
    ensures
        ({
            let s = config.with(saved);
            &&& s.scale_percent == saved.scale_percent
            &&& s.opacity_percent == saved.opacity_percent
            &&& s.master_volume_percent == saved.master_volume_percent
            &&& s.muted == saved.muted
            &&& s.auto_roam == saved.auto_roam
            &&& s.do_not_disturb == saved.do_not_disturb
            &&& s.easy_coax_mode == saved.easy_coax_mode
            &&& s.click_through == saved.click_through
            &&& s.autostart == saved.autostart
            &&& s.activity_sensing == saved.activity_sensing
            &&& s.catchphrase_enabled == saved.catchphrase_enabled
            &&& s.roam_pace == saved.roam_pace
            &&& s.sensitivity_value == saved.emotion_sensitivity
            &&& s.language == saved.language
            &&& s.always_on_top_policy == saved.always_on_top_policy
            &&& CatchphraseFrequency::of(s.catchphrase_frequency) == Some(
                saved.catchphrase_frequency,
            )
            &&& s.reminders.sedentary_enabled == saved.reminders.sedentary_enabled
            &&& s.reminders.sedentary_interval_min == saved.reminders.sedentary_interval_min
            &&& s.reminders.water_enabled == saved.reminders.water_enabled
            &&& s.reminders.water_interval_min == saved.reminders.water_interval_min
        }),
{
    lemma_frequency_round_trip(saved.catchphrase_frequency);
}

/// Every value that a patch names is kept as it is named, every other stays as it was. A
/// frequency that is none of the four words is not kept, and no patch makes a save writable.
pub proof fn lemma_named_values_are_kept(saved: SavedView, patch: PatchView)
    ensures
        ({
            let t = saved.stored(patch);
            &&& t.writable == saved.writable
            &&& crate::bridge::merge::follows(patch.name, saved.pet_name, t.pet_name)
            &&& crate::bridge::merge::follows(
                patch.scale_percent,
                saved.scale_percent,
                t.scale_percent,
            )
            &&& crate::bridge::merge::follows(
                patch.opacity_percent,
                saved.opacity_percent,
                t.opacity_percent,
            )
            &&& crate::bridge::merge::follows(patch.language, saved.language, t.language)
            &&& crate::bridge::merge::follows(
                patch.master_volume_percent,
                saved.master_volume_percent,
                t.master_volume_percent,
            )
            &&& crate::bridge::merge::follows(patch.muted, saved.muted, t.muted)
            &&& crate::bridge::merge::follows(patch.auto_roam, saved.auto_roam, t.auto_roam)
            &&& crate::bridge::merge::follows(patch.roam_pace, saved.roam_pace, t.roam_pace)
            &&& crate::bridge::merge::follows(
                patch.do_not_disturb,
                saved.do_not_disturb,
                t.do_not_disturb,
            )
            &&& crate::bridge::merge::follows(
                patch.easy_coax_mode,
                saved.easy_coax_mode,
                t.easy_coax_mode,
            )
            &&& crate::bridge::merge::follows(
                patch.click_through,
                saved.click_through,
                t.click_through,
            )
            &&& crate::bridge::merge::follows(
                patch.always_on_top_policy,
                saved.always_on_top_policy,
                t.always_on_top_policy,
            )
            &&& crate::bridge::merge::follows(patch.autostart, saved.autostart, t.autostart)
            &&& crate::bridge::merge::follows(
                patch.sensitivity_value,
                saved.emotion_sensitivity,
                t.emotion_sensitivity,
            )
            &&& crate::bridge::merge::follows(
                patch.catchphrase_enabled,
                saved.catchphrase_enabled,
                t.catchphrase_enabled,
            )
            &&& crate::bridge::merge::follows(
                patch.activity_sensing,
                saved.activity_sensing,
                t.activity_sensing,
            )
            &&& patch.catchphrase_frequency is None ==> t.catchphrase_frequency
                == saved.catchphrase_frequency
            &&& patch.catchphrase_frequency matches Some(word) ==> {
                &&& CatchphraseFrequency::of(word) is None ==> t.catchphrase_frequency
                    == saved.catchphrase_frequency
                &&& CatchphraseFrequency::of(word) is Some ==> t.catchphrase_frequency.word()
                    == word
            }
            &&& patch.reminders is None ==> t.reminders == saved.reminders
            &&& patch.reminders matches Some(r) ==> {
                &&& crate::bridge::merge::follows(
                    r.sedentary_enabled,
                    saved.reminders.sedentary_enabled,
                    t.reminders.sedentary_enabled,
                )
                &&& crate::bridge::merge::follows(
                    r.sedentary_interval_min,
                    saved.reminders.sedentary_interval_min,
                    t.reminders.sedentary_interval_min,
                )
                &&& crate::bridge::merge::follows(
                    r.water_enabled,
                    saved.reminders.water_enabled,
                    t.reminders.water_enabled,
                )
                &&& crate::bridge::merge::follows(
                    r.water_interval_min,
                    saved.reminders.water_interval_min,
                    t.reminders.water_interval_min,
                )
            }
        }),
{
    if let Some(word) = patch.catchphrase_frequency {
        lemma_words_of_frequencies(word, saved.stored(patch).catchphrase_frequency);
    }
}

} // verus!
