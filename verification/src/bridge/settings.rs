//! Settings: the effective values, patches to them, and how patches apply.
//!
//! A snapshot holds every value that the settings window shows, with the range in
//! which it may lie. A patch names the values to change. Applying a patch holds
//! numbers in their ranges and ignores words that mean nothing, so that no request
//! can bring a snapshot out of its ranges.

use crate::scalar::Scalar;
use crate::text;
use vstd::prelude::*;

verus! {

/// The layout version of [`SettingsSnapshot`].
pub const SETTINGS_VERSION: u32 = 1;

/// Bit patterns of the numbers that stand in for missing choices and defaults.
pub const HALF_BITS: u32 = 0x3f00_0000;

pub const TWO_BITS: u32 = 0x4000_0000;

pub const SENSITIVITY_TOP_BITS: u32 = 0x3fcc_cccd;

pub const LOW_CHOICE_BITS: u32 = 0x3f33_3333;

pub const HIGH_CHOICE_BITS: u32 = 0x3fa6_6666;

/// Reminder preferences.
#[derive(Clone, Copy, Debug, PartialEq, Eq, Structural)]
pub struct RemindersSnapshot {
    pub sedentary_enabled: bool,
    /// Minutes between two reminders to get up.
    pub sedentary_interval_min: u32,
    pub water_enabled: bool,
    /// Minutes between two reminders to drink.
    pub water_interval_min: u32,
    /// Shortest interval, in minutes.
    pub interval_min_min: u32,
    /// Longest interval, in minutes.
    pub interval_max_min: u32,
    /// An acknowledgement starts the interval anew.
    pub ack_resets_timer: bool,
}

/// All settings in effect.
#[derive(Debug, PartialEq)]
pub struct SettingsSnapshot {
    /// Layout version.
    pub version: u32,
    /// Counts the changes.
    pub revision: u64,
    /// Whether changes can be kept.
    pub writable: bool,
    /// The name of the pet.
    pub name: String,
    /// The name that the pet comes with.
    pub default_name: String,
    /// Size in percent.
    pub scale_percent: u32,
    /// Smallest size.
    pub scale_min_percent: u32,
    /// Largest size.
    pub scale_max_percent: u32,
    /// Step between sizes.
    pub scale_step_percent: u32,
    /// Opacity in percent.
    pub opacity_percent: u32,
    /// Lowest opacity.
    pub opacity_min_percent: u32,
    /// Highest opacity.
    pub opacity_max_percent: u32,
    /// Language of the windows.
    pub language: String,
    /// Volume in percent.
    pub master_volume_percent: u32,
    /// Lowest volume.
    pub volume_min_percent: u32,
    /// Highest volume.
    pub volume_max_percent: u32,
    /// No sound at all.
    pub muted: bool,
    /// Walk about unasked.
    pub auto_roam: bool,
    /// Pace of walking.
    pub roam_pace: Scalar,
    /// The paces to choose from, in order.
    pub roam_pace_options: Vec<Scalar>,
    /// No bubbles, no walking.
    pub do_not_disturb: bool,
    /// Forgives more easily.
    pub easy_coax_mode: bool,
    /// Clicks pass through the pet.
    pub click_through: bool,
    /// `Always`, `BelowFullscreen` or `Never`.
    pub always_on_top_policy: String,
    /// Start with the system.
    pub autostart: bool,
    /// How quickly moods change.
    pub sensitivity_value: Scalar,
    /// The sensitivities to choose from, in order.
    pub sensitivity_options: Vec<Scalar>,
    /// Uses a catchphrase.
    pub catchphrase_enabled: bool,
    /// `off`, `low`, `standard` or `high`.
    pub catchphrase_frequency: String,
    /// Shows dust on a click.
    pub click_feedback_enabled: bool,
    /// Senses how busy the user is.
    pub activity_sensing: bool,
    /// Reminders.
    pub reminders: RemindersSnapshot,
}

/// The mathematical content of a [`SettingsSnapshot`].
#[verifier::ext_equal]
pub struct SettingsView {
    pub version: u32,
    pub revision: u64,
    pub writable: bool,
    pub name: Seq<char>,
    pub default_name: Seq<char>,
    pub scale_percent: u32,
    pub scale_min_percent: u32,
    pub scale_max_percent: u32,
    pub scale_step_percent: u32,
    pub opacity_percent: u32,
    pub opacity_min_percent: u32,
    pub opacity_max_percent: u32,
    pub language: Seq<char>,
    pub master_volume_percent: u32,
    pub volume_min_percent: u32,
    pub volume_max_percent: u32,
    pub muted: bool,
    pub auto_roam: bool,
    pub roam_pace: Scalar,
    pub roam_pace_options: Seq<Scalar>,
    pub do_not_disturb: bool,
    pub easy_coax_mode: bool,
    pub click_through: bool,
    pub always_on_top_policy: Seq<char>,
    pub autostart: bool,
    pub sensitivity_value: Scalar,
    pub sensitivity_options: Seq<Scalar>,
    pub catchphrase_enabled: bool,
    pub catchphrase_frequency: Seq<char>,
    pub click_feedback_enabled: bool,
    pub activity_sensing: bool,
    pub reminders: RemindersSnapshot,
}

impl View for SettingsSnapshot {
    type V = SettingsView;

    open spec fn view(&self) -> SettingsView {
        SettingsView {
            version: self.version,
            revision: self.revision,
            writable: self.writable,
            name: self.name@,
            default_name: self.default_name@,
            scale_percent: self.scale_percent,
            scale_min_percent: self.scale_min_percent,
            scale_max_percent: self.scale_max_percent,
            scale_step_percent: self.scale_step_percent,
            opacity_percent: self.opacity_percent,
            opacity_min_percent: self.opacity_min_percent,
            opacity_max_percent: self.opacity_max_percent,
            language: self.language@,
            master_volume_percent: self.master_volume_percent,
            volume_min_percent: self.volume_min_percent,
            volume_max_percent: self.volume_max_percent,
            muted: self.muted,
            auto_roam: self.auto_roam,
            roam_pace: self.roam_pace,
            roam_pace_options: self.roam_pace_options@,
            do_not_disturb: self.do_not_disturb,
            easy_coax_mode: self.easy_coax_mode,
            click_through: self.click_through,
            always_on_top_policy: self.always_on_top_policy@,
            autostart: self.autostart,
            sensitivity_value: self.sensitivity_value,
            sensitivity_options: self.sensitivity_options@,
            catchphrase_enabled: self.catchphrase_enabled,
            catchphrase_frequency: self.catchphrase_frequency@,
            click_feedback_enabled: self.click_feedback_enabled,
            activity_sensing: self.activity_sensing,
            reminders: self.reminders,
        }
    }
}

impl Clone for SettingsSnapshot {
    fn clone(&self) -> (r: Self)
        ensures
            r@ == self@,
    {
        SettingsSnapshot {
            version: self.version,
            revision: self.revision,
            writable: self.writable,
            name: self.name.clone(),
            default_name: self.default_name.clone(),
            scale_percent: self.scale_percent,
            scale_min_percent: self.scale_min_percent,
            scale_max_percent: self.scale_max_percent,
            scale_step_percent: self.scale_step_percent,
            opacity_percent: self.opacity_percent,
            opacity_min_percent: self.opacity_min_percent,
            opacity_max_percent: self.opacity_max_percent,
            language: self.language.clone(),
            master_volume_percent: self.master_volume_percent,
            volume_min_percent: self.volume_min_percent,
            volume_max_percent: self.volume_max_percent,
            muted: self.muted,
            auto_roam: self.auto_roam,
            roam_pace: self.roam_pace,
            roam_pace_options: scalars(&self.roam_pace_options),
            do_not_disturb: self.do_not_disturb,
            easy_coax_mode: self.easy_coax_mode,
            click_through: self.click_through,
            always_on_top_policy: self.always_on_top_policy.clone(),
            autostart: self.autostart,
            sensitivity_value: self.sensitivity_value,
            sensitivity_options: scalars(&self.sensitivity_options),
            catchphrase_enabled: self.catchphrase_enabled,
            catchphrase_frequency: self.catchphrase_frequency.clone(),
            click_feedback_enabled: self.click_feedback_enabled,
            activity_sensing: self.activity_sensing,
            reminders: self.reminders,
        }
    }
}

/// A copy of a list of numbers.
pub fn scalars(list: &Vec<Scalar>) -> (r: Vec<Scalar>)
    ensures
        r@ == list@,
{
    let mut out: Vec<Scalar> = Vec::new();
    let mut i: usize = 0;
    while i < list.len()
        invariant
            i <= list@.len(),
            out@ == list@.subrange(0, i as int),
        decreases list@.len() - i,
    {
        out.push(list[i]);
        i = i + 1;
        assert(out@ =~= list@.subrange(0, i as int));
    }
    assert(list@.subrange(0, i as int) =~= list@);
    out
}

/// Changes to the reminder preferences; `None` leaves a value as it is.
#[derive(Clone, Copy, Debug, PartialEq, Eq, Structural)]
pub struct RemindersPatch {
    pub sedentary_enabled: Option<bool>,
    pub sedentary_interval_min: Option<u32>,
    pub water_enabled: Option<bool>,
    pub water_interval_min: Option<u32>,
}

impl Default for RemindersPatch {
    /// No change.
    fn default() -> (r: Self)
        ensures
            r == RemindersPatch::nothing(),
    {
        RemindersPatch {
            sedentary_enabled: None,
            sedentary_interval_min: None,
            water_enabled: None,
            water_interval_min: None,
        }
    }
}

impl RemindersPatch {
    /// The patch that changes nothing.
    pub open spec fn nothing() -> RemindersPatch {
        RemindersPatch {
            sedentary_enabled: None,
            sedentary_interval_min: None,
            water_enabled: None,
            water_interval_min: None,
        }
    }

    /// Whether the patch changes nothing.
    pub fn is_empty(&self) -> (r: bool)
        ensures
            r == (*self == RemindersPatch::nothing()),
    {
        self.sedentary_enabled.is_none() && self.sedentary_interval_min.is_none()
            && self.water_enabled.is_none() && self.water_interval_min.is_none()
    }
}

/// Changes to the settings; `None` leaves a value as it is.
#[derive(Debug, PartialEq)]
pub struct SettingsPatch {
    pub name: Option<String>,
    pub scale_percent: Option<u32>,
    pub opacity_percent: Option<u32>,
    pub language: Option<String>,
    pub master_volume_percent: Option<u32>,
    pub muted: Option<bool>,
    pub auto_roam: Option<bool>,
    pub roam_pace: Option<Scalar>,
    pub do_not_disturb: Option<bool>,
    pub easy_coax_mode: Option<bool>,
    pub click_through: Option<bool>,
    pub always_on_top_policy: Option<String>,
    pub autostart: Option<bool>,
    pub sensitivity_value: Option<Scalar>,
    pub catchphrase_enabled: Option<bool>,
    pub catchphrase_frequency: Option<String>,
    pub click_feedback_enabled: Option<bool>,
    pub activity_sensing: Option<bool>,
    pub reminders: Option<RemindersPatch>,
}

/// The mathematical content of a [`SettingsPatch`].
#[verifier::ext_equal]
pub struct PatchView {
    pub name: Option<Seq<char>>,
    pub scale_percent: Option<u32>,
    pub opacity_percent: Option<u32>,
    pub language: Option<Seq<char>>,
    pub master_volume_percent: Option<u32>,
    pub muted: Option<bool>,
    pub auto_roam: Option<bool>,
    pub roam_pace: Option<Scalar>,
    pub do_not_disturb: Option<bool>,
    pub easy_coax_mode: Option<bool>,
    pub click_through: Option<bool>,
    pub always_on_top_policy: Option<Seq<char>>,
    pub autostart: Option<bool>,
    pub sensitivity_value: Option<Scalar>,
    pub catchphrase_enabled: Option<bool>,
    pub catchphrase_frequency: Option<Seq<char>>,
    pub click_feedback_enabled: Option<bool>,
    pub activity_sensing: Option<bool>,
    pub reminders: Option<RemindersPatch>,
}

/// The characters of a string that may be missing.
pub open spec fn maybe_text(value: Option<String>) -> Option<Seq<char>> {
    match value {
        Some(s) => Some(s@),
        None => None,
    }
}

impl View for SettingsPatch {
    type V = PatchView;

    open spec fn view(&self) -> PatchView {
        PatchView {
            name: maybe_text(self.name),
            scale_percent: self.scale_percent,
            opacity_percent: self.opacity_percent,
            language: maybe_text(self.language),
            master_volume_percent: self.master_volume_percent,
            muted: self.muted,
            auto_roam: self.auto_roam,
            roam_pace: self.roam_pace,
            do_not_disturb: self.do_not_disturb,
            easy_coax_mode: self.easy_coax_mode,
            click_through: self.click_through,
            always_on_top_policy: maybe_text(self.always_on_top_policy),
            autostart: self.autostart,
            sensitivity_value: self.sensitivity_value,
            catchphrase_enabled: self.catchphrase_enabled,
            catchphrase_frequency: maybe_text(self.catchphrase_frequency),
            click_feedback_enabled: self.click_feedback_enabled,
            activity_sensing: self.activity_sensing,
            reminders: self.reminders,
        }
    }
}

impl PatchView {
    /// The patch that changes nothing.
    pub open spec fn nothing() -> PatchView {
        PatchView {
            name: None,
            scale_percent: None,
            opacity_percent: None,
            language: None,
            master_volume_percent: None,
            muted: None,
            auto_roam: None,
            roam_pace: None,
            do_not_disturb: None,
            easy_coax_mode: None,
            click_through: None,
            always_on_top_policy: None,
            autostart: None,
            sensitivity_value: None,
            catchphrase_enabled: None,
            catchphrase_frequency: None,
            click_feedback_enabled: None,
            activity_sensing: None,
            reminders: None,
        }
    }

    /// The patch that does first this one, after that `next`: what `next` names counts.
    pub open spec fn followed_by(self, next: PatchView) -> PatchView {
        PatchView {
            name: or(next.name, self.name),
            scale_percent: or(next.scale_percent, self.scale_percent),
            opacity_percent: or(next.opacity_percent, self.opacity_percent),
            language: or(next.language, self.language),
            master_volume_percent: or(next.master_volume_percent, self.master_volume_percent),
            muted: or(next.muted, self.muted),
            auto_roam: or(next.auto_roam, self.auto_roam),
            roam_pace: or(next.roam_pace, self.roam_pace),
            do_not_disturb: or(next.do_not_disturb, self.do_not_disturb),
            easy_coax_mode: or(next.easy_coax_mode, self.easy_coax_mode),
            click_through: or(next.click_through, self.click_through),
            always_on_top_policy: or(next.always_on_top_policy, self.always_on_top_policy),
            autostart: or(next.autostart, self.autostart),
            sensitivity_value: or(next.sensitivity_value, self.sensitivity_value),
            catchphrase_enabled: or(next.catchphrase_enabled, self.catchphrase_enabled),
            catchphrase_frequency: or(next.catchphrase_frequency, self.catchphrase_frequency),
            click_feedback_enabled: or(next.click_feedback_enabled, self.click_feedback_enabled),
            activity_sensing: or(next.activity_sensing, self.activity_sensing),
            reminders: joined_reminders(self.reminders, next.reminders),
        }
    }
}

/// The changes to the reminders of two patches, one after the other.
pub open spec fn joined_reminders(
    first: Option<RemindersPatch>,
    next: Option<RemindersPatch>,
) -> Option<RemindersPatch> {
    match next {
        None => first,
        Some(r) => {
            let base = match first {
                Some(b) => b,
                None => RemindersPatch::nothing(),
            };
            Some(
                RemindersPatch {
                    sedentary_enabled: or(r.sedentary_enabled, base.sedentary_enabled),
                    sedentary_interval_min: or(
                        r.sedentary_interval_min,
                        base.sedentary_interval_min,
                    ),
                    water_enabled: or(r.water_enabled, base.water_enabled),
                    water_interval_min: or(r.water_interval_min, base.water_interval_min),
                },
            )
        },
    }
}

/// `first` where it is there, `second` where it is not.
pub open spec fn or<T>(first: Option<T>, second: Option<T>) -> Option<T> {
    if first is Some {
        first
    } else {
        second
    }
}

impl Default for SettingsPatch {
    /// No change.
    fn default() -> (r: Self)
        ensures
            r@ == PatchView::nothing(),
    {
        SettingsPatch {
            name: None,
            scale_percent: None,
            opacity_percent: None,
            language: None,
            master_volume_percent: None,
            muted: None,
            auto_roam: None,
            roam_pace: None,
            do_not_disturb: None,
            easy_coax_mode: None,
            click_through: None,
            always_on_top_policy: None,
            autostart: None,
            sensitivity_value: None,
            catchphrase_enabled: None,
            catchphrase_frequency: None,
            click_feedback_enabled: None,
            activity_sensing: None,
            reminders: None,
        }
    }
}

/// A copy of a string that may be missing.
pub fn maybe_clone(value: &Option<String>) -> (r: Option<String>)
    ensures
        r == *value,
{
    match value {
        Some(s) => Some(s.clone()),
        None => None,
    }
}

impl Clone for SettingsPatch {
    fn clone(&self) -> (r: Self)
        ensures
            r@ == self@,
    {
        SettingsPatch {
            name: maybe_clone(&self.name),
            scale_percent: self.scale_percent,
            opacity_percent: self.opacity_percent,
            language: maybe_clone(&self.language),
            master_volume_percent: self.master_volume_percent,
            muted: self.muted,
            auto_roam: self.auto_roam,
            roam_pace: self.roam_pace,
            do_not_disturb: self.do_not_disturb,
            easy_coax_mode: self.easy_coax_mode,
            click_through: self.click_through,
            always_on_top_policy: maybe_clone(&self.always_on_top_policy),
            autostart: self.autostart,
            sensitivity_value: self.sensitivity_value,
            catchphrase_enabled: self.catchphrase_enabled,
            catchphrase_frequency: maybe_clone(&self.catchphrase_frequency),
            click_feedback_enabled: self.click_feedback_enabled,
            activity_sensing: self.activity_sensing,
            reminders: self.reminders,
        }
    }
}

/// `[name]` where `there`, nothing where not.
pub open spec fn listed(name: Seq<char>, there: bool) -> Seq<Seq<char>> {
    if there {
        seq![name]
    } else {
        Seq::empty()
    }
}

impl PatchView {
    pub open spec fn touches_pet(self) -> bool {
        self.name is Some
    }

    pub open spec fn touches_appearance(self) -> bool {
        self.scale_percent is Some || self.opacity_percent is Some || self.language is Some
    }

    pub open spec fn touches_audio(self) -> bool {
        self.master_volume_percent is Some || self.muted is Some
    }

    pub open spec fn touches_behavior(self) -> bool {
        ||| self.auto_roam is Some
        ||| self.roam_pace is Some
        ||| self.do_not_disturb is Some
        ||| self.easy_coax_mode is Some
        ||| self.click_through is Some
        ||| self.always_on_top_policy is Some
        ||| self.autostart is Some
    }

    pub open spec fn touches_interaction(self) -> bool {
        ||| self.sensitivity_value is Some
        ||| self.catchphrase_enabled is Some
        ||| self.catchphrase_frequency is Some
        ||| self.click_feedback_enabled is Some
        ||| self.activity_sensing is Some
    }

    pub open spec fn touches_reminders(self) -> bool {
        self.reminders matches Some(r) && r != RemindersPatch::nothing()
    }

    /// The names of the settings groups that the patch touches, in a fixed order.
    pub open spec fn group_names(self) -> Seq<Seq<char>> {
        listed("pet"@, self.touches_pet()) + listed("appearance"@, self.touches_appearance())
            + listed("audio"@, self.touches_audio()) + listed(
            "behavior"@,
            self.touches_behavior(),
        ) + listed("interaction"@, self.touches_interaction()) + listed(
            "reminders"@,
            self.touches_reminders(),
        )
    }
}

/// The characters of each string of a list.
pub open spec fn texts(list: Seq<&'static str>) -> Seq<Seq<char>> {
    Seq::new(list.len(), |i: int| list[i]@)
}

fn list_group(out: &mut Vec<&'static str>, name: &'static str, there: bool)
    ensures
        texts(final(out)@) == texts(old(out)@) + listed(name@, there),
{
    if there {
        out.push(name);
    }
    assert(texts(out@) =~= texts(old(out)@) + listed(name@, there));
}

impl SettingsPatch {
    /// Whether the patch names no value at all.
    pub fn is_empty(&self) -> (r: bool)
        ensures
            r == (self@ == PatchView::nothing()),
    {
        let r: bool = self.name.is_none() && self.scale_percent.is_none()
            && self.opacity_percent.is_none() && self.language.is_none()
            && self.master_volume_percent.is_none() && self.muted.is_none()
            && self.auto_roam.is_none() && self.roam_pace.is_none()
            && self.do_not_disturb.is_none() && self.easy_coax_mode.is_none()
            && self.click_through.is_none() && self.always_on_top_policy.is_none()
            && self.autostart.is_none() && self.sensitivity_value.is_none()
            && self.catchphrase_enabled.is_none() && self.catchphrase_frequency.is_none()
            && self.click_feedback_enabled.is_none() && self.activity_sensing.is_none()
            && self.reminders.is_none();
        assert(r == (self@ =~= PatchView::nothing()));
        r
    }

    /// The names of the settings groups that the patch touches, each once, in a fixed
    /// order.
    pub fn groups(&self) -> (r: Vec<&'static str>)
        ensures
            texts(r@) == self@.group_names(),
    {
        let mut out: Vec<&'static str> = Vec::new();
        assert(texts(out@) =~= Seq::empty());
        list_group(&mut out, "pet", self.name.is_some());
        assert(texts(out@) =~= listed("pet"@, self@.touches_pet()));
        list_group(
            &mut out,
            "appearance",
            self.scale_percent.is_some() || self.opacity_percent.is_some()
                || self.language.is_some(),
        );
        list_group(
            &mut out,
            "audio",
            self.master_volume_percent.is_some() || self.muted.is_some(),
        );
        list_group(
            &mut out,
            "behavior",
            self.auto_roam.is_some() || self.roam_pace.is_some() || self.do_not_disturb.is_some()
                || self.easy_coax_mode.is_some() || self.click_through.is_some()
                || self.always_on_top_policy.is_some() || self.autostart.is_some(),
        );
        list_group(
            &mut out,
            "interaction",
            self.sensitivity_value.is_some() || self.catchphrase_enabled.is_some()
                || self.catchphrase_frequency.is_some() || self.click_feedback_enabled.is_some()
                || self.activity_sensing.is_some(),
        );
        let reminded: bool = match &self.reminders {
            Some(r) => !r.is_empty(),
            None => false,
        };
        list_group(&mut out, "reminders", reminded);
        out
    }
}

impl Default for SettingsSnapshot {
    /// The values that the pet comes with; nothing can be kept.
    fn default() -> (r: Self)
        ensures
            r@ == SettingsView::factory(),
    {
        let mut paces: Vec<Scalar> = Vec::new();
        paces.push(Scalar { bits: LOW_CHOICE_BITS });
        paces.push(Scalar::one());
        paces.push(Scalar { bits: HIGH_CHOICE_BITS });
        let choices: Vec<Scalar> = scalars(&paces);
        let r: SettingsSnapshot = SettingsSnapshot {
            version: SETTINGS_VERSION,
            revision: 0,
            writable: false,
            name: String::new(),
            default_name: String::new(),
            scale_percent: 100,
            scale_min_percent: 50,
            scale_max_percent: 200,
            scale_step_percent: 10,
            opacity_percent: 100,
            opacity_min_percent: 60,
            opacity_max_percent: 100,
            language: "zh-CN".to_owned(),
            master_volume_percent: 80,
            volume_min_percent: 0,
            volume_max_percent: 100,
            muted: false,
            auto_roam: true,
            roam_pace: Scalar::one(),
            roam_pace_options: paces,
            do_not_disturb: false,
            easy_coax_mode: false,
            click_through: false,
            always_on_top_policy: "Always".to_owned(),
            autostart: false,
            sensitivity_value: Scalar::one(),
            sensitivity_options: choices,
            catchphrase_enabled: true,
            catchphrase_frequency: "standard".to_owned(),
            click_feedback_enabled: true,
            activity_sensing: true,
            reminders: RemindersSnapshot {
                sedentary_enabled: true,
                sedentary_interval_min: 45,
                water_enabled: true,
                water_interval_min: 45,
                interval_min_min: 15,
                interval_max_min: 180,
                ack_resets_timer: true,
            },
        };
        assert(r@ =~= SettingsView::factory());
        r
    }
}

impl SettingsView {
    /// The paces, and the sensitivities, that the pet comes with.
    pub open spec fn factory_choices() -> Seq<Scalar> {
        seq![
            Scalar { bits: LOW_CHOICE_BITS },
            Scalar { bits: crate::scalar::ONE_BITS },
            Scalar { bits: HIGH_CHOICE_BITS },
        ]
    }

    /// The values that the pet comes with.
    pub open spec fn factory() -> SettingsView {
        SettingsView {
            version: SETTINGS_VERSION,
            revision: 0,
            writable: false,
            name: Seq::empty(),
            default_name: Seq::empty(),
            scale_percent: 100,
            scale_min_percent: 50,
            scale_max_percent: 200,
            scale_step_percent: 10,
            opacity_percent: 100,
            opacity_min_percent: 60,
            opacity_max_percent: 100,
            language: "zh-CN"@,
            master_volume_percent: 80,
            volume_min_percent: 0,
            volume_max_percent: 100,
            muted: false,
            auto_roam: true,
            roam_pace: (Scalar { bits: crate::scalar::ONE_BITS }),
            roam_pace_options: SettingsView::factory_choices(),
            do_not_disturb: false,
            easy_coax_mode: false,
            click_through: false,
            always_on_top_policy: "Always"@,
            autostart: false,
            sensitivity_value: (Scalar { bits: crate::scalar::ONE_BITS }),
            sensitivity_options: SettingsView::factory_choices(),
            catchphrase_enabled: true,
            catchphrase_frequency: "standard"@,
            click_feedback_enabled: true,
            activity_sensing: true,
            reminders: RemindersSnapshot {
                sedentary_enabled: true,
                sedentary_interval_min: 45,
                water_enabled: true,
                water_interval_min: 45,
                interval_min_min: 15,
                interval_max_min: 180,
                ack_resets_timer: true,
            },
        }
    }
}

} // verus!
