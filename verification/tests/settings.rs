//! Settings: patches, what they merge to, and what is kept.

use dp_app::bridge::backup::{
    classify_backup, kind_rank, list_save_backups, resolve_backup_path, FileEntry, SaveBackupKind,
    SaveStatusHandle, SaveStatusInfo, SAVE_DIR_NAME, SAVE_FILE_NAME,
};
use dp_app::bridge::merge::{
    merge_patch, merge_patch_value, normalize_catchphrase_frequency, normalize_topmost_policy,
    SettingsState,
};
use dp_app::bridge::settings::{RemindersPatch, RemindersSnapshot, SettingsPatch, SettingsSnapshot};
use dp_app::bridge::snapshot::{
    build_settings_snapshot, persist_settings_patch, CatchphraseFrequency, ConfigDefaults,
    SavedReminders, SavedSettings,
};
use dp_app::calendar::{
    day_key_of, local_day_key, local_week_key, week_key_of, FIRST_MS, LAST_MS,
};
use dp_app::coreloop::kinds::Point;
use dp_app::coreloop::state::CoreLoopState;
use dp_app::scalar::Scalar;
use dp_app::text;

fn s(v: f32) -> Scalar {
    Scalar { bits: v.to_bits() }
}

fn config() -> ConfigDefaults {
    let factory = SettingsSnapshot::default();
    ConfigDefaults {
        default_name: "小星".to_string(),
        scale_percent: 140,
        opacity_percent: 70,
        language: "en-US".to_string(),
        master_volume_percent: 30,
        muted: true,
        auto_roam: false,
        roam_pace: s(2.0),
        do_not_disturb: true,
        easy_coax_mode: true,
        click_through: true,
        always_on_top_policy: "Never".to_string(),
        autostart: true,
        sensitivity_value: s(0.7),
        catchphrase_enabled: false,
        catchphrase_frequency: CatchphraseFrequency::High,
        activity_sensing: true,
        scale_min_percent: 60,
        scale_max_percent: 180,
        scale_step_percent: 5,
        opacity_min_percent: 30,
        opacity_max_percent: 100,
        volume_min_percent: 0,
        volume_max_percent: 100,
        roam_pace_options: vec![s(0.5), s(1.0), s(2.0)],
        sensitivity_options: vec![s(0.7), s(1.0), s(1.3)],
        click_feedback_enabled: false,
        reminders: RemindersSnapshot { interval_min_min: 10, ..factory.reminders },
    }
}

fn saved() -> SavedSettings {
    SavedSettings {
        writable: true,
        pet_name: "豆豆".to_string(),
        catchphrase_enabled: true,
        catchphrase_frequency: CatchphraseFrequency::Low,
        scale_percent: 120,
        opacity_percent: 80,
        language: "zh-CN".to_string(),
        master_volume_percent: 50,
        muted: false,
        auto_roam: true,
        roam_pace: s(1.0),
        do_not_disturb: false,
        easy_coax_mode: false,
        click_through: false,
        always_on_top_policy: "Always".to_string(),
        autostart: false,
        emotion_sensitivity: s(1.0),
        activity_sensing: true,
        reminders: SavedReminders {
            sedentary_enabled: true,
            sedentary_interval_min: 30,
            water_enabled: false,
            water_interval_min: 40,
        },
    }
}

#[test]
fn values_are_held_in_their_ranges() {
    let mut snapshot = SettingsSnapshot::default();
    let patch = SettingsPatch {
        scale_percent: Some(999),
        opacity_percent: Some(1),
        master_volume_percent: Some(101),
        ..SettingsPatch::default()
    };
    merge_patch(&mut snapshot, &patch);
    assert_eq!(snapshot.scale_percent, 200);
    assert_eq!(snapshot.opacity_percent, 60);
    assert_eq!(snapshot.master_volume_percent, 100);
}

#[test]
fn an_empty_patch_changes_nothing() {
    let mut snapshot = SettingsSnapshot::default();
    merge_patch(&mut snapshot, &SettingsPatch::default());
    assert_eq!(snapshot, SettingsSnapshot::default());
}

#[test]
fn merging_twice_is_merging_once() {
    let patch = SettingsPatch {
        scale_percent: Some(33),
        name: Some("x".to_string()),
        always_on_top_policy: Some("never".to_string()),
        ..SettingsPatch::default()
    };
    let mut once = SettingsSnapshot::default();
    merge_patch(&mut once, &patch);
    let mut twice = once.clone();
    merge_patch(&mut twice, &patch);
    assert_eq!(once, twice);
    assert_eq!(once.always_on_top_policy, "Never");
    assert_eq!(once.scale_percent, 50);
}

#[test]
fn words_are_taken_in_their_proper_spelling() {
    assert_eq!(normalize_topmost_policy(" always "), Some("Always"));
    assert_eq!(normalize_topmost_policy("belowFullscreen"), Some("BelowFullscreen"));
    assert_eq!(normalize_topmost_policy("NEVER"), None);
    assert_eq!(normalize_catchphrase_frequency("high"), Some("high"));
    assert_eq!(normalize_catchphrase_frequency("often"), None);
    for frequency in [
        CatchphraseFrequency::Off,
        CatchphraseFrequency::Low,
        CatchphraseFrequency::Standard,
        CatchphraseFrequency::High,
    ] {
        assert_eq!(CatchphraseFrequency::from_word(frequency.as_cfg_name()), Some(frequency));
    }
    assert_eq!(CatchphraseFrequency::from_word("often"), None);
}

#[test]
fn waiting_patches_are_joined() {
    let mut state = SettingsState::default();
    let first = SettingsPatch { muted: Some(true), scale_percent: Some(150), ..SettingsPatch::default() };
    let second = SettingsPatch { muted: Some(false), autostart: Some(true), ..SettingsPatch::default() };
    assert_eq!(state.apply(&first), Some(1));
    assert_eq!(state.apply(&second), Some(2));
    let settings = state.snapshot();
    assert!(!settings.muted && settings.autostart);
    assert_eq!((settings.scale_percent, settings.revision), (150, 2));
    let pending = state.take_pending().expect("changes wait");
    assert_eq!(pending.revision, 2);
    assert_eq!(pending.patch.muted, Some(false));
    assert_eq!(pending.patch.scale_percent, Some(150));
    assert_eq!(pending.patch.autostart, Some(true));
    assert!(state.take_pending().is_none());

    let mut joined = first;
    merge_patch_value(&mut joined, &second);
    assert_eq!(joined, pending.patch);
}

#[test]
fn reminders_are_merged_one_by_one() {
    let mut state = SettingsState::default();
    let water = SettingsPatch {
        reminders: Some(RemindersPatch { water_interval_min: Some(1), ..RemindersPatch::default() }),
        ..SettingsPatch::default()
    };
    assert!(state.apply(&water).is_some());
    let reminders = state.snapshot().reminders;
    assert_eq!(reminders.water_interval_min, 15);
    assert_eq!(reminders.sedentary_interval_min, 45);
    assert!(RemindersPatch::default().is_empty());
}

#[test]
fn settings_come_from_the_save_where_there_is_one() {
    let preview = build_settings_snapshot(&config(), None);
    assert!(!preview.writable);
    assert_eq!(preview.name, "小星");
    assert_eq!(preview.default_name, "小星");
    assert_eq!((preview.scale_min_percent, preview.scale_max_percent), (60, 180));
    assert_eq!(preview.reminders.interval_min_min, 10);

    let kept = build_settings_snapshot(&config(), Some(&saved()));
    assert!(kept.writable);
    assert_eq!(kept.name, "豆豆");
    assert_eq!((kept.scale_percent, kept.opacity_percent), (120, 80));
    assert_eq!(kept.catchphrase_frequency, "low");
    assert!(!kept.click_feedback_enabled);
    assert_eq!(kept.reminders.sedentary_interval_min, 30);
    assert_eq!(kept.reminders.interval_min_min, 10);
}

#[test]
fn without_a_save_everything_is_as_the_pet_comes() {
    let preview = build_settings_snapshot(&config(), None);
    assert_eq!((preview.scale_percent, preview.opacity_percent), (140, 70));
    assert_eq!(preview.language, "en-US");
    assert_eq!(preview.master_volume_percent, 30);
    assert!(preview.muted && !preview.auto_roam && preview.do_not_disturb);
    assert!(preview.easy_coax_mode && preview.click_through && preview.autostart);
    assert_eq!(preview.roam_pace, s(2.0));
    assert_eq!(preview.always_on_top_policy, "Never");
    assert_eq!(preview.sensitivity_value, s(0.7));
    assert!(!preview.catchphrase_enabled);
    assert_eq!(preview.catchphrase_frequency, "high");
    assert!(!preview.click_feedback_enabled && preview.activity_sensing);
    assert_eq!(preview.roam_pace_options, vec![s(0.5), s(1.0), s(2.0)]);
    assert_eq!(preview.revision, 0);
}

#[test]
fn a_pet_without_a_name_of_its_own_has_the_one_it_comes_with() {
    let nameless = SavedSettings { pet_name: String::new(), ..saved() };
    let kept = build_settings_snapshot(&config(), Some(&nameless));
    assert_eq!(kept.name, "小星");
    assert_eq!(kept.default_name, "小星");
    assert_eq!(kept.scale_percent, 120);
}

#[test]
fn an_empty_name_brings_back_the_one_the_pet_comes_with() {
    for blank in ["", "  ", "\t\n"] {
        let patch = SettingsPatch { name: Some(blank.to_string()), ..SettingsPatch::default() };
        let mut snapshot = build_settings_snapshot(&config(), Some(&saved()));
        merge_patch(&mut snapshot, &patch);
        assert_eq!(snapshot.name, "小星");
        merge_patch(&mut snapshot, &patch);
        assert_eq!(snapshot.name, "小星");
    }
    let patch = SettingsPatch { name: Some(String::new()), ..SettingsPatch::default() };
    let mut save = Some(saved());
    assert!(persist_settings_patch(&mut save, &patch));
    assert_eq!(build_settings_snapshot(&config(), save.as_ref()).name, "小星");
    let named = SettingsPatch { name: Some(" 豆包 ".to_string()), ..SettingsPatch::default() };
    let mut snapshot = build_settings_snapshot(&config(), Some(&saved()));
    merge_patch(&mut snapshot, &named);
    assert_eq!(snapshot.name, "豆包");
}

#[test]
fn a_patch_is_kept_only_where_it_may_be() {
    let patch = SettingsPatch {
        name: Some("新名".to_string()),
        muted: Some(true),
        catchphrase_frequency: Some("off".to_string()),
        ..SettingsPatch::default()
    };
    let mut nowhere: Option<SavedSettings> = None;
    assert!(!persist_settings_patch(&mut nowhere, &patch));
    let mut locked = Some(SavedSettings { writable: false, ..saved() });
    assert!(!persist_settings_patch(&mut locked, &patch));
    assert_eq!(locked, Some(SavedSettings { writable: false, ..saved() }));
    let mut open = Some(saved());
    assert!(persist_settings_patch(&mut open, &patch));
    let kept = open.expect("kept");
    assert_eq!(kept.pet_name, "新名");
    assert!(kept.muted);
    assert_eq!(kept.catchphrase_frequency, CatchphraseFrequency::Off);
    assert_eq!(kept.scale_percent, 120);
}

#[test]
fn the_core_loop_takes_waiting_settings_once() {
    let mut core = CoreLoopState::new(Point { x: s(0.0), y: s(0.0) }, 1, 0);
    let mut settings = SettingsState::new(build_settings_snapshot(&config(), Some(&saved())));
    let mut save = Some(saved());
    assert!(core.apply_pending_settings(&mut settings, &mut save).is_none());
    let patch = SettingsPatch {
        do_not_disturb: Some(true),
        activity_sensing: Some(false),
        ..SettingsPatch::default()
    };
    assert_eq!(settings.apply(&patch), Some(1));
    let update = core.apply_pending_settings(&mut settings, &mut save).expect("an update");
    assert!(update.persisted);
    assert_eq!(update.keyboard_hook, Some(false));
    assert_eq!(update.groups, vec!["behavior", "interaction"]);
    assert_eq!(update.engine.name.as_deref(), Some("豆豆"));
    assert!(core.dnd && !core.activity_sensing);
    assert!(core.take_save_request());
    assert!(save.as_ref().is_some_and(|kept| kept.do_not_disturb));
    assert!(core.apply_pending_settings(&mut settings, &mut save).is_none());
}

#[test]
fn backups_are_known_by_their_names() {
    assert_eq!(classify_backup("save.json.bak"), Some(SaveBackupKind::LastGood));
    assert_eq!(classify_backup("save.corrupt.17.json"), Some(SaveBackupKind::Corrupt));
    assert_eq!(classify_backup("save.future.17.json"), Some(SaveBackupKind::Future));
    assert_eq!(classify_backup("save.json.v1bak"), Some(SaveBackupKind::V1Migration));
    assert_eq!(classify_backup("save.json"), None);
    assert_eq!(classify_backup("a/save.json.bak"), None);
    assert_eq!(classify_backup("..\\save.json.bak"), None);
    assert_eq!(classify_backup("C:save.json.bak"), None);
    assert_eq!((SAVE_DIR_NAME, SAVE_FILE_NAME), ("DesktopPet", "save.json"));
    assert!(SaveBackupKind::Corrupt.importable() && !SaveBackupKind::Future.importable());
    assert_eq!(SaveBackupKind::Future.blocked_reason(), Some("futureVersion"));
    assert_eq!(SaveBackupKind::V1Migration.blocked_reason(), Some("pendingMigration"));
    assert_eq!(SaveBackupKind::LastGood.blocked_reason(), None);
    assert!(kind_rank(SaveBackupKind::LastGood) < kind_rank(SaveBackupKind::Corrupt));
}

#[test]
fn backups_are_offered_in_order() {
    let file = |name: &str| FileEntry { name: name.to_string(), size_bytes: 1 };
    let offered = list_save_backups(vec![
        file("save.json.v1bak"),
        file("save.corrupt.10.json"),
        file("save.future.5.json"),
        file("readme.md"),
        file("save.corrupt.20.json"),
        file("save.json.bak"),
    ]);
    let names: Vec<&str> = offered.iter().map(|b| b.file.as_str()).collect();
    assert_eq!(
        names,
        vec![
            "save.json.bak",
            "save.corrupt.20.json",
            "save.corrupt.10.json",
            "save.future.5.json",
            "save.json.v1bak",
        ]
    );
    assert!(offered[0].importable && !offered[3].importable);
}

#[test]
fn imports_are_refused_with_a_reason() {
    assert_eq!(resolve_backup_path("save.json.bak", true), Ok("save.json.bak".to_string()));
    assert_eq!(
        resolve_backup_path("save.json.bak", false),
        Err("备份文件不存在：save.json.bak".to_string())
    );
    assert_eq!(
        resolve_backup_path("evil.exe", true),
        Err("不是可识别的存档备份文件名：evil.exe".to_string())
    );
    assert_eq!(
        resolve_backup_path("save.future.5.json", true),
        Err("该备份来自更高版本的存档，无法导入".to_string())
    );
    assert!(resolve_backup_path("save.json.v1bak", true).is_err());
}

#[test]
fn the_status_of_the_save_can_be_noted() {
    let mut handle = SaveStatusHandle::default();
    assert_eq!(handle.get().state, "unknown");
    assert!(handle.get().needs_notice);
    handle.set(SaveStatusInfo { state: "loaded".to_string(), ..SaveStatusInfo::default() });
    handle.note_flush(1_234);
    assert_eq!(handle.get().last_seen_ms, 1_234);
    assert_eq!(handle.get().state, "loaded");
}

#[test]
fn days_and_weeks_have_keys() {
    assert_eq!(local_day_key(0, 0), "1970-01-01");
    assert_eq!(local_week_key(0, 0), "1970-W01");
    assert_eq!(local_day_key(-1, 0), "1969-12-31");
    assert_eq!(local_day_key(1_800_000_000_000, 0), "2027-01-15");
    assert_eq!(local_week_key(1_800_000_000_000, 0), "2027-W02");
    assert_eq!(local_day_key(951_782_400_000, 0), "2000-02-29");
    assert_eq!(local_week_key(1_609_632_000_000, 0), "2020-W53");
    assert_eq!(local_day_key(1_609_632_000_000, 0), "2021-01-03");
}

#[test]
fn days_and_weeks_turn_with_the_local_clock() {
    let eight_hours = 28_800_000;
    assert_eq!(local_day_key(57_600_000, 0), "1970-01-01");
    assert_eq!(local_day_key(57_600_000, eight_hours), "1970-01-02");
    assert_eq!(local_day_key(57_599_999, eight_hours), "1970-01-01");
    assert_eq!(local_day_key(0, -1), "1969-12-31");
    assert_eq!(local_week_key(1_609_689_600_000, 0), "2020-W53");
    assert_eq!(local_week_key(1_609_689_600_000, eight_hours), "2021-W01");
    assert_eq!(local_day_key(i64::MAX, eight_hours), "1970-01-01");
    assert_eq!(local_week_key(i64::MAX, eight_hours), "1970-W01");
    assert_eq!(local_day_key(i64::MIN, -eight_hours), "1970-01-01");
    assert_eq!(local_week_key(i64::MIN, -eight_hours), "1970-W01");
    assert_eq!(local_day_key(LAST_MS, 1), "1970-01-01");
    assert_ne!(local_day_key(LAST_MS + 1, -1), "1970-01-01");
    assert_ne!(local_week_key(FIRST_MS - 1, 1), "1970-W01");
}

#[test]
fn moments_beyond_the_calendar_count_as_its_start() {
    assert_ne!(local_day_key(FIRST_MS, 0), "1970-01-01");
    assert_ne!(local_day_key(LAST_MS, 0), "1970-01-01");
    assert_eq!(local_day_key(FIRST_MS - 1, 0), "1970-01-01");
    assert_eq!(local_day_key(LAST_MS + 1, 0), "1970-01-01");
    assert_eq!(local_week_key(FIRST_MS - 1, 0), "1970-W01");
    assert_eq!(local_week_key(LAST_MS + 1, 0), "1970-W01");
    assert_eq!(local_day_key(i64::MAX, 0), "1970-01-01");
    assert_eq!(local_day_key(i64::MIN, 0), "1970-01-01");
    assert_eq!(day_key_of(None), "1970-01-01");
    assert_eq!(week_key_of(Some((2026, 7))), "2026-W07");
    assert_eq!(week_key_of(None), "1970-W01");
}

#[test]
fn texts_are_handled_by_character() {
    assert_eq!(text::trim("\u{3000} a b \t"), "a b");
    assert_eq!(text::decimal_text(1_200), "1200");
    assert_eq!(text::integer_text(-5), "-5");
    assert_eq!(text::integer_text(i64::MIN), "-9223372036854775808");
    assert_eq!(text::two_digit_text(7), "07");
    assert_eq!(text::two_digit_text(123), "123");
    assert_eq!(text::joined("豆", "豆"), "豆豆");
    assert!(text::comes_before("a", "b") && !text::comes_before("b", "a"));
    assert!(text::starts_with("save.json", "save") && text::ends_with("save.json", ".json"));
    assert!(text::has_char("a:b", ':') && text::has_double("a..b", '.'));
    assert_eq!(text::slice("豆沙包", 1, 3), "沙包");
}

#[test]
fn numbers_are_compared_as_they_are_ordered() {
    assert!(s(-1.0).less(s(0.5)) && !s(0.5).less(s(-1.0)));
    assert!(s(0.0).same(s(-0.0)) && !s(f32::NAN).same(s(f32::NAN)));
    assert_eq!(s(3.0).clamp_to(s(0.5), s(2.0)), s(2.0));
    assert_eq!(s(0.1).clamp_to(s(0.5), s(2.0)), s(0.5));
    assert_eq!(s(f32::NAN).min(s(1.0)), s(1.0));
    assert_eq!(s(2.0).max(s(-7.0)), s(2.0));
    assert!(s(f32::INFINITY).is_nan() == false && !s(f32::INFINITY).is_finite());
}

#[test]
fn replaced_settings_leave_what_waits() {
    let mut state = SettingsState::default();
    let patch = SettingsPatch { muted: Some(true), ..SettingsPatch::default() };
    assert_eq!(state.apply(&patch), Some(1));
    state.replace_snapshot(build_settings_snapshot(&config(), Some(&saved())));
    assert_eq!(state.snapshot().name, "豆豆");
    assert!(!state.snapshot().muted);
    let waiting = state.take_pending().expect("a change");
    assert_eq!(waiting.patch, patch);
    assert!(state.take_pending().is_none());
}
