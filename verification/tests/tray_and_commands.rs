//! The tray menu, the commands of the windows and the account.

use dp_app::bridge::backup::{FileEntry, SaveBackupKind, SaveStatusInfo};
use dp_app::bridge::channel::{CoreInput, CoreInputChannel};
use dp_app::bridge::merge::SettingsState;
use dp_app::bridge::settings::{RemindersPatch, SettingsPatch, SettingsSnapshot};
use dp_app::commands::{
    audio_effects, autostart_fix, menu_command, pet_buy, pet_decor_place, pet_decor_remove,
    pet_dispatch, pet_emotion_command, pet_recall, pet_tray_coax, save_command, save_status,
    settings_apply, settings_get, settings_reset_all, window_effects, EmotionCommand,
    MenuCommand, SaveCommand, SaveFolder,
};
use dp_app::coreloop::kinds::TrayIconState;
use dp_app::economy_rt::{
    open_account, restore_account, EconomyRuntime, LedgerStart, Stock, SEED_REF,
};
use dp_app::scalar::Scalar;
use dp_app::tray_menu::{
    build_menu, menu_group, next_topmost, tooltip_for, MenuLine, TopmostMode, TrayAction,
    TrayMirror, TrayStep, DEFAULT_PET_NAME,
};

#[test]
fn next_topmost_toggles_and_round_trips() {
    assert_eq!(next_topmost(TopmostMode::Always), TopmostMode::Never);
    assert_eq!(next_topmost(TopmostMode::Never), TopmostMode::Always);
    assert_eq!(next_topmost(TopmostMode::BelowFullscreen), TopmostMode::Always);
    assert_eq!(next_topmost(next_topmost(TopmostMode::Always)), TopmostMode::Always);
    assert_eq!(next_topmost(next_topmost(TopmostMode::Never)), TopmostMode::Never);
}

#[test]
fn next_topmost_roundtrip_and_below_fullscreen() {
    assert_eq!(next_topmost(TopmostMode::Always), TopmostMode::Never);
    assert_eq!(next_topmost(TopmostMode::Never), TopmostMode::Always);
    assert_eq!(next_topmost(TopmostMode::BelowFullscreen), TopmostMode::Always);
    assert_eq!(next_topmost(next_topmost(TopmostMode::Always)), TopmostMode::Always);
    assert_eq!(next_topmost(next_topmost(TopmostMode::Never)), TopmostMode::Never);
}

#[test]
fn tooltip_reflects_state_and_suffixes() {
    assert_eq!(tooltip_for(TrayIconState::Normal, "小星"), "小星");
    assert_eq!(tooltip_for(TrayIconState::LeftHome, "小星"), "小星 离开了");
    assert_eq!(tooltip_for(TrayIconState::NotInteractive, "小星"), "小星（不可交互）");
    assert_eq!(tooltip_for(TrayIconState::Normal, ""), "{name}");
    assert_eq!(tooltip_for(TrayIconState::LeftHome, ""), "{name} 离开了");
}

#[test]
fn tooltip_state_suffixes_and_empty_name() {
    assert_eq!(tooltip_for(TrayIconState::Normal, "小星"), "小星");
    assert_eq!(tooltip_for(TrayIconState::LeftHome, "小星"), "小星 离开了");
    assert_eq!(tooltip_for(TrayIconState::NotInteractive, "小星"), "小星（不可交互）");
    assert_eq!(tooltip_for(TrayIconState::Normal, ""), "{name}");
    assert_eq!(tooltip_for(TrayIconState::LeftHome, ""), "{name} 离开了");
    assert_eq!(tooltip_for(TrayIconState::NotInteractive, ""), "{name}（不可交互）");
}

#[test]
fn default_pet_name_is_a_neutral_placeholder() {
    let role_name = "\u{5fc3}\u{6708}\u{72d0}";
    assert_ne!(DEFAULT_PET_NAME, role_name);
    assert!(!DEFAULT_PET_NAME.is_empty());
}

#[test]
fn default_pet_name_is_neutral() {
    let role = "\u{5fc3}\u{6708}\u{72d0}";
    assert_ne!(DEFAULT_PET_NAME, role);
    assert!(!DEFAULT_PET_NAME.is_empty());
    for label in [DEFAULT_PET_NAME, &tooltip_for(TrayIconState::Normal, DEFAULT_PET_NAME)] {
        assert!(!label.contains(role), "{label}");
    }
}

#[test]
fn separators_stand_between_groups() {
    let entries = [
        TrayAction::Coax,
        TrayAction::Feed,
        TrayAction::Bath,
        TrayAction::ShowHide,
        TrayAction::ToggleTopmost,
        TrayAction::ToggleClickThrough,
        TrayAction::Settings,
        TrayAction::About,
        TrayAction::Quit,
        TrayAction::Recall,
    ];
    let lines = build_menu(&entries);
    let separators: Vec<usize> = lines
        .iter()
        .enumerate()
        .filter(|(_, line)| **line == MenuLine::Separator)
        .map(|(at, _)| at)
        .collect();
    assert_eq!(separators, vec![3, 9, 11]);
    assert_eq!(lines.len(), 13);
    assert_eq!(lines[0], MenuLine::Entry { at: 0 });
    assert_eq!(lines[12], MenuLine::Entry { at: 9 });
    assert!(build_menu(&[]).is_empty());
    assert_eq!(menu_group(TrayAction::Bath), 0);
    assert_eq!(menu_group(TrayAction::About), 1);
    assert_eq!(menu_group(TrayAction::Quit), 2);
    assert_eq!(menu_group(TrayAction::Recall), 3);
}

#[test]
fn tray_entries_act_on_what_the_tray_remembers() {
    let mut mirror = TrayMirror::default();
    assert_eq!(
        mirror.apply_action(TrayAction::ToggleTopmost, false),
        TrayStep::SetTopmost { mode: TopmostMode::Never }
    );
    assert_eq!(mirror.current_topmost(), TopmostMode::Never);
    assert_eq!(
        mirror.apply_action(TrayAction::ToggleTopmost, false),
        TrayStep::SetTopmost { mode: TopmostMode::Always }
    );
    assert_eq!(
        mirror.apply_action(TrayAction::ToggleClickThrough, true),
        TrayStep::SetClickThrough { on: false }
    );
    assert_eq!(
        mirror.apply_action(TrayAction::ShowHide, false),
        TrayStep::SetVisible { visible: false }
    );
    mirror.set_pet_visible(false, false);
    assert!(mirror.visible);
    mirror.set_pet_visible(false, true);
    assert_eq!(
        mirror.apply_action(TrayAction::ShowHide, false),
        TrayStep::SetVisible { visible: true }
    );
    mirror.note_topmost(false);
    assert_eq!(mirror.current_topmost(), TopmostMode::Never);
    assert_eq!(mirror.apply_action(TrayAction::Quit, false), TrayStep::Quit);
    assert_eq!(mirror.apply_action(TrayAction::Recall, false), TrayStep::Recall);
    for action in [
        TrayAction::Settings,
        TrayAction::About,
        TrayAction::Coax,
        TrayAction::Feed,
        TrayAction::Bath,
    ] {
        assert_eq!(mirror.apply_action(action, false), TrayStep::Announce);
    }
}

#[test]
fn menu_command_deserializes_lowercase_and_rejects_unknown() {
    assert_eq!(MenuCommand::from_word("hide"), Some(MenuCommand::Hide));
    assert!(MenuCommand::from_word("Hide").is_none());
    assert!(MenuCommand::from_word("unknown").is_none());
}

#[test]
fn emotion_command_deserializes_camel_case_and_rejects_unknown() {
    assert_eq!(EmotionCommand::from_word("reset"), Some(EmotionCommand::Reset));
    assert_eq!(EmotionCommand::from_word("recall"), Some(EmotionCommand::Recall));
    assert!(EmotionCommand::from_word("reboot").is_none());
}

#[test]
fn save_command_deserializes_and_rejects_unknown() {
    assert_eq!(SaveCommand::from_word("reset"), Some(SaveCommand::Reset));
    assert_eq!(SaveCommand::from_word("import"), Some(SaveCommand::Import));
    assert!(SaveCommand::from_word("wipe").is_none());
}

#[test]
fn hiding_needs_a_window() {
    assert_eq!(menu_command(MenuCommand::Hide, true), Ok(false));
    assert_eq!(
        menu_command(MenuCommand::Hide, false),
        Err("平台窗口层尚未装配，无法隐藏窗口".to_string())
    );
}

fn drained(channel: &mut Option<CoreInputChannel>) -> Vec<CoreInput> {
    channel.as_mut().expect("a channel").drain()
}

#[test]
fn steps_of_the_tray_reach_the_core_loop() {
    let mut channel = Some(CoreInputChannel::default());
    for step in ["coax", "feed", "bath", "recall"] {
        assert_eq!(pet_tray_coax(&mut channel, step), Ok(()));
    }
    assert_eq!(
        pet_tray_coax(&mut channel, "dance"),
        Err("未知的托盘交互步骤：dance".to_string())
    );
    assert_eq!(
        drained(&mut channel),
        vec![
            CoreInput::TrayCoax,
            CoreInput::TrayFeed,
            CoreInput::TrayBath,
            CoreInput::RecallRunaway,
        ]
    );
}

#[test]
fn commands_hand_their_input_to_the_core_loop() {
    let mut channel = Some(CoreInputChannel::default());
    assert_eq!(pet_emotion_command(&mut channel, EmotionCommand::Reset), Ok(()));
    assert_eq!(pet_emotion_command(&mut channel, EmotionCommand::Recall), Ok(()));
    assert_eq!(pet_dispatch(&mut channel, "work".to_string(), "W-1".to_string(), 30), Ok(()));
    assert_eq!(pet_recall(&mut channel), Ok(()));
    assert_eq!(pet_buy(&mut channel, "FOOD_CRACKER".to_string(), 2), Ok(()));
    assert_eq!(pet_decor_place(&mut channel, 3, "LAMP".to_string()), Ok(()));
    assert_eq!(pet_decor_remove(&mut channel, 3), Ok(()));
    assert_eq!(settings_reset_all(&mut channel), Ok(()));
    assert_eq!(
        drained(&mut channel),
        vec![
            CoreInput::ResetEmotion,
            CoreInput::RecallRunaway,
            CoreInput::ActivityDispatch {
                kind: "work".to_string(),
                def_id: "W-1".to_string(),
                duration_min: 30,
            },
            CoreInput::ActivityRecall,
            CoreInput::Purchase { item_id: "FOOD_CRACKER".to_string(), qty: 2 },
            CoreInput::DecorPlace { slot: 3, item_id: "LAMP".to_string() },
            CoreInput::DecorRemove { slot: 3 },
            CoreInput::ResetAllData,
        ]
    );
}

#[test]
fn commands_without_a_core_loop_say_so() {
    let mut none: Option<CoreInputChannel> = None;
    let absent = "core-loop 入站通道尚未装配";
    let words = |tail: &str| Err::<(), String>(format!("{absent}{tail}"));
    assert_eq!(pet_tray_coax(&mut none, "coax"), words("，无法下发托盘交互"));
    assert_eq!(pet_tray_coax(&mut none, "dance"), words("，无法下发托盘交互"));
    assert_eq!(
        pet_emotion_command(&mut none, EmotionCommand::Reset),
        words("，无法下发情绪命令")
    );
    assert_eq!(
        pet_dispatch(&mut none, "work".to_string(), "W-1".to_string(), 30),
        words("，无法派遣活动")
    );
    assert_eq!(pet_recall(&mut none), words("，无法召回活动"));
    assert_eq!(pet_buy(&mut none, "FOOD_CRACKER".to_string(), 2), words("，无法购买"));
    assert_eq!(pet_decor_place(&mut none, 3, "LAMP".to_string()), words(""));
    assert_eq!(pet_decor_remove(&mut none, 3), words(""));
    assert_eq!(settings_reset_all(&mut none), words("，无法下发指令"));
    assert_eq!(
        save_command(&mut none, SaveCommand::Reset, None, None),
        words("，无法下发指令")
    );
    assert!(none.is_none());
}

#[test]
fn settings_are_read_and_changed_where_there_are_any() {
    let absent = "设置服务尚未装配".to_string();
    let patch = SettingsPatch { muted: Some(true), ..SettingsPatch::default() };
    assert_eq!(settings_get(&None), Err(absent.clone()));
    assert_eq!(settings_apply(&mut None, &patch), Err(absent));

    let mut state = Some(SettingsState::default());
    let before = settings_get(&state).expect("settings");
    let after = settings_apply(&mut state, &patch).expect("settings");
    assert!(after.muted);
    assert_eq!(after.revision, before.revision + 1);
    assert_eq!(settings_get(&state), Ok(after));
    let waiting = state.as_mut().expect("settings").take_pending().expect("a change");
    assert_eq!(waiting.patch.groups(), vec!["audio"]);
}

#[test]
fn a_save_without_a_place_is_unavailable() {
    let status = save_status(None, Some(SaveStatusInfo::default()));
    assert_eq!(status.state, "unavailable");
    assert!(!status.available && !status.healthy && !status.writable && !status.exists);
    assert!(status.needs_notice);
    assert!(status.backups.is_empty() && status.path.is_empty());
}

fn folder(exists: bool) -> SaveFolder {
    SaveFolder {
        path: "DesktopPet/save.json".to_string(),
        exists,
        files: vec![
            FileEntry { name: "notes.txt".to_string(), size_bytes: 1 },
            FileEntry { name: "save.json.bak".to_string(), size_bytes: 42 },
        ],
    }
}

#[test]
fn a_save_is_shown_as_it_was_loaded() {
    let loaded = SaveStatusInfo {
        state: "loaded".to_string(),
        healthy: true,
        needs_notice: false,
        writable: true,
        last_seen_ms: 77,
    };
    let status = save_status(Some(folder(true)), Some(loaded));
    assert_eq!(status.state, "loaded");
    assert!(status.healthy && status.writable && status.available && status.exists);
    assert!(!status.needs_notice);
    assert_eq!(status.last_seen_ms, 77);
    assert_eq!(status.backups.len(), 1);
    assert_eq!(status.backups[0].file, "save.json.bak");
    assert_eq!(status.backups[0].kind, SaveBackupKind::LastGood);
    assert!(status.backups[0].importable);
    assert_eq!(status.backups[0].blocked_reason, None);
}

#[test]
fn a_save_that_nobody_has_loaded_needs_a_notice() {
    for exists in [true, false] {
        let status = save_status(Some(folder(exists)), None);
        assert_eq!(status.state, "unknown");
        assert!(!status.healthy && status.needs_notice && !status.writable);
        assert_eq!((status.available, status.exists), (true, exists));
        assert_eq!(status.last_seen_ms, 0);
        assert_eq!(status.backups.len(), 1);
    }
}

#[test]
fn commands_on_the_save_are_refused_with_a_reason() {
    let mut channel = Some(CoreInputChannel::default());
    let bak = || Some("save.json.bak".to_string());
    assert_eq!(
        save_command(&mut channel, SaveCommand::Import, None, Some(true)),
        Err("导入存档需要提供备份文件名".to_string())
    );
    assert_eq!(
        save_command(&mut channel, SaveCommand::Import, bak(), None),
        Err("存档目录不可用，无法导入".to_string())
    );
    assert!(save_command(&mut channel, SaveCommand::Import, bak(), Some(false)).is_err());
    let outside = Some("../save.json.bak".to_string());
    assert!(save_command(&mut channel, SaveCommand::Import, outside, Some(true)).is_err());
    assert!(drained(&mut channel).is_empty());

    assert_eq!(save_command(&mut channel, SaveCommand::Import, bak(), Some(true)), Ok(()));
    assert_eq!(save_command(&mut channel, SaveCommand::Reset, None, None), Ok(()));
    assert_eq!(
        drained(&mut channel),
        vec![
            CoreInput::ImportSave { file: "save.json.bak".to_string() },
            CoreInput::ResetAllData,
        ]
    );
}

#[test]
fn settings_of_the_window_take_effect() {
    let mut settings = SettingsSnapshot::default();
    settings.scale_percent = 150;
    settings.always_on_top_policy = " never ".to_string();
    settings.click_through = true;
    let effects = window_effects(&settings, 256);
    assert_eq!(effects.logical_size, 384);
    assert_eq!(effects.topmost, TopmostMode::Never);
    assert!(effects.click_through && !effects.topmost_on);
    settings.always_on_top_policy = "BelowFullscreen".to_string();
    assert_eq!(window_effects(&settings, 256).topmost, TopmostMode::BelowFullscreen);
    settings.always_on_top_policy = "sometimes".to_string();
    assert_eq!(window_effects(&settings, 256).topmost, TopmostMode::Always);
    settings.always_on_top_policy = "Always".to_string();
    assert!(window_effects(&settings, 256).topmost_on);

    settings.muted = true;
    settings.master_volume_percent = 10;
    settings.do_not_disturb = true;
    let audio = audio_effects(&settings);
    assert_eq!(audio.master_volume_percent, 10);
    assert!(audio.muted && audio.do_not_disturb && audio.click_through);
}

#[test]
fn the_settings_never_claim_what_is_not_so() {
    assert!(autostart_fix(true, Some(true)).is_none());
    assert!(autostart_fix(false, Some(false)).is_none());
    let fix = autostart_fix(true, Some(false)).expect("a fix");
    assert_eq!(fix.autostart, Some(false));
    assert_eq!(fix.muted, None);
    assert_eq!(autostart_fix(false, Some(true)).expect("a fix").autostart, Some(true));
    assert_eq!(autostart_fix(true, None).expect("a fix").autostart, Some(false));
    assert_eq!(autostart_fix(false, None).expect("a fix").autostart, Some(false));
}

#[test]
fn a_patch_names_the_groups_it_touches() {
    let patch = SettingsPatch {
        scale_percent: Some(150),
        muted: Some(true),
        ..SettingsPatch::default()
    };
    assert_eq!(patch.scale_percent, Some(150));
    assert_eq!(patch.muted, Some(true));
    assert!(patch.opacity_percent.is_none());
    assert_eq!(patch.groups(), vec!["appearance", "audio"]);
}

#[test]
fn empty_settings_patch_is_noop() {
    let patch = SettingsPatch::default();
    assert!(patch.is_empty());
    assert!(patch.groups().is_empty());
}

#[test]
fn settings_patch_groups_use_config_section_names() {
    let known = ["pet", "appearance", "audio", "behavior", "interaction", "reminders"];
    let patch = SettingsPatch {
        name: Some("x".to_string()),
        opacity_percent: Some(80),
        master_volume_percent: Some(10),
        muted: Some(false),
        auto_roam: Some(false),
        click_through: Some(true),
        autostart: Some(true),
        do_not_disturb: Some(true),
        always_on_top_policy: Some("Never".to_string()),
        sensitivity_value: Some(Scalar { bits: 1.3f32.to_bits() }),
        catchphrase_enabled: Some(false),
        catchphrase_frequency: Some("low".to_string()),
        click_feedback_enabled: Some(false),
        activity_sensing: Some(false),
        reminders: Some(RemindersPatch {
            water_interval_min: Some(60),
            ..RemindersPatch::default()
        }),
        ..SettingsPatch::default()
    };
    let groups = patch.groups();
    assert_eq!(
        groups,
        vec!["pet", "appearance", "audio", "behavior", "interaction", "reminders"]
    );
    for group in groups {
        assert!(known.contains(&group), "{group}");
    }
}

fn json(text: &str) -> serde_json::Value {
    serde_json::from_str(text).expect("valid JSON")
}

#[test]
fn a_balance_without_a_ledger_gets_a_first_entry() {
    let economy = json("{\"coin\":1280,\"ledger\":[],\"earnedToday\":15,\"dayKey\":\"2026-09-19\"}");
    let account = restore_account(&economy, Some(0));
    assert_eq!(account.earned_today, 15);
    assert_eq!(account.day_key, "2026-09-19");
    match account.start {
        LedgerStart::Seeded { record } => {
            assert_eq!((record.seq, record.at_ms), (1, 0));
            assert_eq!(record.ref_id, SEED_REF);
            assert_eq!((record.amount, record.balance_after), (1280, 1280));
            assert_eq!(record.day_bucket, "2026-09-19");
        }
        other => panic!("{other:?}"),
    }
    assert_eq!(restore_account(&economy, Some(3)).start, LedgerStart::Kept);
}

#[test]
fn members_of_another_type_count_as_missing() {
    let economy = json("{\"coin\":\"1280\",\"earnedToday\":1.5,\"dayKey\":7}");
    let account = restore_account(&economy, None);
    assert_eq!(account.start, LedgerStart::Empty);
    assert_eq!((account.earned_today, account.day_key.as_str()), (0, ""));
    let nothing = restore_account(&json("[1,2]"), None);
    assert_eq!(nothing.start, LedgerStart::Empty);
    assert_eq!(restore_account(&json("{}"), Some(2)).start, LedgerStart::Kept);
}

#[test]
fn an_account_opens_from_plain_values() {
    let account = open_account(Some(-5), None, Some("d".to_string()), None);
    match account.start {
        LedgerStart::Seeded { record } => assert_eq!((record.amount, record.balance_after), (-5, -5)),
        other => panic!("{other:?}"),
    }
    assert_eq!(open_account(None, Some(9), None, None).earned_today, 9);
    assert_eq!(open_account(Some(0), None, None, None).start, LedgerStart::Empty);
}

fn crackers(count: u32) -> Vec<Stock> {
    vec![Stock { item_id: "FOOD_CRACKER".to_string(), count }]
}

fn save_of(runtime: &EconomyRuntime) -> serde_json::Value {
    runtime.to_save_economy(json("[{\"amount\":1}]"), json("{}"), json("null"))
}

#[test]
fn restore_preserves_balance_and_inventory() {
    let economy = json("{\"coin\":500,\"ledger\":[],\"earnedToday\":0,\"dayKey\":\"2026-09-19\"}");
    let mut runtime = EconomyRuntime::restore(&economy, Some(0), 0, Vec::new());
    assert_eq!(runtime.balance(), 500);
    assert_eq!(runtime.inventory_count("FOOD_CRACKER"), 0);
    runtime.booked(490, 0, "2026-09-19".to_string(), crackers(1));

    let section = save_of(&runtime);
    let items = runtime.to_save_inventory();
    let again = EconomyRuntime::restore(&section, Some(2), 490, items);
    assert_eq!(again.balance(), 490);
    assert_eq!(again.inventory_count("FOOD_CRACKER"), 1);
    assert_eq!(again.inventory_count("FOOD_APPLE"), 0);
    assert_eq!(again.account.day_key, "2026-09-19");

    let unread = EconomyRuntime::restore(&section, None, 7, runtime.to_save_inventory());
    assert_eq!(unread.balance(), 490);
    assert_eq!(unread.inventory_count("FOOD_CRACKER"), 1);
}

#[test]
fn the_section_of_the_save_holds_what_it_should() {
    let mut runtime = EconomyRuntime::restore(&json("{}"), None, 0, Vec::new());
    assert_eq!(runtime.balance(), 0);
    runtime.booked(-3, 12, "d".to_string(), crackers(2));
    assert_eq!(
        save_of(&runtime),
        json(
            "{\"coin\":-3,\"ledger\":[{\"amount\":1}],\"earnedToday\":12,\"dayKey\":\"d\",\
             \"quotas\":{},\"achievements\":null}"
        )
    );
    assert_eq!(runtime.to_save_inventory(), crackers(2));
}
