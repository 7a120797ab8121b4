//! What passes between the core loop, the frame player, the settings window and
//! the tray: frame commands, play orders, inputs, settings and save backups.

pub mod backup;
pub mod channel;
pub mod frame;
pub mod merge;
pub mod player;
pub mod settings;
pub mod snapshot;

pub use backup::{
    classify_backup, list_save_backups, resolve_backup_path, FileEntry, SaveBackup, SaveBackupKind,
    SaveStatusHandle, SaveStatusInfo, SAVE_DIR_NAME, SAVE_FILE_NAME,
};
pub use channel::{
    CoreInput, CoreInputChannel, PlaybackChannel, PlaybackOrder, PlaybackReport, CORE_INPUT_CAP,
    PLAYBACK_CHANNEL_CAP,
};
pub use frame::{
    frame_cmd, particle_cmd, validate_atlas_name, AtlasMeta, FpsTier, FrameAlpha, FrameRect,
    FrameTierHandle, ParticleCmd, ParticleKind, PlayerFrame, RenderFrameCmd, BUBBLE_EVENT,
    COAX_EVENT, CONFIG_EVENT, DWELL_MS, EMOTION_EVENT, FRAME_CMD_VERSION, FRAME_EVENT, FX_EVENT,
    MENU_CMD_VERSION, MENU_EVENT, PARTICLE_BURST_CAP, PARTICLE_CMD_VERSION, STATE_EVENT,
};
pub use merge::{
    merge_patch, merge_patch_value, normalize_catchphrase_frequency, normalize_topmost_policy,
    PendingSettings, SettingsState,
};
pub use player::{fallback_items_from_atlas, PlayItem, Player, TickOutput, Track};
pub use settings::{
    RemindersPatch, RemindersSnapshot, SettingsPatch, SettingsSnapshot, SETTINGS_VERSION,
};
pub use snapshot::{
    build_settings_snapshot, persist_settings_patch, CatchphraseFrequency, ConfigDefaults,
    SavedReminders, SavedSettings,
};
