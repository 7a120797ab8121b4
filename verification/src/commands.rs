//! What the windows of the application ask for.
//!
//! Most commands only hand an input to the core loop, which alone changes the pet and
//! writes the save. Settings that concern the window take effect at once.

use crate::bridge::backup::{
    list_save_backups, resolve_backup_path, FileEntry, SaveBackup, SaveStatusInfo,
};
use crate::bridge::channel::{CoreInput, CoreInputChannel};
use crate::bridge::merge::{normalize_topmost_policy, SettingsState};
use crate::bridge::settings::{PatchView, SettingsPatch, SettingsSnapshot, SettingsView};
use crate::text;
use crate::tray_menu::TopmostMode;
use vstd::prelude::*;

verus! {

/// What the context menu asks for.
#[derive(Debug, Clone, Copy, PartialEq, Eq, Structural)]
pub enum MenuCommand {
    /// Hide the pet window.
    Hide,
}

impl MenuCommand {
    /// The command that a word stands for.
    pub open spec fn named(word: Seq<char>) -> Option<MenuCommand> {
        if word == "hide"@ {
            Some(MenuCommand::Hide)
        } else {
            None
        }
    }

    /// The command that a word stands for; any other word is refused.
    pub fn from_word(word: &str) -> (r: Option<MenuCommand>)
        ensures
            r == MenuCommand::named(word@),
    {
        if text::equal(word, "hide") {
            Some(MenuCommand::Hide)
        } else {
            None
        }
    }
}

/// What the settings window asks for on behalf of the mood.
#[derive(Debug, Clone, Copy, PartialEq, Eq, Structural)]
pub enum EmotionCommand {
    /// Settle the mood back to its calm level.
    Reset,
    /// Call the runaway pet back.
    Recall,
}

impl EmotionCommand {
    /// The command that a word stands for.
    pub open spec fn named(word: Seq<char>) -> Option<EmotionCommand> {
        if word == "reset"@ {
            Some(EmotionCommand::Reset)
        } else if word == "recall"@ {
            Some(EmotionCommand::Recall)
        } else {
            None
        }
    }

    /// The command that a word stands for; any other word is refused.
    pub fn from_word(word: &str) -> (r: Option<EmotionCommand>)
        ensures
            r == EmotionCommand::named(word@),
    {
        if text::equal(word, "reset") {
            Some(EmotionCommand::Reset)
        } else if text::equal(word, "recall") {
            Some(EmotionCommand::Recall)
        } else {
            None
        }
    }

    /// The input that the command leads to.
    pub open spec fn input(self) -> CoreInput {
        match self {
            EmotionCommand::Reset => CoreInput::ResetEmotion,
            EmotionCommand::Recall => CoreInput::RecallRunaway,
        }
    }
}

/// What the settings window asks for on behalf of the save.
#[derive(Debug, Clone, Copy, PartialEq, Eq, Structural)]
pub enum SaveCommand {
    /// Rebuild the save from scratch.
    Reset,
    /// Replace the save by a backup.
    Import,
}

impl SaveCommand {
    /// The command that a word stands for.
    pub open spec fn named(word: Seq<char>) -> Option<SaveCommand> {
        if word == "reset"@ {
            Some(SaveCommand::Reset)
        } else if word == "import"@ {
            Some(SaveCommand::Import)
        } else {
            None
        }
    }

    /// The command that a word stands for; any other word is refused.
    pub fn from_word(word: &str) -> (r: Option<SaveCommand>)
        ensures
            r == SaveCommand::named(word@),
    {
        if text::equal(word, "reset") {
            Some(SaveCommand::Reset)
        } else if text::equal(word, "import") {
            Some(SaveCommand::Import)
        } else {
            None
        }
    }
}

/// What the context menu's command does to the window: whether it is shown afterwards.
pub fn menu_command(command: MenuCommand, window_ready: bool) -> (r: Result<bool, String>)
    ensures
        r is Ok <==> window_ready,
        r matches Ok(visible) ==> !visible,
        r matches Err(words) ==> words@ == "平台窗口层尚未装配，无法隐藏窗口"@,
{
    match command {
        MenuCommand::Hide => if window_ready {
            Ok(false)
        } else {
            Err("平台窗口层尚未装配，无法隐藏窗口".to_owned())
        },
    }
}

/// `channel` as it is after `input` was handed to it.
pub open spec fn handed(before: CoreInputChannel, after: CoreInputChannel, input: CoreInput) -> bool {
    &&& after.wf()
    &&& after.inputs() == crate::queue::newest(
        before.inputs(),
        crate::bridge::channel::CORE_INPUT_CAP as nat,
        input,
    )
    &&& after.lost() == crate::queue::losses_after(
        before.lost(),
        before.inputs().len(),
        crate::bridge::channel::CORE_INPUT_CAP as nat,
    )
}

/// The channel to the core loop, where it is set up, is in order.
pub open spec fn ready(channel: Option<CoreInputChannel>) -> bool {
    channel matches Some(open) ==> open.wf()
}

/// What became of an `input` for the core loop: it was handed over, or `absent` says that
/// there is no channel to hand it to.
pub open spec fn posted(
    before: Option<CoreInputChannel>,
    after: Option<CoreInputChannel>,
    input: CoreInput,
    absent: Seq<char>,
    r: Result<(), String>,
) -> bool {
    match before {
        Some(open) => r is Ok && after is Some && handed(open, after->0, input),
        None => after is None && (r matches Err(words) && words@ == absent),
    }
}

/// Hands an input to the core loop, or says in the words of `absent` that there is no
/// channel to hand it to.
fn post(channel: &mut Option<CoreInputChannel>, input: CoreInput, absent: &str) -> (r: Result<
    (),
    String,
>)
    requires
        ready(*old(channel)),
    ensures
        ready(*final(channel)),
        posted(*old(channel), *final(channel), input, absent@, r),
{
    match channel {
        Some(open) => {
            open.push(input);
            Ok(())
        },
        None => Err(absent.to_owned()),
    }
}

/// The input that a step of the tray leads to.
pub open spec fn tray_input(step: Seq<char>) -> Option<CoreInput> {
    if step == "coax"@ {
        Some(CoreInput::TrayCoax)
    } else if step == "feed"@ {
        Some(CoreInput::TrayFeed)
    } else if step == "bath"@ {
        Some(CoreInput::TrayBath)
    } else if step == "recall"@ {
        Some(CoreInput::RecallRunaway)
    } else {
        None
    }
}

/// Hands a stroke, a meal, a bath or a recall to the core loop; any other step is refused.
pub fn pet_tray_coax(channel: &mut Option<CoreInputChannel>, step: &str) -> (r: Result<(), String>)
    requires
        ready(*old(channel)),
    ensures
        ready(*final(channel)),
        r is Ok <==> *old(channel) is Some && tray_input(step@) is Some,
        r is Ok ==> *final(channel) is Some && handed(
            (*old(channel))->0,
            (*final(channel))->0,
            tray_input(step@)->0,
        ),
        r is Err ==> *final(channel) == *old(channel),
        r matches Err(words) ==> words@ == if *old(channel) is None {
            "core-loop 入站通道尚未装配，无法下发托盘交互"@
        } else {
            "未知的托盘交互步骤："@ + step@
        },
{
    let absent: &'static str = "core-loop 入站通道尚未装配，无法下发托盘交互";
    if channel.is_none() {
        return Err(absent.to_owned());
    }
    let input = if text::equal(step, "coax") {
        CoreInput::TrayCoax
    } else if text::equal(step, "feed") {
        CoreInput::TrayFeed
    } else if text::equal(step, "bath") {
        CoreInput::TrayBath
    } else if text::equal(step, "recall") {
        CoreInput::RecallRunaway
    } else {
        return Err(text::joined("未知的托盘交互步骤：", step));
    };
    post(channel, input, absent)
}

/// Hands a reset of the mood or a recall to the core loop.
pub fn pet_emotion_command(
    channel: &mut Option<CoreInputChannel>,
    command: EmotionCommand,
) -> (r: Result<(), String>)
    requires
        ready(*old(channel)),
    ensures
        ready(*final(channel)),
        posted(
            *old(channel),
            *final(channel),
            command.input(),
            "core-loop 入站通道尚未装配，无法下发情绪命令"@,
            r,
        ),
{
    let input = match command {
        EmotionCommand::Reset => CoreInput::ResetEmotion,
        EmotionCommand::Recall => CoreInput::RecallRunaway,
    };
    post(channel, input, "core-loop 入站通道尚未装配，无法下发情绪命令")
}

/// Asks the core loop to send the pet out.
pub fn pet_dispatch(
    channel: &mut Option<CoreInputChannel>,
    kind: String,
    def_id: String,
    duration_min: u32,
) -> (r: Result<(), String>)
    requires
        ready(*old(channel)),
    ensures
        ready(*final(channel)),
        posted(
            *old(channel),
            *final(channel),
            (CoreInput::ActivityDispatch { kind, def_id, duration_min }),
            "core-loop 入站通道尚未装配，无法派遣活动"@,
            r,
        ),
{
    let input = CoreInput::ActivityDispatch { kind, def_id, duration_min };
    post(channel, input, "core-loop 入站通道尚未装配，无法派遣活动")
}

/// Asks the core loop to call the pet back from an activity.
pub fn pet_recall(channel: &mut Option<CoreInputChannel>) -> (r: Result<(), String>)
    requires
        ready(*old(channel)),
    ensures
        ready(*final(channel)),
        posted(
            *old(channel),
            *final(channel),
            CoreInput::ActivityRecall,
            "core-loop 入站通道尚未装配，无法召回活动"@,
            r,
        ),
{
    post(channel, CoreInput::ActivityRecall, "core-loop 入站通道尚未装配，无法召回活动")
}

/// Asks the core loop to buy from the shop.
pub fn pet_buy(
    channel: &mut Option<CoreInputChannel>,
    item_id: String,
    qty: u32,
) -> (r: Result<(), String>)
    requires
        ready(*old(channel)),
    ensures
        ready(*final(channel)),
        posted(
            *old(channel),
            *final(channel),
            (CoreInput::Purchase { item_id, qty }),
            "core-loop 入站通道尚未装配，无法购买"@,
            r,
        ),
{
    let input = CoreInput::Purchase { item_id, qty };
    post(channel, input, "core-loop 入站通道尚未装配，无法购买")
}

/// Asks the core loop to put a decoration into a slot.
pub fn pet_decor_place(
    channel: &mut Option<CoreInputChannel>,
    slot: u8,
    item_id: String,
) -> (r: Result<(), String>)
    requires
        ready(*old(channel)),
    ensures
        ready(*final(channel)),
        posted(
            *old(channel),
            *final(channel),
            (CoreInput::DecorPlace { slot, item_id }),
            "core-loop 入站通道尚未装配"@,
            r,
        ),
{
    let input = CoreInput::DecorPlace { slot, item_id };
    post(channel, input, "core-loop 入站通道尚未装配")
}

/// Asks the core loop to clear a decoration slot.
pub fn pet_decor_remove(channel: &mut Option<CoreInputChannel>, slot: u8) -> (r: Result<(), String>)
    requires
        ready(*old(channel)),
    ensures
        ready(*final(channel)),
        posted(
            *old(channel),
            *final(channel),
            (CoreInput::DecorRemove { slot }),
            "core-loop 入站通道尚未装配"@,
            r,
        ),
{
    post(channel, CoreInput::DecorRemove { slot }, "core-loop 入站通道尚未装配")
}

/// The settings in effect, where there are settings yet.
pub fn settings_get(state: &Option<SettingsState>) -> (r: Result<SettingsSnapshot, String>)
    ensures
        r is Ok <==> *state is Some,
        r matches Ok(snapshot) ==> snapshot@ == (*state)->0.settings(),
        r matches Err(words) ==> words@ == "设置服务尚未装配"@,
{
    match state {
        Some(state) => Ok(state.snapshot()),
        None => Err("设置服务尚未装配".to_owned()),
    }
}

/// Takes a change of the settings, where there are settings yet, and gives them as they
/// are then. The change waits for the core loop.
pub fn settings_apply(state: &mut Option<SettingsState>, patch: &SettingsPatch) -> (r: Result<
    SettingsSnapshot,
    String,
>)
    requires
        *old(state) matches Some(s) ==> s.settings().takes(patch@),
    ensures
        r is Ok <==> *old(state) is Some,
        *final(state) is Some <==> *old(state) is Some,
        r matches Ok(snapshot) ==> {
            let (before, after) = ((*old(state))->0, (*final(state))->0);
            &&& after.settings() == before.settings().merged(patch@).recounted()
            &&& after.waiting() == Some(crate::bridge::merge::joined(before.waiting(), patch@))
            &&& snapshot@ == after.settings()
        },
        r matches Err(words) ==> words@ == "设置服务尚未装配"@,
{
    match state {
        Some(state) => {
            state.apply(patch);
            Ok(state.snapshot())
        },
        None => Err("设置服务尚未装配".to_owned()),
    }
}

/// Asks the core loop to rebuild the save from scratch.
pub fn settings_reset_all(channel: &mut Option<CoreInputChannel>) -> (r: Result<(), String>)
    requires
        ready(*old(channel)),
    ensures
        ready(*final(channel)),
        posted(
            *old(channel),
            *final(channel),
            CoreInput::ResetAllData,
            "core-loop 入站通道尚未装配，无法下发指令"@,
            r,
        ),
{
    post(channel, CoreInput::ResetAllData, "core-loop 入站通道尚未装配，无法下发指令")
}

/// How the save stands, as the settings window shows it.
#[derive(Clone, Debug, PartialEq, Eq)]
pub struct SaveStatus {
    /// Where the save is.
    pub path: String,
    pub exists: bool,
    /// How loading went, in a word.
    pub state: String,
    pub healthy: bool,
    pub needs_notice: bool,
    pub writable: bool,
    /// There is a place for the save.
    pub available: bool,
    /// Wall clock of the last write, in milliseconds.
    pub last_seen_ms: i64,
    /// The backups, those that can be imported first.
    pub backups: Vec<SaveBackup>,
}

/// What was found at the place of the save.
#[derive(Clone, Debug)]
pub struct SaveFolder {
    /// Where the save is.
    pub path: String,
    pub exists: bool,
    /// The files beside it.
    pub files: Vec<FileEntry>,
}

impl SaveStatus {
    /// How the save stands, given what was found at its place and how loading went.
    pub open spec fn tells(self, folder: Option<SaveFolder>, loaded: Option<SaveStatusInfo>) -> bool {
        match folder {
            None => {
                &&& self.path@ == Seq::<char>::empty()
                &&& !self.exists
                &&& self.state@ == "unavailable"@
                &&& !self.healthy
                &&& self.needs_notice
                &&& !self.writable
                &&& !self.available
                &&& self.last_seen_ms == 0
                &&& self.backups@ == Seq::<SaveBackup>::empty()
            },
            Some(place) => {
                &&& self.path@ == place.path@
                &&& self.exists == place.exists
                &&& self.available
                &&& crate::bridge::backup::backup_views(self.backups@)
                    == crate::bridge::backup::offered(place.files@)
                &&& forall|i: int|
                    0 <= i < self.backups@.len() ==> (#[trigger] self.backups@[i]).wf()
                &&& loaded matches Some(info) ==> {
                    &&& self.state@ == info.state@
                    &&& self.healthy == info.healthy
                    &&& self.needs_notice == info.needs_notice
                    &&& self.writable == info.writable
                    &&& self.last_seen_ms == info.last_seen_ms
                }
                &&& loaded is None ==> {
                    &&& self.state@ == "unknown"@
                    &&& !self.healthy
                    &&& self.needs_notice
                    &&& !self.writable
                    &&& self.last_seen_ms == 0
                }
            },
        }
    }
}

/// How the save stands.
///
/// Without a place for the save it is unavailable. Where nobody knows how loading went,
/// the save does not count as healthy and the user is to be told.
pub fn save_status(folder: Option<SaveFolder>, loaded: Option<SaveStatusInfo>) -> (r: SaveStatus)
    ensures
        r.tells(folder, loaded),
{
    match folder {
        None => SaveStatus {
            path: String::new(),
            exists: false,
            state: "unavailable".to_owned(),
            healthy: false,
            needs_notice: true,
            writable: false,
            available: false,
            last_seen_ms: 0,
            backups: Vec::new(),
        },
        Some(place) => {
            let info = match loaded {
                Some(info) => info,
                None => SaveStatusInfo::default(),
            };
            SaveStatus {
                path: place.path,
                exists: place.exists,
                state: info.state,
                healthy: info.healthy,
                needs_notice: info.needs_notice,
                writable: info.writable,
                available: true,
                last_seen_ms: info.last_seen_ms,
                backups: list_save_backups(place.files),
            }
        },
    }
}

/// Why a command on the save is refused; none where it is not.
///
/// `present` says whether the named file stands beside the save, none that there is no
/// place for the save.
pub open spec fn save_refusal(
    command: SaveCommand,
    file: Option<Seq<char>>,
    present: Option<bool>,
) -> Option<Seq<char>> {
    match command {
        SaveCommand::Reset => None,
        SaveCommand::Import => match file {
            None => Some("导入存档需要提供备份文件名"@),
            Some(name) => match present {
                None => Some("存档目录不可用，无法导入"@),
                Some(there) => crate::bridge::backup::import_refusal(name, there),
            },
        },
    }
}

/// The input that a command on the save leads to.
pub open spec fn save_input(command: SaveCommand, file: Option<String>) -> CoreInput {
    match command {
        SaveCommand::Reset => CoreInput::ResetAllData,
        SaveCommand::Import => CoreInput::ImportSave { file: file->0 },
    }
}

/// Hands a command on the save to the core loop, unless it is refused.
pub fn save_command(
    channel: &mut Option<CoreInputChannel>,
    command: SaveCommand,
    file: Option<String>,
    present: Option<bool>,
) -> (r: Result<(), String>)
    requires
        ready(*old(channel)),
    ensures
        ready(*final(channel)),
        match save_refusal(command, crate::bridge::settings::maybe_text(file), present) {
            Some(why) => *final(channel) == *old(channel) && (r matches Err(words) && words@ == why),
            None => posted(
                *old(channel),
                *final(channel),
                save_input(command, file),
                "core-loop 入站通道尚未装配，无法下发指令"@,
                r,
            ),
        },
{
    let input = match command {
        SaveCommand::Reset => CoreInput::ResetAllData,
        SaveCommand::Import => match file {
            None => {
                return Err("导入存档需要提供备份文件名".to_owned());
            },
            Some(name) => match present {
                None => {
                    return Err("存档目录不可用，无法导入".to_owned());
                },
                Some(there) => match resolve_backup_path(name.as_str(), there) {
                    Err(words) => {
                        return Err(words);
                    },
                    Ok(_) => CoreInput::ImportSave { file: name },
                },
            },
        },
    };
    post(channel, input, "core-loop 入站通道尚未装配，无法下发指令")
}

/// What the settings ask of the window.
#[derive(Clone, Copy, Debug, PartialEq, Eq, Structural)]
pub struct WindowEffects {
    /// Side of the window before the scale of the monitor.
    pub logical_size: u32,
    pub scale_percent: u32,
    pub topmost: TopmostMode,
    pub click_through: bool,
    /// What the tray shows of staying above others.
    pub topmost_on: bool,
}

/// Whether the window stays above others under a policy; one that nobody knows counts as
/// always.
pub open spec fn topmost_under(policy: Seq<char>) -> TopmostMode {
    match crate::bridge::merge::policy_of(text::trimmed(policy)) {
        Some(word) => if word == "Never"@ {
            TopmostMode::Never
        } else if word == "BelowFullscreen"@ {
            TopmostMode::BelowFullscreen
        } else {
            TopmostMode::Always
        },
        None => TopmostMode::Always,
    }
}

/// The side of a window that is `base` large at full scale.
pub open spec fn side_at(base: int, percent: int) -> int {
    base * percent / 100
}

/// What the settings ask of a window that is `base` large at full scale.
pub fn window_effects(settings: &SettingsSnapshot, base: u32) -> (r: WindowEffects)
    requires
        base * settings.scale_percent <= u32::MAX,
    ensures
        r.logical_size == side_at(base as int, settings.scale_percent as int),
        r.scale_percent == settings.scale_percent,
        r.topmost == topmost_under(settings.always_on_top_policy@),
        r.click_through == settings.click_through,
        r.topmost_on == (settings.always_on_top_policy@ == "Always"@),
{
    let topmost = match normalize_topmost_policy(settings.always_on_top_policy.as_str()) {
        Some(word) => if text::equal(word, "Never") {
            TopmostMode::Never
        } else if text::equal(word, "BelowFullscreen") {
            TopmostMode::BelowFullscreen
        } else {
            TopmostMode::Always
        },
        None => TopmostMode::Always,
    };
    assert(0 <= base * settings.scale_percent) by (nonlinear_arith);
    WindowEffects {
        logical_size: base * settings.scale_percent / 100,
        scale_percent: settings.scale_percent,
        topmost,
        click_through: settings.click_through,
        topmost_on: text::equal(settings.always_on_top_policy.as_str(), "Always"),
    }
}

/// What the settings ask of the sounds.
#[derive(Clone, Copy, Debug, PartialEq, Eq, Structural)]
pub struct AudioSettings {
    pub master_volume_percent: u32,
    pub muted: bool,
    pub do_not_disturb: bool,
    pub click_through: bool,
}

/// What the settings ask of the sounds.
pub open spec fn sounds_under(settings: SettingsView) -> AudioSettings {
    AudioSettings {
        master_volume_percent: settings.master_volume_percent,
        muted: settings.muted,
        do_not_disturb: settings.do_not_disturb,
        click_through: settings.click_through,
    }
}

/// What the settings ask of the sounds.
pub fn audio_effects(settings: &SettingsSnapshot) -> (r: AudioSettings)
    ensures
        r == sounds_under(settings@),
{
    AudioSettings {
        master_volume_percent: settings.master_volume_percent,
        muted: settings.muted,
        do_not_disturb: settings.do_not_disturb,
        click_through: settings.click_through,
    }
}

/// How the settings are put right where the system does not start the pet as `wanted`.
pub open spec fn corrected(wanted: bool, actual: Option<bool>) -> Option<PatchView> {
    if actual == Some(wanted) {
        None
    } else {
        Some(
            PatchView {
                autostart: Some(
                    match actual {
                        Some(on) => on,
                        None => false,
                    },
                ),
                ..PatchView::nothing()
            },
        )
    }
}

/// How the settings are put right after starting with the system was switched.
///
/// `actual` is what the system says, none where it could not be switched. The settings
/// never claim what is not so.
pub fn autostart_fix(wanted: bool, actual: Option<bool>) -> (r: Option<SettingsPatch>)
    ensures
        crate::bridge::merge::maybe_patch(r) == corrected(wanted, actual),
{
    let on = match actual {
        Some(on) => if on == wanted {
            return None;
        } else {
            on
        },
        None => false,
    };
    let mut fix = SettingsPatch::default();
    fix.autostart = Some(on);
    Some(fix)
}

/// Every word of a window stands for one command at most, and every command has one word.
pub proof fn lemma_words_of_commands(word: Seq<char>)
    ensures
        MenuCommand::named(word) is Some <==> word == "hide"@,
        EmotionCommand::named(word) == Some(EmotionCommand::Reset) <==> word == "reset"@,
        EmotionCommand::named(word) == Some(EmotionCommand::Recall) <==> word == "recall"@,
        SaveCommand::named(word) == Some(SaveCommand::Reset) <==> word == "reset"@,
        SaveCommand::named(word) == Some(SaveCommand::Import) <==> word == "import"@,
{
    reveal_strlit("reset");
    reveal_strlit("recall");
    reveal_strlit("import");
    assert("reset"@.len() == 5 && "recall"@.len() == 6 && "import"@.len() == 6);
}

/// Every step of the tray leads to an input of its own, any other step to none.
pub proof fn lemma_inputs_of_tray_steps(step: Seq<char>)
    ensures
        tray_input(step) == Some(CoreInput::TrayCoax) <==> step == "coax"@,
        tray_input(step) == Some(CoreInput::TrayFeed) <==> step == "feed"@,
        tray_input(step) == Some(CoreInput::TrayBath) <==> step == "bath"@,
        tray_input(step) == Some(CoreInput::RecallRunaway) <==> step == "recall"@,
        tray_input(step) is None <==> step != "coax"@ && step != "feed"@ && step != "bath"@ && step
            != "recall"@,
        EmotionCommand::Recall.input() == CoreInput::RecallRunaway,
        EmotionCommand::Reset.input() == CoreInput::ResetEmotion,
{
    reveal_strlit("coax");
    reveal_strlit("feed");
    reveal_strlit("bath");
    reveal_strlit("recall");
    assert("coax"@[0] == 'c' && "feed"@[0] == 'f' && "bath"@[0] == 'b' && "recall"@.len() == 6);
}

/// An input that is handed over waits behind all others. With room for it nothing else changes;
/// without, the oldest input is lost and counted.
pub proof fn lemma_handed_inputs_wait_last(
    before: CoreInputChannel,
    after: CoreInputChannel,
    input: CoreInput,
)
    requires
        before.wf(),
        handed(before, after, input),
    ensures
        after.inputs().len() > 0,
        after.inputs().last() == input,
        before.inputs().len() < 8 ==> after.inputs().drop_last() == before.inputs() && after.lost()
            == before.lost(),
        before.inputs().len() >= 8 ==> after.inputs().drop_last() == before.inputs().skip(1)
            && after.lost() != before.lost(),
{
    if before.inputs().len() < 8 {
        assert(after.inputs().drop_last() =~= before.inputs());
    } else {
        assert(after.inputs().drop_last() =~= before.inputs().skip(1));
    }
}

/// A save is healthy or writable only where it was loaded as such and has a place; the user is
/// told of it unless loading went without a notice.
pub proof fn lemma_unknown_saves_are_told_of(
    status: SaveStatus,
    folder: Option<SaveFolder>,
    loaded: Option<SaveStatusInfo>,
)
    requires
        status.tells(folder, loaded),
    ensures
        status.available <==> folder is Some,
        status.healthy <==> folder is Some && loaded is Some && loaded->0.healthy,
        status.writable <==> folder is Some && loaded is Some && loaded->0.writable,
        status.needs_notice <==> folder is None || loaded is None || loaded->0.needs_notice,
        status.last_seen_ms != 0 ==> folder is Some && loaded is Some && loaded->0.last_seen_ms
            == status.last_seen_ms,
        folder is None ==> status.backups@.len() == 0 && status.path@.len() == 0
            && !status.exists && status.state@ == "unavailable"@,
        folder is Some && loaded is None ==> status.state@ == "unknown"@,
        folder is Some && loaded is Some ==> status.state@ == loaded->0.state@ && status.last_seen_ms
            == loaded->0.last_seen_ms,
        folder matches Some(place) ==> status.path@ == place.path@ && status.exists
            == place.exists,
{
}

/// Rebuilding the save is never refused. An import needs a name, a place, and there a file that
/// is a last good or an unreadable save; it then hands that very name to the core loop.
pub proof fn lemma_commands_on_the_save(
    file: Option<String>,
    present: Option<bool>,
)
    ensures
        save_refusal(SaveCommand::Reset, crate::bridge::settings::maybe_text(file), present) is None,
        save_input(SaveCommand::Reset, file) == CoreInput::ResetAllData,
        save_refusal(
            SaveCommand::Import,
            crate::bridge::settings::maybe_text(file),
            present,
        ) is None <==> {
            &&& file is Some
            &&& present == Some(true)
            &&& crate::bridge::backup::kind_of(file->0@) is Some
            &&& crate::bridge::backup::kind_of(file->0@)->0.can_import()
        },
        file matches Some(name) ==> save_input(SaveCommand::Import, file)
            == (CoreInput::ImportSave { file: name }),
{
}

/// The window gives way only under a policy that says so: a policy that nobody knows keeps it
/// above others.
pub proof fn lemma_policies_of_the_window(policy: Seq<char>)
    ensures
        ({
            let word = text::trimmed(policy);
            &&& topmost_under(policy) == TopmostMode::Never <==> word == "Never"@ || word
                == "never"@
            &&& topmost_under(policy) == TopmostMode::BelowFullscreen <==> word
                == "BelowFullscreen"@ || word == "belowFullscreen"@
        }),
{
    crate::bridge::merge::lemma_known_words(text::trimmed(policy));
    reveal_strlit("Never");
    reveal_strlit("BelowFullscreen");
    reveal_strlit("Always");
    assert("Never"@.len() == 5 && "BelowFullscreen"@.len() == 15 && "Always"@.len() == 6);
}

/// The side of the window is the share of the full side that the percentage gives, rounded
/// down: all of it at a hundred percent, and never less at more percent.
pub proof fn lemma_side_follows_the_scale(base: nat, percent: nat, more: nat)
    requires
        percent <= more,
    ensures
        side_at(base as int, percent as int) * 100 <= base * percent,
        base * percent < (side_at(base as int, percent as int) + 1) * 100,
        side_at(base as int, 100) == base,
        side_at(base as int, percent as int) <= side_at(base as int, more as int),
{
    assert(base * percent <= base * more) by (nonlinear_arith)
        requires
            percent <= more,
    ;
}

/// The sounds know the volume and the switches as the settings hold them.
pub proof fn lemma_sounds_know_the_settings(settings: SettingsView)
    ensures
        sounds_under(settings).master_volume_percent == settings.master_volume_percent,
        sounds_under(settings).muted == settings.muted,
        sounds_under(settings).do_not_disturb == settings.do_not_disturb,
        sounds_under(settings).click_through == settings.click_through,
{
}

/// Once the settings are put right they say what the system does, and nothing else in them has
/// changed. A system that could not be asked counts as not starting the pet.
pub proof fn lemma_settings_say_what_is_so(
    settings: SettingsView,
    wanted: bool,
    actual: Option<bool>,
)
    requires
        settings.autostart == wanted,
    ensures
        ({
            let after = match corrected(wanted, actual) {
                Some(patch) => settings.merged(patch),
                None => settings,
            };
            &&& after.autostart == (actual == Some(true))
            &&& settings == (SettingsView { autostart: wanted, ..after })
            &&& corrected(wanted, actual) is None <==> actual == Some(wanted)
        }),
{
    reveal(SettingsView::merged);
    if let Some(patch) = corrected(wanted, actual) {
        let after = settings.merged(patch);
        assert(settings =~= (SettingsView { autostart: wanted, ..after }));
    }
}

/// With a channel an input is handed over and that is all; without one nothing is handed over
/// and the given words say so.
pub proof fn lemma_inputs_need_a_channel(
    before: Option<CoreInputChannel>,
    after: Option<CoreInputChannel>,
    input: CoreInput,
    absent: Seq<char>,
    r: Result<(), String>,
)
    requires
        posted(before, after, input, absent, r),
    ensures
        r is Ok <==> before is Some,
        after is Some <==> before is Some,
        before is Some ==> handed(before->0, after->0, input) && after->0.inputs().len() > 0
            && after->0.inputs().last() == input,
        r matches Err(words) ==> words@ == absent,
{
}

} // verus!
