//! The supervisor: once a second it looks after the window, the monitors, the save
//! and the renderer.
//!
//! Its rounds stand on a fixed grid from its start on. Every so many rounds the
//! window checks itself, and performance is sampled; a renderer that shows no frame
//! it was sent is rebuilt, and where that does not help the process starts anew.

use crate::bridge::backup::SaveStatusInfo;
use crate::bridge::frame::FpsTier;
use crate::text;
use vstd::prelude::*;

verus! {

/// How far the rounds are apart, in milliseconds.
pub const TICK_INTERVAL_MS: u64 = 1_000;

/// In how many rounds the window checks itself.
pub const SELF_CHECK_EVERY_TICKS: u64 = 30;

/// The event that tells how the window's own check went.
pub const SELFCHECK_EVENT: &'static str = "pet://window/selfcheck";

/// In how many rounds performance is sampled.
pub const PERF_EVERY_TICKS: u64 = 5;

/// How many samples in a row may show no frame before the renderer is rebuilt.
pub const WATCHDOG_MISS_LIMIT: u32 = 3;

/// How many times in a row the renderer may be rebuilt in vain.
pub const HEAL_FAIL_LIMIT: u32 = 3;

/// How long to wait for the save before the renderer is rebuilt, in milliseconds.
pub const FLUSH_TIMEOUT_MS: u64 = 3_000;

/// A rectangle on the screen, in physical pixels.
#[derive(Clone, Copy, Debug, PartialEq, Eq, Structural)]
pub struct RectI {
    pub left: i32,
    pub top: i32,
    pub right: i32,
    pub bottom: i32,
}

/// A monitor as the system reports it.
#[derive(Clone, Copy, Debug, PartialEq, Eq, Structural)]
pub struct MonitorInfo {
    pub id: u64,
    pub rc_monitor: RectI,
    pub rc_work: RectI,
    pub primary: bool,
}

/// The first place from `from` on at which a monitor with this number stands, or the end.
pub open spec fn place_of(monitors: Seq<MonitorInfo>, id: u64, from: int) -> int
    decreases monitors.len() - from,
{
    if from >= monitors.len() {
        monitors.len() as int
    } else if monitors[from].id == id {
        from
    } else {
        place_of(monitors, id, from + 1)
    }
}

/// `monitor` stands in `monitors` as it is.
pub open spec fn found(monitors: Seq<MonitorInfo>, monitor: MonitorInfo) -> bool {
    let at = place_of(monitors, monitor.id, 0);
    at < monitors.len() && monitor == monitors[at]
}

/// The monitors differ in number, or one of them is gone or has changed.
pub open spec fn rearranged(prev: Seq<MonitorInfo>, now: Seq<MonitorInfo>) -> bool {
    prev.len() != now.len() || exists|i: int|
        0 <= i < prev.len() && !found(now, #[trigger] prev[i])
}

fn holds(monitors: &[MonitorInfo], monitor: &MonitorInfo) -> (r: bool)
    ensures
        r == found(monitors@, *monitor),
{
    let mut i: usize = 0;
    while i < monitors.len() && monitors[i].id != monitor.id
        invariant
            i <= monitors.len(),
            place_of(monitors@, monitor.id, 0) == place_of(monitors@, monitor.id, i as int),
        decreases monitors.len() - i,
    {
        i = i + 1;
    }
    i < monitors.len() && monitors[i].rc_monitor == monitor.rc_monitor && monitors[i].rc_work
        == monitor.rc_work && monitors[i].primary == monitor.primary
}

/// Whether the monitors have changed.
///
/// The monitors are compared as a set: their order does not matter.
pub fn topology_changed(prev: &[MonitorInfo], now: &[MonitorInfo]) -> (r: bool)
    ensures
        r == rearranged(prev@, now@),
{
    if prev.len() != now.len() {
        return true;
    }
    let mut i: usize = 0;
    while i < prev.len()
        invariant
            i <= prev.len(),
            forall|j: int| 0 <= j < i ==> found(now@, #[trigger] prev@[j]),
        decreases prev.len() - i,
    {
        if !holds(now, &prev[i]) {
            assert(!found(now@, prev@[i as int]));
            return true;
        }
        i = i + 1;
    }
    false
}

/// Each monitor has a number of its own.
pub open spec fn numbered(monitors: Seq<MonitorInfo>) -> bool {
    forall|j: int, k: int|
        0 <= j < k < monitors.len() ==> (#[trigger] monitors[j]).id != (#[trigger] monitors[k]).id
}

proof fn lemma_place_of_own(monitors: Seq<MonitorInfo>, i: int, from: int)
    requires
        0 <= from <= i < monitors.len(),
        numbered(monitors),
    ensures
        place_of(monitors, monitors[i].id, from) == i,
    decreases i - from,
{
    if from < i {
        lemma_place_of_own(monitors, i, from + 1);
    }
}

proof fn lemma_place_holds(monitors: Seq<MonitorInfo>, id: u64, from: int)
    requires
        0 <= from <= monitors.len(),
    ensures
        from <= place_of(monitors, id, from) <= monitors.len(),
        place_of(monitors, id, from) < monitors.len() ==> monitors[place_of(
            monitors,
            id,
            from,
        )].id == id,
    decreases monitors.len() - from,
{
    if from < monitors.len() {
        lemma_place_holds(monitors, id, from + 1);
    }
}

/// The monitors have not changed exactly where each is among the others as it is, in
/// whatever order.
///
/// Each monitor has a number of its own.
pub proof fn lemma_order_does_not_matter(prev: Seq<MonitorInfo>, now: Seq<MonitorInfo>)
    requires
        numbered(now),
    ensures
        rearranged(prev, now) <==> prev.len() != now.len() || exists|i: int|
            0 <= i < prev.len() && !now.contains(#[trigger] prev[i]),
{
    assert forall|i: int| 0 <= i < prev.len() implies found(now, #[trigger] prev[i])
        == now.contains(prev[i]) by {
        lemma_place_holds(now, prev[i].id, 0);
        if now.contains(prev[i]) {
            let k = choose|k: int| 0 <= k < now.len() && now[k] == prev[i];
            lemma_place_of_own(now, k, 0);
        }
    }
}

/// When a round is due, counted from the start.
pub open spec fn due_at(tick: u64) -> u64 {
    if tick * TICK_INTERVAL_MS > u64::MAX {
        u64::MAX
    } else {
        (tick * TICK_INTERVAL_MS) as u64
    }
}

/// When a round is due, in milliseconds from the start.
pub fn tick_offset(tick: u64) -> (r: u64)
    ensures
        r == due_at(tick),
{
    match tick.checked_mul(TICK_INTERVAL_MS) {
        Some(offset) => offset,
        None => u64::MAX,
    }
}

/// The rounds are evenly apart for as long as their times can be told: a round that
/// was late does not move those after it.
pub proof fn lemma_grid_does_not_drift(tick: u64)
    requires
        (tick + 1) * TICK_INTERVAL_MS <= u64::MAX,
    ensures
        due_at((tick + 1) as u64) == due_at(tick) + TICK_INTERVAL_MS,
{
}

/// What the supervisor remembers of the renderer.
#[derive(Clone, Copy, Debug, PartialEq, Eq, Structural)]
pub struct WatchdogState {
    /// How many frames had been sent at the last sample.
    pub prev_sent: u64,
    /// How many frames had been shown at the last sample.
    pub prev_acked: u64,
    /// In how many samples in a row frames were sent and none was shown.
    pub miss: u32,
    /// How many times in a row the renderer was rebuilt in vain.
    pub heal_fail: u32,
}

impl Default for WatchdogState {
    /// Nothing has been sampled yet.
    fn default() -> (r: Self)
        ensures
            r == (WatchdogState { prev_sent: 0, prev_acked: 0, miss: 0, heal_fail: 0 }),
    {
        WatchdogState { prev_sent: 0, prev_acked: 0, miss: 0, heal_fail: 0 }
    }
}

/// What a sample leads to.
#[derive(Clone, Copy, Debug, PartialEq, Eq, Structural)]
pub enum WatchdogStep {
    /// Nothing.
    Observe,
    /// The renderer is rebuilt.
    Heal,
    /// The process starts anew.
    Restart,
}

/// One more, as far as it can be counted.
pub open spec fn one_more(n: u32) -> u32 {
    if n == u32::MAX {
        n
    } else {
        (n + 1) as u32
    }
}

impl WatchdogState {
    /// What is remembered after a sample with so many frames sent and shown.
    pub open spec fn watched(self, sent_delta: u64, acked_delta: u64) -> WatchdogState {
        if sent_delta == 0 {
            WatchdogState { miss: 0, ..self }
        } else if acked_delta > 0 {
            WatchdogState { miss: 0, heal_fail: 0, ..self }
        } else if one_more(self.miss) < WATCHDOG_MISS_LIMIT {
            WatchdogState { miss: one_more(self.miss), ..self }
        } else {
            WatchdogState { miss: 0, heal_fail: one_more(self.heal_fail), ..self }
        }
    }

    /// What a sample with so many frames sent and shown leads to.
    pub open spec fn step(self, sent_delta: u64, acked_delta: u64) -> WatchdogStep {
        if sent_delta == 0 || acked_delta > 0 || one_more(self.miss) < WATCHDOG_MISS_LIMIT {
            WatchdogStep::Observe
        } else if one_more(self.heal_fail) >= HEAL_FAIL_LIMIT {
            WatchdogStep::Restart
        } else {
            WatchdogStep::Heal
        }
    }

    /// What is remembered after so many samples in which frames were sent and none shown.
    pub open spec fn after_silence(self, samples: nat) -> WatchdogState
        decreases samples,
    {
        if samples == 0 {
            self
        } else {
            self.after_silence((samples - 1) as nat).watched(1, 0)
        }
    }
}

/// Takes a sample: so many frames were sent and so many shown since the last one.
pub fn watchdog_step(sent_delta: u64, acked_delta: u64, state: &mut WatchdogState) -> (r:
    WatchdogStep)
    ensures
        *final(state) == old(state).watched(sent_delta, acked_delta),
        r == old(state).step(sent_delta, acked_delta),
{
    if sent_delta == 0 {
        state.miss = 0;
        return WatchdogStep::Observe;
    }
    if acked_delta > 0 {
        state.miss = 0;
        state.heal_fail = 0;
        return WatchdogStep::Observe;
    }
    state.miss = state.miss.saturating_add(1);
    if state.miss < WATCHDOG_MISS_LIMIT {
        return WatchdogStep::Observe;
    }
    state.miss = 0;
    state.heal_fail = state.heal_fail.saturating_add(1);
    if state.heal_fail >= HEAL_FAIL_LIMIT {
        WatchdogStep::Restart
    } else {
        WatchdogStep::Heal
    }
}

/// From a clean state, the third silent sample in a row has the renderer rebuilt, the
/// sixth too, and the ninth starts the process anew; the samples between lead to nothing.
pub proof fn lemma_silence_escalates(state: WatchdogState, samples: nat)
    requires
        state.miss == 0,
        state.heal_fail == 0,
        samples < 9,
    ensures
        state.after_silence(samples).miss == samples % 3,
        state.after_silence(samples).heal_fail == samples / 3,
        state.after_silence(samples).step(1, 0) == if samples == 8 {
            WatchdogStep::Restart
        } else if samples % 3 == 2 {
            WatchdogStep::Heal
        } else {
            WatchdogStep::Observe
        },
    decreases samples,
{
    if samples > 0 {
        lemma_silence_escalates(state, (samples - 1) as nat);
    }
}

/// A frame that was shown clears everything; where none was sent nothing is wrong.
pub proof fn lemma_receipt_clears(state: WatchdogState, sent_delta: u64, acked_delta: u64)
    requires
        sent_delta == 0 || acked_delta > 0,
    ensures
        state.step(sent_delta, acked_delta) == WatchdogStep::Observe,
        state.watched(sent_delta, acked_delta).miss == 0,
        sent_delta > 0 ==> state.watched(sent_delta, acked_delta).heal_fail == 0,
{
}

/// What performance is judged by, besides memory.
#[derive(Clone, Copy, Debug, PartialEq, Eq, Structural)]
pub struct DegradeEnv {
    /// The window gives way to a full-screen one.
    pub fullscreen: bool,
    /// The pet cannot be seen.
    pub hidden: bool,
    /// The machine runs on its battery.
    pub battery: bool,
}

/// What was read for a sample; what could not be read is missing.
#[derive(Clone, Copy, Debug, PartialEq, Eq)]
pub struct Readings {
    /// How many frames have been sent, and how many shown.
    pub frames: Option<(u64, u64)>,
    pub fullscreen: bool,
    pub visible: Option<bool>,
    pub charging: Option<bool>,
}

/// What a sample of performance leads to.
#[derive(Clone, Copy, Debug, PartialEq, Eq, Structural)]
pub struct PerfPlan {
    /// How many frames were sent since the last sample.
    pub sent_delta: u64,
    /// How many frames were shown since the last sample.
    pub acked_delta: u64,
    pub env: DegradeEnv,
    pub step: WatchdogStep,
}

/// How far a counter has come since it stood at `before`; nothing where it went back.
pub open spec fn gained(now: u64, before: u64) -> u64 {
    if now < before {
        0
    } else {
        (now - before) as u64
    }
}

/// How many frames have been sent and shown; none where nobody counts.
pub open spec fn counted(frames: Option<(u64, u64)>) -> (u64, u64) {
    match frames {
        Some(pair) => pair,
        None => (0, 0),
    }
}

impl Readings {
    /// What performance is judged by.
    pub open spec fn env(self) -> DegradeEnv {
        DegradeEnv {
            fullscreen: self.fullscreen,
            hidden: self.fullscreen || self.visible == Some(false),
            battery: self.charging == Some(false),
        }
    }
}

impl WatchdogState {
    /// What is remembered after a sample.
    pub open spec fn sampled(self, readings: Readings) -> WatchdogState {
        let (sent, acked) = counted(readings.frames);
        (WatchdogState { prev_sent: sent, prev_acked: acked, ..self }).watched(
            gained(sent, self.prev_sent),
            gained(acked, self.prev_acked),
        )
    }

    /// What a sample leads to.
    pub open spec fn plan(self, readings: Readings) -> PerfPlan {
        let (sent, acked) = counted(readings.frames);
        let sent_delta = gained(sent, self.prev_sent);
        let acked_delta = gained(acked, self.prev_acked);
        PerfPlan {
            sent_delta,
            acked_delta,
            env: readings.env(),
            step: self.step(sent_delta, acked_delta),
        }
    }
}

/// Takes a sample of performance.
///
/// A window of which nothing is known counts as visible, a battery of which nothing is
/// known as charging.
pub fn perf_and_watchdog_tick(watchdog: &mut WatchdogState, readings: Readings) -> (r: PerfPlan)
    ensures
        ({
            &&& *final(watchdog) == old(watchdog).sampled(readings)
            &&& r == old(watchdog).plan(readings)
        }),
{
    let (sent, acked): (u64, u64) = match readings.frames {
        Some(pair) => pair,
        None => (0, 0),
    };
    let sent_delta: u64 = sent.saturating_sub(watchdog.prev_sent);
    let acked_delta: u64 = acked.saturating_sub(watchdog.prev_acked);
    watchdog.prev_sent = sent;
    watchdog.prev_acked = acked;
    let visible = match readings.visible {
        Some(seen) => seen,
        None => true,
    };
    let battery = match readings.charging {
        Some(charging) => !charging,
        None => false,
    };
    let env = DegradeEnv {
        fullscreen: readings.fullscreen,
        hidden: readings.fullscreen || !visible,
        battery,
    };
    let step = watchdog_step(sent_delta, acked_delta, watchdog);
    PerfPlan { sent_delta, acked_delta, env, step }
}

/// The rate to switch to: the one that is wanted, unless it is set already.
pub open spec fn rate_to_set(current: FpsTier, wanted: Option<FpsTier>) -> Option<FpsTier> {
    if wanted == Some(current) {
        None
    } else {
        wanted
    }
}

/// The rate to switch to: the one that is wanted, unless it is set already.
pub fn tier_to_set(current: FpsTier, wanted: Option<FpsTier>) -> (r: Option<FpsTier>)
    ensures
        r == rate_to_set(current, wanted),
{
    match wanted {
        None => None,
        Some(tier) => if tier == current {
            None
        } else {
            Some(tier)
        },
    }
}

/// What the user is told of a save that was not simply loaded.
pub open spec fn notice(state: Seq<char>) -> Seq<char> {
    if state == "isolatedCorrupt"@ {
        "检测到存档损坏，已隔离并重建默认档；原档可在设置「数据」页回捞"@
    } else if state == "recoveredFromBak"@ {
        "存档主档异常，已从备份自动恢复"@
    } else if state == "isolatedFuture"@ {
        "检测到更高版本存档，已隔离并重建默认档；原档可在设置「数据」页查看"@
    } else {
        "存档状态异常，请到设置「数据」页查看详情"@
    }
}

/// What the user is told of a save that was not simply loaded.
pub fn save_notice(state: &str) -> (r: &'static str)
    ensures
        r@ == notice(state@),
{
    if text::equal(state, "isolatedCorrupt") {
        "检测到存档损坏，已隔离并重建默认档；原档可在设置「数据」页回捞"
    } else if text::equal(state, "recoveredFromBak") {
        "存档主档异常，已从备份自动恢复"
    } else if text::equal(state, "isolatedFuture") {
        "检测到更高版本存档，已隔离并重建默认档；原档可在设置「数据」页查看"
    } else {
        "存档状态异常，请到设置「数据」页查看详情"
    }
}

/// It is known how loading the save went.
pub open spec fn settled(info: SaveStatusInfo) -> bool {
    info.state@ != "unknown"@
}

/// The user is to be told how loading the save went.
pub open spec fn tells(info: SaveStatusInfo) -> bool {
    info.state@ != "unknown"@ && info.needs_notice
}

/// How many times the window's own check has failed after one more of them.
pub open spec fn failures_after(failed: u64, passed: Option<bool>) -> u64 {
    if passed == Some(true) {
        failed
    } else {
        (failed + 1) as u64
    }
}

/// What is to be done in a round.
#[derive(Debug)]
pub struct RoundPlan {
    /// The monitors have changed: check the window and bring it back on the screen.
    pub rearranged: bool,
    /// Let the window check itself and tell how it went.
    pub self_check: bool,
    /// Tell the user this of the save.
    pub notice: Option<&'static str>,
    /// Take a sample of performance.
    pub sample: bool,
}

/// The rounds of the supervisor.
#[derive(Debug)]
pub struct SupervisorRounds {
    monitors: Vec<MonitorInfo>,
    tick: u64,
    since_self_check: u64,
    since_sample: u64,
    failures: u64,
    noticed: bool,
}

impl SupervisorRounds {
    /// The monitors that were there in the last round.
    pub closed spec fn known(self) -> Seq<MonitorInfo> {
        self.monitors@
    }

    /// The number of the last round.
    pub closed spec fn ticks(self) -> u64 {
        self.tick
    }

    /// How many rounds have passed since the window checked itself.
    pub closed spec fn unchecked(self) -> u64 {
        self.since_self_check
    }

    /// How many rounds have passed since performance was sampled.
    pub closed spec fn unsampled(self) -> u64 {
        self.since_sample
    }

    /// How many times the window's own check has failed.
    pub closed spec fn failed(self) -> u64 {
        self.failures
    }

    /// The user has been told of the save, or need not be.
    pub closed spec fn told(self) -> bool {
        self.noticed
    }

    pub open spec fn wf(self) -> bool {
        self.unchecked() < SELF_CHECK_EVERY_TICKS && self.unsampled() < PERF_EVERY_TICKS
    }

    /// Before the first round.
    pub fn new() -> (r: Self)
        ensures
            r.wf(),
            r.known() == Seq::<MonitorInfo>::empty(),
            r.ticks() == 0,
            r.unchecked() == 0,
            r.unsampled() == 0,
            r.failed() == 0,
            !r.told(),
    {
        SupervisorRounds {
            monitors: Vec::new(),
            tick: 0,
            since_self_check: 0,
            since_sample: 0,
            failures: 0,
            noticed: false,
        }
    }

    /// Starts a round; says when it ends, in milliseconds from the start.
    pub fn begin(&mut self) -> (deadline_ms: u64)
        ensures
            final(self).ticks() == crate::queue::next_count(old(self).ticks()),
            deadline_ms == due_at(final(self).ticks()),
            final(self).known() == old(self).known(),
            final(self).unchecked() == old(self).unchecked(),
            final(self).unsampled() == old(self).unsampled(),
            final(self).failed() == old(self).failed(),
            final(self).told() == old(self).told(),
    {
        self.tick = self.tick.wrapping_add(1);
        tick_offset(self.tick)
    }

    /// Says what is to be done in this round, given the monitors and, where it can be
    /// asked, how loading the save went.
    ///
    /// A round in which the window is not there yet is left out.
    pub fn plan(&mut self, monitors: Vec<MonitorInfo>, save: Option<&SaveStatusInfo>) -> (r:
        RoundPlan)
        requires
            old(self).wf(),
        ensures
            final(self).wf(),
            final(self).known() == monitors@,
            final(self).ticks() == old(self).ticks(),
            final(self).failed() == old(self).failed(),
            r.rearranged == rearranged(old(self).known(), monitors@),
            r.self_check == (old(self).unchecked() + 1 == SELF_CHECK_EVERY_TICKS),
            final(self).unchecked() == (old(self).unchecked() + 1)
                % SELF_CHECK_EVERY_TICKS as int,
            r.sample == (old(self).unsampled() + 1 == PERF_EVERY_TICKS),
            final(self).unsampled() == (old(self).unsampled() + 1) % PERF_EVERY_TICKS as int,
            final(self).told() == (old(self).told() || (save matches Some(info) && settled(*info))),
            r.notice is Some <==> (!old(self).told() && (save matches Some(info) && tells(*info))),
            r.notice matches Some(words) ==> words@ == notice(save->0.state@),
    {
        let rearranged = topology_changed(self.monitors.as_slice(), monitors.as_slice());
        self.monitors = monitors;
        self.since_self_check = self.since_self_check + 1;
        let self_check = self.since_self_check >= SELF_CHECK_EVERY_TICKS;
        if self_check {
            self.since_self_check = 0;
        }
        let mut told: Option<&'static str> = None;
        if !self.noticed {
            if let Some(info) = save {
                if !text::equal(info.state.as_str(), "unknown") {
                    self.noticed = true;
                    if info.needs_notice {
                        told = Some(save_notice(info.state.as_str()));
                    }
                }
            }
        }
        self.since_sample = self.since_sample + 1;
        let sample = self.since_sample >= PERF_EVERY_TICKS;
        if sample {
            self.since_sample = 0;
        }
        RoundPlan { rearranged, self_check, notice: told, sample }
    }

    /// Counts the window's own check: whether it passed, or that it could not be made.
    /// Says whether to tell of it.
    pub fn note_self_check(&mut self, passed: Option<bool>) -> (tell: bool)
        requires
            old(self).failed() < u64::MAX,
        ensures
            tell == passed is Some,
            final(self).failed() == failures_after(old(self).failed(), passed),
            final(self).known() == old(self).known(),
            final(self).ticks() == old(self).ticks(),
            final(self).unchecked() == old(self).unchecked(),
            final(self).unsampled() == old(self).unsampled(),
            final(self).told() == old(self).told(),
    {
        match passed {
            Some(ok) => {
                if !ok {
                    self.failures = self.failures + 1;
                }
                true
            },
            None => {
                self.failures = self.failures + 1;
                false
            },
        }
    }

    /// How many times the window's own check has failed.
    pub fn fail_count(&self) -> (r: u64)
        ensures
            r == self.failed(),
    {
        self.failures
    }

    /// The number of the last round.
    pub fn tick(&self) -> (r: u64)
        ensures
            r == self.ticks(),
    {
        self.tick
    }
}

/// How many rounds have passed since the last check after so many rounds, where every
/// `every`-th round checks.
pub open spec fn passed_since(rounds: nat, every: nat) -> nat
    decreases rounds,
{
    if rounds == 0 {
        0
    } else {
        (passed_since((rounds - 1) as nat, every) + 1) % every
    }
}

/// A round checks exactly where its number is a multiple: the window checks itself in
/// every thirtieth round, performance is sampled in every fifth.
pub proof fn lemma_every_so_many_rounds(rounds: nat, every: nat)
    requires
        every > 1,
    ensures
        passed_since(rounds, every) == rounds % every,
        passed_since(rounds, every) + 1 == every <==> (rounds + 1) % every == 0,
    decreases rounds,
{
    let e = every as int;
    let n = rounds as int;
    if rounds > 0 {
        lemma_every_so_many_rounds((rounds - 1) as nat, every);
        vstd::arithmetic::div_mod::lemma_add_mod_noop(n - 1, 1, e);
        vstd::arithmetic::div_mod::lemma_small_mod(1, every);
    } else {
        vstd::arithmetic::div_mod::lemma_small_mod(0, every);
    }
    vstd::arithmetic::div_mod::lemma_add_mod_noop(n, 1, e);
    vstd::arithmetic::div_mod::lemma_small_mod(1, every);
    vstd::arithmetic::div_mod::lemma_mod_bound(n, e);
    if n % e + 1 < e {
        vstd::arithmetic::div_mod::lemma_small_mod((n % e + 1) as nat, every);
    } else {
        vstd::arithmetic::div_mod::lemma_mod_self_0(e);
    }
}

/// Every change shows: a monitor that came, went, moved, was resized, or became or ceased to be
/// the primary one.
pub proof fn lemma_every_change_shows(prev: Seq<MonitorInfo>, now: Seq<MonitorInfo>, i: int)
    requires
        0 <= i < prev.len(),
    ensures
        prev.len() != now.len() ==> rearranged(prev, now),
        (forall|j: int| 0 <= j < now.len() ==> (#[trigger] now[j]).id != prev[i].id) ==> rearranged(
            prev,
            now,
        ),
        (forall|j: int|
            0 <= j < now.len() && (#[trigger] now[j]).id == prev[i].id ==> now[j] != prev[i])
            ==> rearranged(prev, now),
        numbered(now) && now == prev ==> !rearranged(prev, now),
{
    lemma_place_holds(now, prev[i].id, 0);
    let at = place_of(now, prev[i].id, 0);
    if numbered(now) && now == prev {
        lemma_order_does_not_matter(prev, now);
        assert forall|k: int| 0 <= k < prev.len() implies now.contains(#[trigger] prev[k]) by {
            assert(now[k] == prev[k]);
        }
    }
    if prev.len() == now.len() && !rearranged(prev, now) {
        assert(found(now, prev[i]));
        assert(now[at].id == prev[i].id);
    }
}

/// The first round is due at the start, and rounds are a second apart.
pub proof fn lemma_rounds_are_a_second_apart(tick: u64)
    requires
        tick < 1_000_000_000_000,
    ensures
        due_at(0) == 0,
        due_at((tick + 1) as u64) - due_at(tick) == 1000,
{
}

/// The renderer is rebuilt, or the process starts anew, only where frames were sent and none
/// was shown for the third time in a row; the process starts anew exactly where two rebuilds
/// have been in vain. What was sent and shown before stays noted.
pub proof fn lemma_watchdog_bites_after_three(state: WatchdogState, sent: u64, acked: u64)
    ensures
        ({
            let step = state.step(sent, acked);
            let after = state.watched(sent, acked);
            let silent = sent > 0 && acked == 0;
            &&& step != WatchdogStep::Observe <==> silent && state.miss >= 2
            &&& step == WatchdogStep::Restart <==> silent && state.miss >= 2 && state.heal_fail >= 2
            &&& silent && state.miss < 2 ==> after.miss == state.miss + 1 && after.heal_fail
                == state.heal_fail
            &&& step != WatchdogStep::Observe && state.heal_fail < u32::MAX ==> after.miss == 0
                && after.heal_fail == state.heal_fail + 1
            &&& sent == 0 ==> after.heal_fail == state.heal_fail
            &&& after.prev_sent == state.prev_sent && after.prev_acked == state.prev_acked
        }),
{
}

/// Two samples of a counter that only goes up add up to what it went up by, and a sample tells
/// exactly the frames since the one before.
pub proof fn lemma_samples_add_up(
    state: WatchdogState,
    first: Readings,
    second: Readings,
    sent: (u64, u64),
    acked: (u64, u64),
)
    requires
        first.frames == Some((sent.0, acked.0)),
        second.frames == Some((sent.1, acked.1)),
        state.prev_sent <= sent.0 <= sent.1,
        state.prev_acked <= acked.0 <= acked.1,
    ensures
        ({
            let after = state.sampled(first);
            let (a, b) = (state.plan(first), after.plan(second));
            &&& state.prev_sent + a.sent_delta + b.sent_delta == sent.1
            &&& state.prev_acked + a.acked_delta + b.acked_delta == acked.1
            &&& state.prev_sent + a.sent_delta == sent.0
            &&& a.step == state.step(a.sent_delta, a.acked_delta)
        }),
{
}

/// A counter that went back, or that nobody reads, has gained nothing.
pub proof fn lemma_nothing_is_gained_backwards(state: WatchdogState, readings: Readings)
    ensures
        ({
            let (sent, acked) = counted(readings.frames);
            &&& sent <= state.prev_sent ==> state.plan(readings).sent_delta == 0
                && state.plan(readings).step == WatchdogStep::Observe
            &&& acked <= state.prev_acked ==> state.plan(readings).acked_delta == 0
            &&& state.sampled(readings).prev_sent == sent && state.sampled(readings).prev_acked
                == acked
            &&& readings.frames is None ==> sent == 0 && acked == 0
            &&& readings.frames is Some ==> (sent, acked) == readings.frames->0
        }),
{
}

/// The pet counts as hidden under a full-screen window and where it is known not to be visible;
/// the machine counts as on its battery only where it is known not to charge.
pub proof fn lemma_unknown_readings_count_as_good(readings: Readings)
    ensures
        readings.env().fullscreen == readings.fullscreen,
        !readings.env().hidden <==> !readings.fullscreen && readings.visible != Some(false),
        readings.env().battery <==> readings.charging == Some(false),
        readings.charging is None ==> !readings.env().battery,
        readings.visible is None && !readings.fullscreen ==> !readings.env().hidden,
{
}

/// A rate is set only where it is wanted and another one is set.
pub proof fn lemma_rate_is_set_once(current: FpsTier, wanted: Option<FpsTier>)
    ensures
        rate_to_set(current, wanted) matches Some(tier) ==> wanted == Some(tier) && tier != current
            && rate_to_set(tier, wanted) is None,
        rate_to_set(current, wanted) is None <==> wanted is None || wanted == Some(current),
{
}

/// Each known state of the save has words of its own; any other state has words in common.
pub proof fn lemma_words_on_the_save(state: Seq<char>)
    ensures
        notice(state) == "检测到存档损坏，已隔离并重建默认档；原档可在设置「数据」页回捞"@ <==> state
            == "isolatedCorrupt"@,
        notice(state) == "存档主档异常，已从备份自动恢复"@ <==> state == "recoveredFromBak"@,
        notice(state) == "检测到更高版本存档，已隔离并重建默认档；原档可在设置「数据」页查看"@ <==> state
            == "isolatedFuture"@,
{
    reveal_strlit("检测到存档损坏，已隔离并重建默认档；原档可在设置「数据」页回捞");
    reveal_strlit("存档主档异常，已从备份自动恢复");
    reveal_strlit("检测到更高版本存档，已隔离并重建默认档；原档可在设置「数据」页查看");
    reveal_strlit("存档状态异常，请到设置「数据」页查看详情");
    reveal_strlit("isolatedCorrupt");
    reveal_strlit("recoveredFromBak");
    reveal_strlit("isolatedFuture");
    assert("isolatedCorrupt"@.len() == 15 && "recoveredFromBak"@.len() == 16
        && "isolatedFuture"@.len() == 14);
    assert("检测到存档损坏，已隔离并重建默认档；原档可在设置「数据」页回捞"@[3] == '存');
    assert("检测到更高版本存档，已隔离并重建默认档；原档可在设置「数据」页查看"@[3] == '更');
    assert("存档主档异常，已从备份自动恢复"@[2] == '主');
    assert("存档状态异常，请到设置「数据」页查看详情"@[2] == '状');
    assert("检测到存档损坏，已隔离并重建默认档；原档可在设置「数据」页回捞"@[2] == '到');
    assert("检测到更高版本存档，已隔离并重建默认档；原档可在设置「数据」页查看"@[2] == '到');
}

/// Whoever is told is told once: what is told of is settled, and what is not known yet is
/// neither told of nor settled.
pub proof fn lemma_told_once(info: SaveStatusInfo)
    ensures
        tells(info) ==> settled(info),
        info.state@ == "unknown"@ ==> !tells(info) && !settled(info),
        info.state@ != "unknown"@ ==> settled(info) && (tells(info) <==> info.needs_notice),
{
}

/// Only a check that passed does not count as failed; one that could not be made counts.
pub proof fn lemma_checks_fail_unless_they_pass(failed: u64, passed: Option<bool>)
    requires
        failed < u64::MAX,
    ensures
        failures_after(failed, Some(true)) == failed,
        passed != Some(true) ==> failures_after(failed, passed) == failed + 1,
{
}

/// The window checks itself in every thirtieth round and performance is sampled in every fifth,
/// counted from the first.
pub proof fn lemma_rounds_that_check(rounds: nat)
    ensures
        passed_since(rounds, SELF_CHECK_EVERY_TICKS as nat) + 1 == SELF_CHECK_EVERY_TICKS <==> (
        rounds + 1) % 30 == 0,
        passed_since(rounds, PERF_EVERY_TICKS as nat) + 1 == PERF_EVERY_TICKS <==> (rounds + 1) % 5
            == 0,
{
    lemma_every_so_many_rounds(rounds, 30);
    lemma_every_so_many_rounds(rounds, 5);
}

} // verus!
