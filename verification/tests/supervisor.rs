//! The rounds of the supervisor.

use dp_app::bridge::backup::SaveStatusInfo;
use dp_app::bridge::frame::FpsTier;
use dp_app::supervisor::{
    perf_and_watchdog_tick, save_notice, tick_offset, tier_to_set, topology_changed,
    watchdog_step, DegradeEnv, MonitorInfo, Readings, RectI, SupervisorRounds, WatchdogState,
    WatchdogStep, FLUSH_TIMEOUT_MS, HEAL_FAIL_LIMIT, PERF_EVERY_TICKS, SELFCHECK_EVENT,
    SELF_CHECK_EVERY_TICKS, TICK_INTERVAL_MS, WATCHDOG_MISS_LIMIT,
};
use std::time::Duration;

fn rect(left: i32, top: i32, right: i32, bottom: i32) -> RectI {
    RectI { left, top, right, bottom }
}

fn mk(id: u64, rc_monitor: RectI, rc_work: RectI) -> MonitorInfo {
    MonitorInfo { id, rc_monitor, rc_work, primary: id == 1 }
}

fn a() -> MonitorInfo {
    mk(1, rect(0, 0, 1920, 1080), rect(0, 0, 1920, 1080))
}

fn b() -> MonitorInfo {
    mk(2, rect(-1920, 0, 0, 1080), rect(-1920, 0, 0, 1080))
}

fn c() -> MonitorInfo {
    mk(3, rect(0, -1080, 1920, 0), rect(0, -1080, 1920, 0))
}

#[test]
fn topology_changed_detects_add_remove_modify_and_same() {
    let a = mk(1, rect(0, 0, 1920, 1080), rect(0, 0, 1920, 1040));
    let b = mk(2, rect(-1920, 0, 0, 1080), rect(-1920, 0, 0, 1040));

    assert!(!topology_changed(&[a], &[a]));
    assert!(!topology_changed(&[a, b], &[b, a]));
    assert!(!topology_changed(&[], &[]));

    assert!(topology_changed(&[a], &[a, b]));
    assert!(topology_changed(&[a, b], &[a]));

    let a_work = mk(1, rect(0, 0, 1920, 1080), rect(0, 0, 1920, 1000));
    assert!(topology_changed(&[a], &[a_work]));

    let a_res = mk(1, rect(0, 0, 2560, 1440), rect(0, 0, 2560, 1400));
    assert!(topology_changed(&[a], &[a_res]));

    let a_not_primary = MonitorInfo { primary: false, ..a };
    assert!(topology_changed(&[a], &[a_not_primary]));
}

#[test]
fn topology_changed_add_remove_modify_same() {
    assert!(!topology_changed(&[a()], &[a()]));
    assert!(!topology_changed(&[], &[]));
    assert!(topology_changed(&[a()], &[a(), b()]));
    assert!(topology_changed(&[a(), b()], &[a()]));
    let a_res = mk(1, rect(0, 0, 2560, 1440), rect(0, 0, 2560, 1440));
    assert!(topology_changed(&[a()], &[a_res]));
    let a_np = MonitorInfo { primary: false, ..a() };
    assert!(topology_changed(&[a()], &[a_np]));
}

#[test]
fn topology_changed_is_order_insensitive() {
    let list1 = vec![a(), b(), c()];
    let list2 = vec![c(), a(), b()];
    let list3 = vec![b(), c(), a()];
    assert!(!topology_changed(&list1, &list2));
    assert!(!topology_changed(&list1, &list3));
    assert!(!topology_changed(&list2, &list3));
    assert!(topology_changed(&list1, &[c(), a()]));
}

#[test]
fn topology_changed_empty_vs_nonempty() {
    assert!(topology_changed(&[], &[a()]));
    assert!(topology_changed(&[a()], &[]));
    assert!(!topology_changed(&[], &[]));
}

#[test]
fn tick_offset_builds_drift_free_absolute_grid() {
    assert_eq!(TICK_INTERVAL_MS, 1_000);
    assert_eq!(Duration::from_millis(tick_offset(0)), Duration::ZERO);
    assert_eq!(Duration::from_millis(tick_offset(1)), Duration::from_millis(1_000));
    assert_eq!(Duration::from_millis(tick_offset(30)), Duration::from_millis(30_000));

    let mut prev = Duration::from_millis(tick_offset(0));
    for k in 1..=600u64 {
        let cur = Duration::from_millis(tick_offset(k));
        assert!(cur > prev, "{k}");
        assert_eq!(cur - prev, Duration::from_millis(TICK_INTERVAL_MS), "{k}");
        prev = cur;
    }

    assert!(Duration::from_millis(tick_offset(u64::MAX)) == Duration::from_millis(u64::MAX));
}

#[test]
fn s6_constants_match_k8_spec() {
    assert_eq!(PERF_EVERY_TICKS, 5);
    assert_eq!(WATCHDOG_MISS_LIMIT, 3);
    assert_eq!(HEAL_FAIL_LIMIT, 3);
    assert_eq!(SELF_CHECK_EVERY_TICKS, 30);
    assert_eq!(FLUSH_TIMEOUT_MS, 3_000);
    assert_eq!(SELFCHECK_EVENT, "pet://window/selfcheck");
}

#[test]
fn watchdog_healthy_flow_never_heals() {
    let mut s = WatchdogState::default();
    for _ in 0..10 {
        assert_eq!(watchdog_step(5, 5, &mut s), WatchdogStep::Observe);
    }
    assert_eq!(s.miss, 0);
    assert_eq!(s.heal_fail, 0);
}

#[test]
fn watchdog_no_publish_is_not_anomaly() {
    let mut s = WatchdogState { miss: 2, ..Default::default() };
    for _ in 0..10 {
        assert_eq!(watchdog_step(0, 0, &mut s), WatchdogStep::Observe);
    }
    assert_eq!(s.miss, 0);
    assert_eq!(s.heal_fail, 0);
}

#[test]
fn watchdog_three_miss_windows_trigger_heal() {
    let mut s = WatchdogState::default();
    assert_eq!(watchdog_step(5, 0, &mut s), WatchdogStep::Observe);
    assert_eq!(s.miss, 1);
    assert_eq!(watchdog_step(5, 0, &mut s), WatchdogStep::Observe);
    assert_eq!(s.miss, 2);
    assert_eq!(watchdog_step(5, 0, &mut s), WatchdogStep::Heal);
    assert_eq!(s.miss, 0);
    assert_eq!(s.heal_fail, 1);
}

#[test]
fn watchdog_receipt_resume_clears_fail_counter() {
    let mut s = WatchdogState { miss: 2, heal_fail: 1, ..Default::default() };
    assert_eq!(watchdog_step(5, 5, &mut s), WatchdogStep::Observe);
    assert_eq!(s.miss, 0);
    assert_eq!(s.heal_fail, 0);
}

#[test]
fn watchdog_three_heal_failures_restart() {
    let mut s = WatchdogState::default();
    for heal_idx in 1..=2u32 {
        assert_eq!(watchdog_step(5, 0, &mut s), WatchdogStep::Observe);
        assert_eq!(watchdog_step(5, 0, &mut s), WatchdogStep::Observe);
        assert_eq!(watchdog_step(5, 0, &mut s), WatchdogStep::Heal, "{heal_idx}");
        assert_eq!(s.heal_fail, heal_idx);
        assert_eq!(s.miss, 0);
    }
    assert_eq!(s.heal_fail, 2);
    assert_eq!(watchdog_step(5, 0, &mut s), WatchdogStep::Observe);
    assert_eq!(watchdog_step(5, 0, &mut s), WatchdogStep::Observe);
    assert_eq!(watchdog_step(5, 0, &mut s), WatchdogStep::Restart);
    assert_eq!(s.heal_fail, 3);
    assert_eq!(s.miss, 0);
}

#[test]
fn a_sample_takes_the_difference_to_the_last() {
    let mut watchdog = WatchdogState::default();
    let readings = Readings {
        frames: Some((30, 28)),
        fullscreen: false,
        visible: Some(true),
        charging: Some(false),
    };
    let plan = perf_and_watchdog_tick(&mut watchdog, readings);
    assert_eq!((plan.sent_delta, plan.acked_delta), (30, 28));
    assert_eq!(plan.env, DegradeEnv { fullscreen: false, hidden: false, battery: true });
    assert_eq!(plan.step, WatchdogStep::Observe);
    assert_eq!((watchdog.prev_sent, watchdog.prev_acked), (30, 28));

    let silent = Readings { frames: Some((60, 28)), visible: None, charging: None, ..readings };
    let plan = perf_and_watchdog_tick(&mut watchdog, silent);
    assert_eq!((plan.sent_delta, plan.acked_delta), (30, 0));
    assert_eq!(plan.env, DegradeEnv { fullscreen: false, hidden: false, battery: false });
    assert_eq!(watchdog.miss, 1);

    let gone = Readings { frames: None, fullscreen: true, visible: Some(false), charging: Some(true) };
    let plan = perf_and_watchdog_tick(&mut watchdog, gone);
    assert_eq!((plan.sent_delta, plan.acked_delta), (0, 0));
    assert_eq!(plan.env, DegradeEnv { fullscreen: true, hidden: true, battery: false });
    assert_eq!(watchdog.miss, 0);
}

#[test]
fn the_rate_is_set_only_where_it_differs() {
    assert_eq!(tier_to_set(FpsTier::Fps6, None), None);
    assert_eq!(tier_to_set(FpsTier::Fps6, Some(FpsTier::Fps6)), None);
    assert_eq!(tier_to_set(FpsTier::Fps6, Some(FpsTier::Fps2)), Some(FpsTier::Fps2));
}

#[test]
fn every_thirtieth_round_checks_and_every_fifth_samples() {
    let mut rounds = SupervisorRounds::new();
    for k in 1..=90u64 {
        assert_eq!(rounds.begin(), k * 1_000);
        let plan = rounds.plan(vec![a()], None);
        assert_eq!(plan.rearranged, k == 1, "{k}");
        assert_eq!(plan.self_check, k % 30 == 0, "{k}");
        assert_eq!(plan.sample, k % 5 == 0, "{k}");
        assert!(plan.notice.is_none());
    }
    assert_eq!(rounds.tick(), 90);
}

fn info(state: &str, needs_notice: bool) -> SaveStatusInfo {
    SaveStatusInfo { state: state.to_string(), needs_notice, ..SaveStatusInfo::default() }
}

#[test]
fn the_user_is_told_of_the_save_once() {
    let mut rounds = SupervisorRounds::new();
    assert!(rounds.plan(Vec::new(), None).notice.is_none());
    assert!(rounds.plan(Vec::new(), Some(&info("unknown", true))).notice.is_none());
    let corrupt = info("isolatedCorrupt", true);
    assert_eq!(
        rounds.plan(Vec::new(), Some(&corrupt)).notice,
        Some("检测到存档损坏，已隔离并重建默认档；原档可在设置「数据」页回捞")
    );
    assert!(rounds.plan(Vec::new(), Some(&corrupt)).notice.is_none());

    let mut healthy = SupervisorRounds::new();
    assert!(healthy.plan(Vec::new(), Some(&info("loaded", false))).notice.is_none());
    assert!(healthy.plan(Vec::new(), Some(&corrupt)).notice.is_none());
}

#[test]
fn each_state_of_the_save_has_its_words() {
    assert_eq!(save_notice("recoveredFromBak"), "存档主档异常，已从备份自动恢复");
    assert_eq!(
        save_notice("isolatedFuture"),
        "检测到更高版本存档，已隔离并重建默认档；原档可在设置「数据」页查看"
    );
    assert_eq!(save_notice("migrationPending"), "存档状态异常，请到设置「数据」页查看详情");
}

#[test]
fn failed_checks_are_counted() {
    let mut rounds = SupervisorRounds::new();
    assert!(rounds.note_self_check(Some(true)));
    assert_eq!(rounds.fail_count(), 0);
    assert!(rounds.note_self_check(Some(false)));
    assert!(!rounds.note_self_check(None));
    assert_eq!(rounds.fail_count(), 2);
}
