//! The core loop: its grid, its phases, its inputs and what it sets off.

use dp_app::bridge::channel::{
    CoreInput, PlaybackChannel, PlaybackOrder, PlaybackReport, PLAYBACK_CHANNEL_CAP,
};
use dp_app::bridge::frame::{ParticleKind, PARTICLE_BURST_CAP, PARTICLE_CMD_VERSION};
use dp_app::bridge::settings::{RemindersSnapshot, SettingsSnapshot};
use dp_app::coreloop::activity::{
    activity_play_active, activity_play_id, comes_home_tired, dispatch_check, economy_scale,
    hour_of_hhmm, step_activity_performance, stop_study_loop, study_loop_due, submit_study_loop,
    ActivityActions, ActivityReport, ActivitySlot, ActivityStep, Condition, Performance,
};
use dp_app::coreloop::business::{
    dispatch_verdict, flush_startup_greeting, initial_pos, leave_startup_greeting, NeedsIntent,
    NeedsStep, StartupGreeting,
};
use dp_app::coreloop::effects::{
    audio_cue_for_emotion, audio_cue_for_intent, current_is_looping, derive_bubble,
    fx_burst_for_intent, landing_steps, logic_outcome, offline_span, play_request,
    report_ends_current, settle_play, start_next, stop_looping_current, ArbiterStep, BubbleSource,
    ClickFeedbackCfg, PlayRequest, FX_HEART_BURST_COUNT, LANDING_ACTION_ID,
    REMINDER_ACTION_ID, STARTUP_GREETING_ACTION, TOSS_ACTION_ID,
};
use dp_app::coreloop::inputs::{
    after_admin, handle_admin_input, AdminStep, CoreStep, Decor, Exit,
};
use dp_app::coreloop::kinds::{
    ActionSource, ActivityKind, ActivityPhase, Arbitration, AudioCue, CoaxStep, CurrentAction,
    DragBounds, EmotionEvent, InteractionKind, Point, RecallKind, TrayIconState,
};
use dp_app::coreloop::rounds::{
    interaction_policy_of, landing_effects, restores, save_state_key, unreachable_floor,
    IntentStep, InteractionCfg, LoadStatus, LoopRounds,
};
use dp_app::coreloop::schedule::{
    advance_deadline, render_interval_for, SampleClock, ScheduleGrid,
};
use dp_app::coreloop::seed::advance_seed;
use dp_app::coreloop::state::{CoreLoopState, DragStart, EngineRun, Phase, Release, RoundEnd};
use dp_app::coreloop::switches::{PerceptionEvent, TraySync};
use dp_app::ports::{vd_bounds_of, vd_vertical_span, MonitorGeom};
use dp_app::scalar::Scalar;

fn s(v: f32) -> Scalar {
    Scalar { bits: v.to_bits() }
}

fn p(x: f32, y: f32) -> Point {
    Point { x: s(x), y: s(y) }
}

fn monitor(id: u64, left: f32, width: f32, height: f32, primary: bool) -> MonitorGeom {
    MonitorGeom {
        id,
        origin: p(left, 0.0),
        size: p(width, height),
        work_origin: p(left, 0.0),
        work_size: p(width, height),
        work_end: p(left + width, height),
        primary,
    }
}

fn mon_a() -> MonitorGeom {
    monitor(1, 0.0, 1920.0, 1040.0, true)
}

fn desktop(monitors: &[MonitorGeom]) -> DragBounds {
    let horizontal = vd_bounds_of(monitors);
    let (top, bottom) = vd_vertical_span(monitors);
    DragBounds { left: horizontal.left, right: horizontal.right, top, bottom }
}

fn state() -> CoreLoopState {
    CoreLoopState::new(p(960.0, 1040.0), 7, 0)
}

fn drain_orders(channel: &mut PlaybackChannel) -> Vec<PlaybackOrder> {
    let mut orders = Vec::new();
    while let Some(order) = channel.try_pop_order() {
        orders.push(order);
    }
    orders
}

fn play(action_id: &str) -> PlaybackOrder {
    PlaybackOrder::Play { action_id: action_id.to_string() }
}

fn toss() -> Option<CurrentAction> {
    Some(CurrentAction { id: TOSS_ACTION_ID.to_string(), looping: true })
}

fn level_event(to: u8) -> EmotionEvent {
    EmotionEvent::ColdLevelChanged { from: 0, to }
}

#[test]
fn schedule_grid_deadlines_absolutely_anchored_no_drift() {
    let mut g = ScheduleGrid::new(0, 16, 50, 1_000);
    assert_eq!(g.next_logic(), 50);
    for k in 1..=10u64 {
        let fired = g.advance(k * 50 + 30);
        assert!(fired.logic, "{k}");
    }
    assert_eq!(g.next_logic(), 550);

    let mut g2 = ScheduleGrid::new(0, 16, 50, 1_000);
    let fired = g2.advance(1_030);
    assert!(fired.logic && fired.biz);
    assert_eq!(g2.next_biz(), 2_000);
}

#[test]
fn schedule_grid_overshoot_catches_up_and_stays_anchored() {
    let mut g = ScheduleGrid::new(0, 16, 50, 1_000);
    let fired = g.advance(150);
    assert!(fired.logic);
    assert_eq!(g.next_logic(), 200);
    let fired = g.advance(150);
    assert!(!fired.logic);
}

#[test]
fn schedule_grid_render_interval_rescale_reanchors() {
    let mut g = ScheduleGrid::new(0, 16, 50, 1_000);
    g.set_render_interval(500, 1_000);
    assert_eq!(g.next_render(), 1_500);
    assert_eq!(g.render_interval(), 500);
    g.set_render_interval(500, 9_999);
    assert_eq!(g.next_render(), 1_500);
}

#[test]
fn schedule_grid_deadline_is_start_plus_k_interval() {
    let mut g = ScheduleGrid::new(1_000, 16, 50, 1_000);
    assert_eq!(g.next_logic(), 1_050);
    assert_eq!(g.next_biz(), 2_000);
    for k in 1..=10u64 {
        let fired = g.advance(1_000 + k * 50 + 30);
        assert!(fired.logic, "{k}");
    }
    assert_eq!(g.next_logic(), 1_000 + 11 * 50);
}

#[test]
fn deadlines_move_on_in_whole_intervals() {
    assert_eq!(advance_deadline(100, 50, 10), 100);
    assert_eq!(advance_deadline(100, 100, 10), 110);
    assert_eq!(advance_deadline(100, 195, 10), 200);
    assert_eq!(render_interval_for(Some(30)), 33);
    assert_eq!(render_interval_for(Some(0)), 1_000);
}

#[test]
fn samples_are_due_on_their_own_grids() {
    let mut clock = SampleClock::new();
    let due = clock.advance(0);
    assert!(due.cursor && due.windows && due.system && due.activity);
    let next = clock.next_due();
    assert!(next > 0);
    let due = clock.advance(next);
    assert!(due.cursor || due.windows || due.system || due.activity);
}

#[test]
fn seed_advance_is_recursive_and_non_constant() {
    let s0 = 42u64;
    let s1 = advance_seed(s0, 1_000);
    let s2 = advance_seed(s1, 2_000);
    assert_ne!(s1, s0);
    assert_ne!(s2, s1);
    assert_eq!(advance_seed(s0, 1_000), s1);
}

#[test]
fn a_pet_without_ground_falls_and_lands_to_roam() {
    let mut state = CoreLoopState::new(p(960.0, 500.0), 7, 0);
    assert_eq!(state.phase(), Phase::Roam);
    let bounds = desktop(&[]);

    let run = state.begin_tick(50, false);
    assert_eq!(run, EngineRun::Fall { start: Some(p(960.0, 500.0)) });
    assert_eq!(state.phase(), Phase::Fall);
    assert_eq!(state.end_tick(50, p(960.0, 510.0), false, bounds), RoundEnd::Continue);

    for k in 1..=20u64 {
        let run = state.begin_tick(50 + k * 50, false);
        assert_eq!(run, EngineRun::Fall { start: None });
        let end = state.end_tick(50 + k * 50, p(960.0, 510.0 + k as f32), false, bounds);
        assert_eq!(end, RoundEnd::Continue);
    }

    let _ = state.begin_tick(1_150, true);
    let end = state.end_tick(1_150, p(960.0, 2000.0), true, bounds);
    let seed = advance_seed(7, 1_150);
    assert_eq!(end, RoundEnd::Landed { at: p(960.0, 2000.0), seed, thrown: false });
    assert_eq!(state.phase(), Phase::Roam);
    assert_eq!(state.throw_landed_count(), 0);
}

#[test]
fn a_pet_on_firm_ground_stays() {
    let mut state = state();
    let before = state.pos();
    assert_eq!(state.begin_tick(50, true), EngineRun::Roam { cursor: None });
    assert_eq!(state.end_tick(50, before, false, desktop(&[mon_a()])), RoundEnd::Continue);
    assert_eq!(state.phase(), Phase::Roam);
    let out = logic_outcome(before, state.pos(), None, false);
    assert!(!out.moved);
    assert!(out.submitted.is_none());
}

#[test]
fn begin_drag_enters_drag_tracks_cursor_and_submits_toss() {
    let mut state = state();
    let bounds = desktop(&[mon_a()]);
    assert_eq!(state.begin_drag(p(1000.0, 500.0), bounds, false), DragStart::SubmitToss);
    assert_eq!(state.phase(), Phase::Drag);
    assert_eq!(state.pos(), p(1000.0, 500.0));
    assert_eq!(state.begin_drag(p(1100.0, 600.0), bounds, true), DragStart::Follow);
    assert_eq!(state.pos(), p(1100.0, 600.0));
    state.drag_to(p(1200.0, 300.0));
    let before = state.pos();
    assert_eq!(state.begin_tick(150, true), EngineRun::Drag);
    assert_eq!(state.end_tick(150, before, false, bounds), RoundEnd::Continue);
    assert_eq!(state.pos(), p(1200.0, 300.0));
    assert!(logic_outcome(before, state.pos(), None, false).moved);
}

#[test]
fn drag_target_clamps_to_virtual_desktop_bounds() {
    let mut state = state();
    let bounds = desktop(&[mon_a()]);
    assert_eq!(state.begin_drag(p(960.0, 500.0), bounds, false), DragStart::SubmitToss);
    state.drag_to(p(99_999.0, 99_999.0));
    let _ = state.begin_tick(100, true);
    let _ = state.end_tick(100, p(0.0, 0.0), false, bounds);
    assert_eq!(state.pos(), p(1920.0, 1040.0));
    state.drag_to(p(-9.0, -9.0));
    let _ = state.begin_tick(150, true);
    let _ = state.end_tick(150, p(0.0, 0.0), false, bounds);
    assert_eq!(state.pos(), p(0.0, 0.0));
}

#[test]
fn a_cursor_that_is_no_place_drags_nowhere() {
    let mut state = state();
    let bounds = desktop(&[mon_a()]);
    let _ = state.begin_drag(p(f32::NAN, 10.0), bounds, false);
    assert_eq!(state.pos(), p(960.0, 1040.0));
    let _ = state.begin_drag(p(10.0, f32::INFINITY), bounds, false);
    assert_eq!(state.pos(), p(960.0, 1040.0));
}

#[test]
fn release_none_on_valid_stand_reenters_roam_without_action() {
    let mut state = state();
    let bounds = desktop(&[mon_a()]);
    assert_eq!(state.begin_drag(p(960.0, 1040.0), bounds, false), DragStart::SubmitToss);
    let release = state.release_drag(false, true, true, true, 100);
    assert_eq!(release, Release::Land { at: p(960.0, 1040.0), seed: advance_seed(7, 100) });
    assert_eq!(state.phase(), Phase::Roam);
    assert!(!state.thrown_flight());
    assert_eq!(state.throw_landed_count(), 0);
}

#[test]
fn a_pet_let_go_in_the_air_falls_and_lands() {
    let mut state = state();
    let bounds = desktop(&[mon_a()]);
    let _ = state.begin_drag(p(960.0, 300.0), bounds, false);
    let release = state.release_drag(false, false, true, true, 100);
    assert_eq!(release, Release::Fall { at: p(960.0, 300.0) });
    assert_eq!(state.phase(), Phase::Fall);
    assert!(!state.thrown_flight());
    let _ = state.begin_tick(150, false);
    let end = state.end_tick(150, p(960.0, 1040.0), true, bounds);
    assert!(matches!(end, RoundEnd::Landed { thrown: false, .. }));
    let steps = landing_steps(false);
    assert!(steps.iter().any(|step| matches!(
        step,
        ArbiterStep::Submit { action_id, source: ActionSource::Motion, .. }
            if *action_id == LANDING_ACTION_ID
    )));
    assert_eq!(state.throw_landed_count(), 0);
}

#[test]
fn a_throw_without_a_drag_takes_off_directly() {
    let mut state = state();
    let release = state.release_drag(true, true, false, false, 100);
    assert_eq!(
        release,
        Release::Throw { at: p(960.0, 1040.0), stop_looping: false, submit_toss: true }
    );
    assert_eq!(state.phase(), Phase::Fall);
    assert!(state.thrown_flight());
    let idle = state.release_drag(false, true, false, false, 110);
    assert_eq!(idle, Release::Nothing);
}

#[test]
fn catching_a_throw_voids_its_landing() {
    let mut state = state();
    let bounds = desktop(&[mon_a()]);
    assert_eq!(state.begin_drag(p(960.0, 300.0), bounds, false), DragStart::SubmitToss);
    let _ = state.release_drag(true, false, true, true, 1_000);
    assert!(state.thrown_flight());
    let _ = state.begin_tick(1_050, false);
    assert_eq!(state.end_tick(1_050, p(960.0, 320.0), false, bounds), RoundEnd::Continue);
    assert_eq!(state.phase(), Phase::Fall);
    let _ = state.begin_drag(p(960.0, 300.0), bounds, true);
    assert_eq!(state.phase(), Phase::Drag);
    assert!(!state.thrown_flight());
    state.drag_to(p(960.0, 1_040.0));
    let _ = state.begin_tick(1_150, false);
    let _ = state.end_tick(1_150, p(0.0, 0.0), false, bounds);
    let release = state.release_drag(false, true, true, true, 1_200);
    assert!(matches!(release, Release::Land { .. }));
    assert_eq!(state.phase(), Phase::Roam);
    assert_eq!(state.throw_landed_count(), 0);
}

#[test]
fn qa_probe_begin_drag_mid_flight_does_not_duplicate_toss() {
    let mut state = state();
    let bounds = desktop(&[mon_a()]);
    assert_eq!(state.begin_drag(p(960.0, 300.0), bounds, false), DragStart::SubmitToss);
    let _ = state.release_drag(true, false, true, true, 1_000);
    let _ = state.begin_tick(1_050, false);
    let _ = state.end_tick(1_050, p(960.0, 320.0), false, bounds);
    assert_eq!(state.begin_drag(p(960.0, 300.0), bounds, true), DragStart::ReplayToss);
}

#[test]
fn logic_tick_marks_landed_thrown_only_on_throw_landing() {
    let mut state = state();
    let bounds = desktop(&[mon_a()]);
    let _ = state.begin_drag(p(960.0, 500.0), bounds, false);
    let _ = state.release_drag(true, false, true, true, 100);
    for k in 1..=5u64 {
        let _ = state.begin_tick(100 + k * 50, false);
        let end = state.end_tick(100 + k * 50, p(960.0, 500.0), false, bounds);
        assert_eq!(end, RoundEnd::Continue);
    }
    let _ = state.begin_tick(400, false);
    let end = state.end_tick(400, p(960.0, 1040.0), true, bounds);
    assert!(matches!(end, RoundEnd::Landed { thrown: true, .. }));
    assert_eq!(state.throw_landed_count(), 1);
    let (dust, cue) = landing_effects(true).expect("dust and a thud");
    assert_eq!((dust.kind, dust.count, cue), (ParticleKind::Dust, 16, AudioCue::MoveLand));

    let mut natural = CoreLoopState::new(p(960.0, 500.0), 7, 0);
    let _ = natural.begin_tick(50, false);
    let end = natural.end_tick(50, p(960.0, 2000.0), true, bounds);
    assert!(matches!(end, RoundEnd::Landed { thrown: false, .. }));
    assert!(landing_effects(false).is_none());
}

#[test]
fn playback_play_order_emitted_on_action_start_and_reattach() {
    let mut channel = PlaybackChannel::default();
    let mut state = state();
    let bounds = desktop(&[mon_a()]);
    assert_eq!(state.begin_drag(p(960.0, 500.0), bounds, false), DragStart::SubmitToss);
    settle_play(&mut channel, Arbitration::Play, TOSS_ACTION_ID.to_string());
    assert_eq!(drain_orders(&mut channel), vec![play("ACT-T-06")]);

    let release = state.release_drag(true, false, current_is_looping(&toss()), true, 100);
    assert_eq!(
        release,
        Release::Throw { at: p(960.0, 500.0), stop_looping: true, submit_toss: false }
    );
    channel.push_order(PlaybackOrder::Stop);
    assert_eq!(drain_orders(&mut channel), vec![PlaybackOrder::Stop]);
    assert_eq!(state.begin_drag(p(1000.0, 600.0), bounds, true), DragStart::ReplayToss);
    channel.push_order(play(TOSS_ACTION_ID));
    assert_eq!(drain_orders(&mut channel), vec![play("ACT-T-06")]);
    settle_play(&mut channel, Arbitration::Queued { pos: 1 }, TOSS_ACTION_ID.to_string());
    assert!(drain_orders(&mut channel).is_empty());
}

#[test]
fn a_finished_report_starts_the_next_action() {
    let mut channel = PlaybackChannel::default();
    assert!(stop_looping_current(&mut channel, &toss()));
    start_next(&mut channel, Some("ACT-T-07".to_string()));
    assert_eq!(drain_orders(&mut channel), vec![PlaybackOrder::Stop, play("ACT-T-07")]);

    let head = Some(CurrentAction { id: "ACT-T-07".to_string(), looping: false });
    let report = PlaybackReport::Finished { action_id: "ACT-T-07".to_string() };
    assert!(report_ends_current(&report, &head));
    start_next(&mut channel, Some("ACT-T-08".to_string()));
    assert_eq!(drain_orders(&mut channel), vec![play("ACT-T-08")]);

    let tail = Some(CurrentAction { id: "ACT-T-08".to_string(), looping: false });
    let stray = PlaybackReport::Finished { action_id: "ACT-T-06".to_string() };
    assert!(!report_ends_current(&stray, &tail));
    start_next(&mut channel, None);
    assert!(!stop_looping_current(&mut channel, &tail));
    assert!(drain_orders(&mut channel).is_empty());
}

#[test]
fn a_landed_throw_asks_for_both_actions_before_it_stops() {
    let steps = landing_steps(true);
    let mut at = Vec::new();
    for (i, step) in steps.iter().enumerate() {
        match step {
            ArbiterStep::Submit { action_id, source, .. } => {
                assert_eq!(*source, ActionSource::Interaction);
                at.push((i, *action_id));
            }
            _ => at.push((i, "stop")),
        }
    }
    assert_eq!(at, vec![(0, "ACT-T-07"), (1, "ACT-T-08"), (2, "stop")]);
}

#[test]
fn fx_burst_maps_double_click_tickle_stroke_to_hearts() {
    let cfg = ClickFeedbackCfg { enabled: true, burst_count: 6 };
    for kind in [InteractionKind::DoubleClick, InteractionKind::Tickle, InteractionKind::Stroke] {
        let cmd = fx_burst_for_intent(kind, &cfg).expect("hearts");
        assert_eq!(cmd.kind, ParticleKind::Heart, "{kind:?}");
        assert_eq!(cmd.count, FX_HEART_BURST_COUNT);
        assert_eq!(cmd.version, PARTICLE_CMD_VERSION);
    }
}

#[test]
fn fx_burst_click_gated_by_click_feedback_config_and_clamped() {
    let on = ClickFeedbackCfg { enabled: true, burst_count: 6 };
    let cmd = fx_burst_for_intent(InteractionKind::Click, &on).expect("dust");
    assert_eq!(cmd.kind, ParticleKind::Dust);
    assert_eq!(cmd.count, 6);

    let big = ClickFeedbackCfg { enabled: true, burst_count: 500 };
    assert_eq!(
        fx_burst_for_intent(InteractionKind::Click, &big).expect("dust").count,
        PARTICLE_BURST_CAP
    );
    let zero = ClickFeedbackCfg { enabled: true, burst_count: 0 };
    assert_eq!(fx_burst_for_intent(InteractionKind::Click, &zero).expect("dust").count, 1);

    let off = ClickFeedbackCfg { enabled: false, burst_count: 6 };
    assert!(fx_burst_for_intent(InteractionKind::Click, &off).is_none());
}

#[test]
fn fx_burst_ignores_non_visual_intents() {
    let cfg = ClickFeedbackCfg { enabled: true, burst_count: 6 };
    for kind in [InteractionKind::Hover, InteractionKind::DragStart, InteractionKind::Throw] {
        assert!(fx_burst_for_intent(kind, &cfg).is_none(), "{kind:?}");
    }
}

#[test]
fn pending_mood_delta_is_consumed_once_per_business_tick() {
    let mut state = state();
    let _ = state.business_env(false, false);
    state.record_interaction_mood(s(3.0), s(3.0));
    state.record_interaction_mood(s(2.5), s(5.5));
    assert_eq!(f32::from_bits(state.pending_mood_delta().bits), 5.5);

    let env = state.business_env(false, false);
    assert_eq!(f32::from_bits(env.event_delta.bits), 5.5);
    assert_eq!(f32::from_bits(state.pending_mood_delta().bits), 0.0);
    let env = state.business_env(false, false);
    assert_eq!(f32::from_bits(env.event_delta.bits), 0.0);
}

#[test]
fn record_interaction_mood_ignores_non_finite() {
    let mut state = state();
    state.record_interaction_mood(s(f32::NAN), s(f32::NAN));
    state.record_interaction_mood(s(f32::INFINITY), s(f32::INFINITY));
    state.record_interaction_mood(s(2.0), s(2.0));
    assert_eq!(f32::from_bits(state.pending_mood_delta().bits), 2.0);
}

#[test]
fn pending_delta_survives_paused_tick() {
    let mut state = state();
    let _ = state.business_env(false, false);
    state.record_interaction_mood(s(4.0), s(4.0));
    let env = state.business_env(true, false);
    assert!(env.session_paused);
    assert_eq!(f32::from_bits(state.pending_mood_delta().bits), 4.0);
    let _ = state.business_env(false, false);
    assert_eq!(f32::from_bits(state.pending_mood_delta().bits), 0.0);
}

#[test]
fn the_mood_is_told_of_the_surroundings() {
    let mut state = state();
    state.apply_perception(&vec![PerceptionEvent::System { presence_idle_ms: Some(9_000) }]);
    let env = state.business_env(false, true);
    assert_eq!(env.preset_idle_ms, 9_000);
    assert!(env.activity_running && env.interaction_available && env.activity_sensed);
    state.activity_sensing = false;
    state.click_through = true;
    let env = state.business_env(false, false);
    assert_eq!(env.preset_idle_ms, 0);
    assert!(!env.interaction_available && !env.activity_sensed);

    let offline = state.offline_env();
    assert_eq!(offline.preset_idle_ms, u64::MAX);
    assert!(!offline.interaction_available && !offline.activity_running);
}

#[test]
fn needs_ask_for_actions_and_call_for_help() {
    let mut state = state();
    let intents = vec![
        NeedsIntent { action_id: "ACT-N-01".to_string(), bubble_pool: Some("hungry".to_string()) },
        NeedsIntent { action_id: "ACT-N-05".to_string(), bubble_pool: None },
    ];
    assert_eq!(
        state.needs_steps(&intents),
        vec![
            NeedsStep::Play { action_id: "ACT-N-01".to_string() },
            NeedsStep::Bubble { pool: "hungry".to_string() },
            NeedsStep::Play { action_id: "ACT-N-05".to_string() },
        ]
    );
    state.dnd = true;
    state.apply_schedule_flags(true);
    assert_eq!(state.needs_steps(&intents).len(), 2);
}

#[test]
fn the_mood_demands_actions() {
    let mut state = state();
    let events = vec![EmotionEvent::ForceAction { action_id: "ACT-T-07".to_string(), priority: 8 }];
    let plan = state.dispatch_emotion_events(&events);
    assert_eq!(plan.actions, vec!["ACT-T-07".to_string()]);
    assert_eq!(play_request(&plan.actions[0], true, true), PlayRequest::Submit);
}

#[test]
fn actions_that_cannot_play_are_not_asked_for() {
    let mut state = state();
    let events = vec![EmotionEvent::ForceAction { action_id: "ACT-ZZZZ".to_string(), priority: 8 }];
    let plan = state.dispatch_emotion_events(&events);
    assert_eq!(play_request(&plan.actions[0], false, false), PlayRequest::Unlisted);
    assert_eq!(play_request("", true, true), PlayRequest::Unnamed);
    assert_eq!(play_request("ACT-N-01", true, false), PlayRequest::Disabled);
    assert_eq!(play_request("ACT-N-01", true, true), PlayRequest::Submit);
    assert!(audio_cue_for_intent(InteractionKind::Hover).is_none());
    assert!(audio_cue_for_intent(InteractionKind::DragStart).is_none());
}

#[test]
fn a_mood_level_has_its_lines() {
    assert_eq!(derive_bubble(&level_event(2)), Some(BubbleSource::Level { level: 2 }));
}

#[test]
fn an_accepted_apology_has_its_lines() {
    assert_eq!(
        derive_bubble(&EmotionEvent::CoaxSucceeded),
        Some(BubbleSource::Pool { pool: "runaway".to_string(), preempt: false })
    );
}

#[test]
fn the_lines_of_joy_come_first() {
    assert_eq!(
        derive_bubble(&EmotionEvent::CoaxProgress { step: CoaxStep::Heart }),
        Some(BubbleSource::Pool { pool: "happy".to_string(), preempt: true })
    );
    assert_eq!(derive_bubble(&EmotionEvent::CoaxProgress { step: CoaxStep::Away }), None);
    assert_eq!(
        derive_bubble(&EmotionEvent::SlackLinger { pool: "slack".to_string() }),
        Some(BubbleSource::Pool { pool: "slack".to_string(), preempt: false })
    );
}

#[test]
fn silenced_bubbles_leave_actions_and_sounds() {
    let mut state = state();
    state.dnd = true;
    state.apply_schedule_flags(true);
    let plan = state.dispatch_emotion_events(&vec![level_event(4), EmotionEvent::PersistNow]);
    assert!(plan.bubbles.is_empty());
    assert_eq!(plan.cues, vec![AudioCue::EmotionAnger]);
    assert!(state.take_save_request());
}

#[test]
fn audio_cue_mapping_covers_landed_triggers() {
    assert_eq!(audio_cue_for_intent(InteractionKind::Click), Some(AudioCue::InteractHehe));
    assert_eq!(audio_cue_for_intent(InteractionKind::DoubleClick), Some(AudioCue::InteractHeart));
    assert_eq!(audio_cue_for_intent(InteractionKind::Stroke), Some(AudioCue::InteractHeartbeat));
    assert_eq!(audio_cue_for_intent(InteractionKind::Tickle), Some(AudioCue::InteractYaa));
    assert_eq!(audio_cue_for_intent(InteractionKind::Throw), Some(AudioCue::MoveWind));

    assert_eq!(audio_cue_for_emotion(&level_event(1)), Some(AudioCue::EmotionSigh));
    assert_eq!(audio_cue_for_emotion(&level_event(4)), Some(AudioCue::EmotionAnger));
    assert_eq!(audio_cue_for_emotion(&EmotionEvent::CoaxSucceeded), Some(AudioCue::EmotionCheer));
    assert_eq!(
        audio_cue_for_emotion(&EmotionEvent::CoaxProgress { step: CoaxStep::Heart }),
        Some(AudioCue::InteractHeart)
    );
    assert!(audio_cue_for_emotion(&EmotionEvent::PersistNow).is_none());
    assert!(audio_cue_for_emotion(&level_event(0)).is_none());
}

#[test]
fn no_time_away_is_not_made_up_for() {
    assert_eq!(offline_span(true, true, 0), None);
    assert_eq!(offline_span(true, true, -5), None);
    assert_eq!(offline_span(true, true, 10_800_000), Some(10_800_000));
}

#[test]
fn a_save_before_the_first_round_counts_no_time_away() {
    assert!(!restores(true, false));
    assert!(restores(true, true));
    assert_eq!(offline_span(true, false, 1_800_000_000_000), None);
}

#[test]
fn compensate_offline_without_save_is_none() {
    let state = CoreLoopState::new(p(960.0, 500.0), 7, 0);
    assert!(!restores(false, true));
    assert!(state.compensate_offline(false, false, 1_800_000_000_000).is_none());
    assert!(state.compensate_offline(false, true, 1_800_000_000_000).is_none());
    let mut greeting: Option<StartupGreeting<String>> = None;
    assert!(flush_startup_greeting(&mut greeting, true).is_none());
}

#[test]
fn time_away_is_made_up_for_as_a_time_alone() {
    let mut state = CoreLoopState::new(p(960.0, 500.0), 7, 0);
    assert!(state.compensate_offline(true, true, 0).is_none());
    assert!(state.compensate_offline(true, false, 10_800_000).is_none());
    let round = state.compensate_offline(true, true, 10_800_000).expect("a round");
    assert_eq!(round.away_ms, 10_800_000);
    assert_eq!(round.env, state.offline_env());
    assert!(round.env.interaction_available);
    state.dnd = true;
    let round = state.compensate_offline(true, true, 10_800_000).expect("a round");
    assert!(!round.env.interaction_available);
}

#[test]
fn save_tick_without_store_is_noop() {
    let mut state = CoreLoopState::new(p(960.0, 500.0), 7, 0);
    let before = state;
    assert_eq!(state.save_tick(false), None);
    assert_eq!(state, before);
}

#[test]
fn a_request_to_write_the_save_waits_for_a_save() {
    let mut state = CoreLoopState::new(p(960.0, 500.0), 7, 0);
    assert_eq!(state.save_tick(true), Some(false));
    state.request_save();
    assert_eq!(state.save_tick(false), None);
    assert_eq!(state.save_tick(true), Some(true));
    assert_eq!(state.save_tick(true), Some(false));
}

#[test]
fn a_greeting_waits_until_it_can_be_delivered() {
    assert_eq!(STARTUP_GREETING_ACTION, "ACT-T-01");
    let mut waiting = Some(StartupGreeting {
        action_id: STARTUP_GREETING_ACTION,
        bubble: Some("hello".to_string()),
    });
    assert!(flush_startup_greeting(&mut waiting, false).is_none());
    let greeting = flush_startup_greeting(&mut waiting, true).expect("a greeting");
    assert_eq!(greeting.bubble.as_deref(), Some("hello"));
    assert!(flush_startup_greeting(&mut waiting, true).is_none());
}

#[test]
fn a_greeting_waits_after_time_away() {
    let core = state();
    let mut waiting: Option<StartupGreeting<String>> = None;
    for (has_save, has_anchor, away_ms) in [(false, true, 9), (true, false, 9), (true, true, 0)] {
        let round = core.compensate_offline(has_save, has_anchor, away_ms);
        leave_startup_greeting(&round, Some("hello".to_string()), &mut waiting);
        assert!(waiting.is_none());
    }
    let round = core.compensate_offline(true, true, 9);
    leave_startup_greeting(&round, Some("hello".to_string()), &mut waiting);
    let round = core.compensate_offline(true, true, -9);
    leave_startup_greeting(&round, None, &mut waiting);
    let greeting = flush_startup_greeting(&mut waiting, true).expect("a greeting");
    assert_eq!(greeting.action_id, "ACT-T-01");
    assert_eq!(greeting.bubble.as_deref(), Some("hello"));
    assert!(waiting.is_none());
}

#[test]
fn a_request_to_write_the_save_counts_once() {
    let mut control = state();
    assert!(!control.take_save_request());
    let mut forced = state();
    let _ = forced.dispatch_emotion_events(&vec![EmotionEvent::PersistNow]);
    assert!(forced.take_save_request());
    assert!(!forced.take_save_request());
    control.request_save();
    assert!(control.take_save_request());
}

fn actions() -> Option<ActivityActions> {
    Some(ActivityActions {
        depart: "ACT-N-09".to_string(),
        arrive: "ACT-N-10".to_string(),
        desk_loop: "ACT-N-11".to_string(),
        postcard: String::new(),
    })
}

fn current(id: &str, looping: bool) -> Option<CurrentAction> {
    Some(CurrentAction { id: id.to_string(), looping })
}

#[test]
fn a_return_is_settled_once_its_action_is_over() {
    let ids = actions();
    let playing = current("ACT-N-10", false);
    assert_eq!(
        step_activity_performance(ActivityPhase::Returning, &ids, &playing),
        Performance::Hold
    );
    assert_eq!(
        step_activity_performance(ActivityPhase::Returning, &ids, &None),
        Performance::Settle
    );
    assert_eq!(
        step_activity_performance(ActivityPhase::Running, &ids, &playing),
        Performance::Idle
    );
}

#[test]
fn a_recall_counts_for_one_return() {
    let mut state = state();
    state.recalled(false);
    assert_eq!(state.take_recall_kind(), RecallKind::Normal);
    state.recalled(true);
    assert!(state.take_save_request());
    assert_eq!(state.take_recall_kind(), RecallKind::Early);
    assert_eq!(state.take_recall_kind(), RecallKind::Normal);
}

#[test]
fn a_pet_sets_out_once_its_action_is_over() {
    let mut state = state();
    assert_eq!(
        state.dispatched(true),
        Some(ActivityStep::Play { slot: ActivitySlot::Depart })
    );
    assert!(state.take_save_request());
    assert_eq!(state.dispatched(false), None);
    assert!(!state.take_save_request());
    let ids = actions();
    assert_eq!(activity_play_id(&ids, ActivitySlot::Depart).as_deref(), Some("ACT-N-09"));
    let playing = current("ACT-N-09", false);
    assert!(activity_play_active(&ids, ActivitySlot::Depart, &playing));
    assert_eq!(
        step_activity_performance(ActivityPhase::Preparing, &ids, &playing),
        Performance::Hold
    );
    assert_eq!(
        step_activity_performance(ActivityPhase::Preparing, &ids, &None),
        Performance::Departed
    );
    assert_eq!(
        step_activity_performance(ActivityPhase::Preparing, &None, &playing),
        Performance::Departed
    );
}

#[test]
fn a_pet_with_little_energy_comes_home_tired() {
    let mut state = state();
    let end = state.settled(true, s(39.9));
    assert!(end.cleared && end.tired);
    assert!(state.take_save_request());
    assert!(!state.settled(true, s(40.0)).tired);
    let _ = state.take_save_request();
    let end = state.settled(false, s(10.0));
    assert!(!end.cleared && !end.tired);
    assert!(!state.take_save_request());
    assert!(comes_home_tired(s(0.0)));
}

#[test]
fn studying_is_shown_until_the_time_is_up() {
    let ids = actions();
    assert!(study_loop_due(ActivityPhase::Running, Some(ActivityKind::Study)));
    assert!(!study_loop_due(ActivityPhase::Running, Some(ActivityKind::Work)));
    assert!(!study_loop_due(ActivityPhase::Returning, Some(ActivityKind::Study)));
    assert_eq!(submit_study_loop(&ids, false).as_deref(), Some("ACT-N-11"));
    assert_eq!(submit_study_loop(&ids, true), None);
    assert_eq!(submit_study_loop(&None, false), None);
    assert!(stop_study_loop(&ids, &current("ACT-N-11", true)));
    assert!(!stop_study_loop(&ids, &current("ACT-T-02", false)));

    let mut state = state();
    assert_eq!(
        state.activity_steps(ActivityReport::TimeUp { kind: ActivityKind::Study }),
        vec![ActivityStep::StopStudy, ActivityStep::Play { slot: ActivitySlot::Return }]
    );
    assert!(state.take_save_request());
    assert_eq!(
        state.activity_steps(ActivityReport::PostcardDue),
        vec![ActivityStep::Play { slot: ActivitySlot::Postcard }]
    );
    assert_eq!(state.activity_steps(ActivityReport::Aborted), vec![ActivityStep::PayOut]);
    let _ = state.take_save_request();
    assert!(state.activity_steps(ActivityReport::Other).is_empty());
    assert!(!state.take_save_request());
}

#[test]
fn a_reward_is_booked_under_its_moment() {
    let mut state = state();
    let credit = state.credit_for(30, ActivityKind::Work, 1_800_000_000_000, 0).expect("a payment");
    assert_eq!(credit.activity_id, "Work");
    assert_eq!(credit.ref_id, "work:Work:1800000000000");
    assert_eq!(credit.day_key, "2027-01-15");
    assert!(state.take_save_request());
    assert_eq!(state.credit_for(0, ActivityKind::Work, 5, 0), None);
    assert!(!state.take_save_request());
    let other = state.credit_for(30, ActivityKind::Work, 1_800_000_000_001, 0).expect("a payment");
    assert_ne!(other.ref_id, credit.ref_id);
    let ahead = state.credit_for(30, ActivityKind::Work, 57_600_000, 28_800_000).expect("a payment");
    assert_eq!(ahead.ref_id, "work:Work:57600000");
    assert_eq!(ahead.day_key, "1970-01-02");
}

#[test]
fn a_hungry_pet_earns_less() {
    assert_eq!(f32::from_bits(economy_scale(s(19.9)).bits), 0.7);
    assert_eq!(f32::from_bits(economy_scale(s(20.0)).bits), 1.0);
}

#[test]
fn hours_are_read_before_the_colon() {
    assert_eq!(hour_of_hhmm("23:30"), 23);
    assert_eq!(hour_of_hhmm("07:00"), 7);
    assert_eq!(hour_of_hhmm("+9:00"), 9);
    assert_eq!(hour_of_hhmm("256:00"), 0);
    assert_eq!(hour_of_hhmm("noon"), 0);
    assert_eq!(hour_of_hhmm(""), 0);
    assert_eq!(hour_of_hhmm("12"), 12);
}

#[test]
fn both_the_mood_and_the_needs_have_to_allow_an_activity() {
    assert!(dispatch_verdict(true, false));
    assert!(!dispatch_verdict(true, true));
    assert!(!dispatch_verdict(false, false));
}

#[test]
fn inputs_lead_to_their_steps() {
    let mut state = state();
    let mut decor: Option<Decor> = Some(Vec::new());
    assert_eq!(
        state.apply_core_input(CoreInput::ResetEmotion, &mut decor, 0, 5, 0),
        CoreStep::ForceLower
    );
    assert_eq!(
        state.apply_core_input(CoreInput::FlushSave { ticket: 9 }, &mut decor, 0, 5, 0),
        CoreStep::Flush { ticket: 9 }
    );
    let dispatch = CoreInput::ActivityDispatch {
        kind: "travel".to_string(),
        def_id: "T-1".to_string(),
        duration_min: 60,
    };
    assert_eq!(
        state.apply_core_input(dispatch, &mut decor, 0, 5, 0),
        CoreStep::Dispatch {
            kind: ActivityKind::Travel,
            def_id: "T-1".to_string(),
            duration_min: 60,
        }
    );
    let unknown = CoreInput::ActivityDispatch {
        kind: "swim".to_string(),
        def_id: "T-1".to_string(),
        duration_min: 60,
    };
    assert_eq!(
        state.apply_core_input(unknown, &mut decor, 0, 5, 0),
        CoreStep::UnknownActivity { kind: "swim".to_string() }
    );
    assert_eq!(
        state.apply_core_input(
            CoreInput::Purchase { item_id: "FOOD".to_string(), qty: 2 },
            &mut decor,
            0,
            1_800_000_000_000,
            0,
        ),
        CoreStep::Buy {
            item_id: "FOOD".to_string(),
            qty: 2,
            day_key: "2027-01-15".to_string(),
            week_key: "2027-W02".to_string(),
            at_ms: 1_800_000_000_000,
        }
    );
    assert_eq!(
        state.apply_core_input(
            CoreInput::Purchase { item_id: "FOOD".to_string(), qty: 2 },
            &mut decor,
            0,
            57_600_000,
            28_800_000,
        ),
        CoreStep::Buy {
            item_id: "FOOD".to_string(),
            qty: 2,
            day_key: "1970-01-02".to_string(),
            week_key: "1970-W01".to_string(),
            at_ms: 57_600_000,
        }
    );
    assert_eq!(
        state.apply_core_input(CoreInput::Shutdown, &mut decor, 0, 5, 0),
        CoreStep::Ignored
    );
    assert!(!state.take_save_request());
    state.bought(true);
    assert!(state.take_save_request());
}

#[test]
fn decorations_are_placed_and_cleared() {
    let mut state = state();
    let mut decor: Option<Decor> = Some(Vec::new());
    let place = |slot: u8| CoreInput::DecorPlace { slot, item_id: "LAMP".to_string() };
    assert_eq!(
        state.apply_core_input(place(5), &mut decor, 1, 0, 0),
        CoreStep::NoSuchSlot { slot: 5 }
    );
    assert_eq!(
        state.apply_core_input(place(2), &mut decor, 0, 0, 0),
        CoreStep::NotOwned { item_id: "LAMP".to_string() }
    );
    assert!(!state.take_save_request());
    assert_eq!(
        state.apply_core_input(place(2), &mut decor, 1, 0, 0),
        CoreStep::Placed { slot: 2, item_id: "LAMP".to_string() }
    );
    assert!(state.take_save_request());
    assert_eq!(
        decor,
        Some(vec![None, None, Some("LAMP".to_string()), None, None])
    );
    assert_eq!(
        state.apply_core_input(CoreInput::DecorRemove { slot: 2 }, &mut decor, 0, 0, 0),
        CoreStep::Cleared { slot: 2 }
    );
    assert_eq!(decor, Some(vec![None; 5]));
    let mut none: Option<Decor> = None;
    assert_eq!(state.apply_core_input(place(2), &mut none, 1, 0, 0), CoreStep::NoSave);
}

#[test]
fn privileged_inputs_take_a_restart() {
    let import = |file: &str| CoreInput::ImportSave { file: file.to_string() };
    assert_eq!(
        handle_admin_input(&CoreInput::ResetAllData, true, true, false),
        AdminStep::Reset
    );
    assert_eq!(
        handle_admin_input(&CoreInput::ResetAllData, false, true, false),
        AdminStep::Nothing
    );
    assert_eq!(
        handle_admin_input(&import("save.json.bak"), true, true, true),
        AdminStep::Import { file: "save.json.bak".to_string() }
    );
    assert_eq!(
        handle_admin_input(&import("save.json.bak"), true, true, false),
        AdminStep::Refused { reason: "备份文件不存在：save.json.bak".to_string() }
    );
    assert_eq!(
        handle_admin_input(&import("save.json.bak"), true, false, true),
        AdminStep::Nothing
    );
    assert_eq!(
        handle_admin_input(&CoreInput::Shutdown, false, true, false),
        AdminStep::Leave { flush: false }
    );
    assert_eq!(
        handle_admin_input(&CoreInput::TrayFeed, true, true, true),
        AdminStep::NotAdmin
    );
    assert_eq!(after_admin(&AdminStep::Reset, true), Exit::Restart);
    assert_eq!(after_admin(&AdminStep::Reset, false), Exit::Stay);
    assert_eq!(after_admin(&AdminStep::Leave { flush: true }, false), Exit::Quit);
    assert_eq!(after_admin(&AdminStep::NotAdmin, true), Exit::Stay);
}

#[test]
fn the_tray_is_told_once_of_each_change() {
    let mut state = state();
    assert_eq!(
        state.sync_tray(),
        Some(TraySync { icon: TrayIconState::Normal, left_home: false })
    );
    assert_eq!(state.sync_tray(), None);
    state.dnd = true;
    assert_eq!(
        state.sync_tray(),
        Some(TraySync { icon: TrayIconState::NotInteractive, left_home: false })
    );
    assert_eq!(state.sync_runaway_visibility(true), Some(false));
    assert_eq!(state.sync_runaway_visibility(true), None);
    assert!(state.is_runaway_away());
    assert_eq!(
        state.sync_tray(),
        Some(TraySync { icon: TrayIconState::LeftHome, left_home: true })
    );
    assert_eq!(state.sync_runaway_visibility(false), Some(true));
}

#[test]
fn a_round_serves_the_tiers_that_are_due() {
    let mut rounds = LoopRounds::new();
    assert!(rounds.moves_window(false));
    rounds.window_moved(false);
    assert!(rounds.moves_window(false));
    rounds.window_moved(true);
    assert!(!rounds.moves_window(false) && rounds.moves_window(true));
    let plan = rounds.round(1_000);
    assert!(plan.fired.render && plan.fired.logic && plan.fired.biz);
    assert!(plan.first.render && plan.first.logic && plan.first.biz);
    let plan = rounds.round(1_050);
    assert!(plan.fired.logic && !plan.first.logic && !plan.fired.biz);
    rounds.follow_rate(Some(2), 1_050);
    assert!(rounds.next_due() > 1_050);
}

#[test]
fn gestures_start_a_drag_at_the_cursor() {
    let mut state = state();
    assert_eq!(
        state.intent_step(InteractionKind::DragStart),
        IntentStep::BeginDrag { from: p(960.0, 1040.0) }
    );
    state.apply_perception(&vec![PerceptionEvent::Cursor { pos: p(10.0, 20.0) }]);
    assert_eq!(
        state.intent_step(InteractionKind::DragStart),
        IntentStep::BeginDrag { from: p(10.0, 20.0) }
    );
    assert_eq!(state.intent_step(InteractionKind::Throw), IntentStep::Throw);
    assert_eq!(state.intent_step(InteractionKind::Click), IntentStep::Nothing);
    let bounds = desktop(&[mon_a()]);
    let _ = state.begin_drag(p(500.0, 500.0), bounds, false);
    state.follow_cursor();
    assert_eq!(state.release_point(), p(10.0, 20.0));
}

#[test]
fn the_state_of_a_save_has_a_word() {
    let words = [
        (LoadStatus::Fresh, "fresh"),
        (LoadStatus::Loaded, "loaded"),
        (LoadStatus::RecoveredFromBak, "recoveredFromBak"),
        (LoadStatus::IsolatedCorrupt, "isolatedCorrupt"),
        (LoadStatus::IsolatedFuture, "isolatedFuture"),
        (LoadStatus::MigrationPending, "migrationPending"),
    ];
    for (status, word) in words {
        assert_eq!(save_state_key(status), word);
    }
}

#[test]
fn sending_out_looks_at_the_condition_and_the_quiet_hours() {
    let pet = Condition { neglect_level: 2, energy: s(30.0), satiety: s(40.0), cleanliness: s(50.0) };
    let check = dispatch_check(true, pet, 21, "22:30", "soon", 3);
    assert!(check.active);
    assert_eq!(check.neglect_level, 2);
    assert_eq!((check.energy, check.satiety, check.cleanliness), (s(30.0), s(40.0), s(50.0)));
    assert_eq!((check.local_hour, check.quiet_from_hour, check.quiet_to_hour), (21, 22, 0));
    assert_eq!((check.today_job_count, check.daily_job_limit), (0, 3));
}

#[test]
fn the_policy_for_a_pet_out_of_reach_follows_the_configuration() {
    let mut cfg = InteractionCfg {
        unavailable_presence_factor: Scalar { bits: 0.25f32.to_bits() },
        tray_fallback_enabled: true,
        unreachable_natural_floor_level: 3,
        unreachable_hold_sec: 600,
        unreachable_no_negative_sec: 900,
    };
    let policy = interaction_policy_of(&cfg);
    assert!(policy.available && policy.tray_fallback_enabled);
    assert_eq!(policy.unavailable_presence_factor, cfg.unavailable_presence_factor);
    assert_eq!(policy.unreachable_floor_level, 3);
    assert_eq!((policy.unreachable_hold_sec, policy.unreachable_no_negative_sec), (600, 900));
    cfg.unreachable_natural_floor_level = 256;
    assert_eq!(interaction_policy_of(&cfg).unreachable_floor_level, 4);
    assert_eq!(unreachable_floor(255), 255);
}

#[test]
fn the_pet_starts_in_its_window_or_on_the_primary_monitor() {
    let monitors = [monitor(2, -1920.0, 1920.0, 1040.0, false), mon_a()];
    let centers = [p(-960.0, 520.0), p(960.0, 520.0)];
    assert_eq!(initial_pos(Some(p(5.0, 6.0)), &monitors, &centers), p(5.0, 6.0));
    assert_eq!(initial_pos(Some(p(f32::NAN, 6.0)), &monitors, &centers), p(960.0, 520.0));
    assert_eq!(initial_pos(None, &monitors[..1], &centers[..1]), p(-960.0, 520.0));
    assert_eq!(initial_pos(None, &[], &[]), p(0.0, 0.0));
}

#[test]
fn orders_are_lost_only_from_a_full_channel() {
    let mut channel = PlaybackChannel::default();
    settle_play(&mut channel, Arbitration::Dropped, "A".to_string());
    start_next(&mut channel, None);
    assert!(!stop_looping_current(&mut channel, &None));
    assert_eq!(channel.dropped_orders(), 0);
    for _ in 0..PLAYBACK_CHANNEL_CAP {
        settle_play(&mut channel, Arbitration::Play, "A".to_string());
    }
    assert_eq!(channel.dropped_orders(), 0);
    settle_play(&mut channel, Arbitration::Interrupt, "B".to_string());
    assert_eq!(channel.dropped_orders(), 1);
    settle_play(&mut channel, Arbitration::Suppressed, "B".to_string());
    assert_eq!(channel.dropped_orders(), 1);
    assert!(stop_looping_current(&mut channel, &toss()));
    assert_eq!(channel.dropped_orders(), 2);
    start_next(&mut channel, Some("C".to_string()));
    assert_eq!(channel.dropped_orders(), 3);
}

#[test]
fn reminders_are_set_only_where_they_change() {
    let kept = SettingsSnapshot::default().reminders;
    let wanted = RemindersSnapshot { water_interval_min: 60, ..kept };
    assert_eq!(CoreLoopState::sync_reminders(kept, kept), None);
    assert_eq!(CoreLoopState::sync_reminders(kept, wanted), Some(wanted));
    assert_eq!(CoreLoopState::sync_reminders(wanted, wanted), None);
    let silent = RemindersSnapshot { sedentary_enabled: !kept.sedentary_enabled, ..kept };
    assert_eq!(CoreLoopState::sync_reminders(kept, silent), Some(silent));
}

#[test]
fn reminders_hear_of_do_not_disturb() {
    let mut core = state();
    assert!(!core.reminder_tick(5).do_not_disturb);
    core.dnd = true;
    let round = core.reminder_tick(77);
    assert_eq!((round.do_not_disturb, round.at_ms), (true, 77));
    let _ = core.begin_tick(250, true);
    let call = core.reminder_call(true).expect("an action");
    assert_eq!((call.action_id, call.source), (REMINDER_ACTION_ID, ActionSource::Ambient));
    assert_eq!(call.at_ms, 250);
    assert_eq!(core.reminder_call(false), None);
}

#[test]
fn a_thrown_pet_lands_in_the_round_in_which_it_does() {
    let bounds = desktop(&[mon_a()]);
    let mut core = state();
    let _ = core.begin_drag(p(960.0, 300.0), bounds, false);
    let _ = core.release_drag(true, true, false, false, 1_000);
    for k in 1..30u64 {
        let now = 1_000 + 50 * k;
        assert!(matches!(core.begin_tick(now, false), EngineRun::Fall { start: None }));
        assert_eq!(core.end_tick(now, p(960.0, 300.0), false, bounds), RoundEnd::Continue);
        assert!(core.thrown_flight());
        assert_eq!(core.throw_landed_count(), 0);
    }
    let _ = core.begin_tick(2_500, false);
    match core.end_tick(2_500, p(960.0, 1040.0), true, bounds) {
        RoundEnd::Landed { at, thrown, .. } => {
            assert_eq!((at, thrown), (p(960.0, 1040.0), true));
            assert_eq!(landing_steps(thrown).len(), 3);
        }
        other => panic!("{other:?}"),
    }
    assert_eq!((core.phase(), core.thrown_flight()), (Phase::Roam, false));
    assert_eq!(core.throw_landed_count(), 1);
    for k in 1..4u64 {
        let now = 2_500 + 50 * k;
        let _ = core.begin_tick(now, false);
        let end = core.end_tick(now, p(960.0, 1040.0), true, bounds);
        assert!(matches!(end, RoundEnd::Landed { thrown: false, .. }));
    }
    assert_eq!(core.throw_landed_count(), 1);
}
