//! Frame commands, queues and the frame player.

use dp_app::bridge::channel::{
    CoreInput, CoreInputChannel, PlaybackChannel, PlaybackOrder, PlaybackReport, CORE_INPUT_CAP,
    PLAYBACK_CHANNEL_CAP,
};
use dp_app::bridge::frame::{
    frame_cmd, particle_cmd, validate_atlas_name, AtlasMeta, FpsTier, FrameAlpha, FrameRect,
    FrameTierHandle, ParticleCmd, ParticleKind, PlayerFrame, RenderFrameCmd, BUBBLE_EVENT,
    COAX_EVENT, EMOTION_EVENT, FRAME_CMD_VERSION, FRAME_EVENT, FX_EVENT, MENU_EVENT,
    PARTICLE_BURST_CAP, PARTICLE_CMD_VERSION, STATE_EVENT,
};
use dp_app::bridge::player::{
    fallback_items_from_atlas, frame_to_publish, rotation_items, scaled, since, OverridePlay,
    Player, TickOutput, Track,
};
use dp_app::scalar::Scalar;
use std::sync::{Arc, Mutex};

fn meta(action_id: &str, png: &str, frame_count: u32) -> AtlasMeta {
    AtlasMeta {
        action_id: action_id.to_string(),
        png: png.to_string(),
        frame_w: 256,
        frame_h: 256,
        columns: frame_count,
        rows: 1,
        frame_count,
    }
}

fn track(action_id: &str, looping: bool, segment_ms: u64) -> Track {
    Track { action_id: action_id.to_string(), looping, segment_ms }
}

fn play(action_id: &str) -> PlaybackOrder {
    PlaybackOrder::Play { action_id: action_id.to_string() }
}

fn finished(action_id: &str) -> PlaybackReport {
    PlaybackReport::Finished { action_id: action_id.to_string() }
}

#[test]
fn pet_event_names_align_core() {
    assert_eq!(STATE_EVENT, "pet://state");
    assert_eq!(EMOTION_EVENT, "pet://emotion");
    assert_eq!(COAX_EVENT, "pet://coax");
    assert_eq!(BUBBLE_EVENT, "pet://bubble");
    for name in [
        FRAME_EVENT,
        FX_EVENT,
        MENU_EVENT,
        STATE_EVENT,
        EMOTION_EVENT,
        COAX_EVENT,
        BUBBLE_EVENT,
    ] {
        assert!(name.starts_with("pet://"), "{name}");
        assert!(!name.contains(' '), "{name}");
    }
}

#[test]
fn atlas_name_validation_rejects_traversal_and_drive_escaping() {
    assert_eq!(validate_atlas_name("ACT-M-01_idle.png"), Ok(()));

    assert!(validate_atlas_name("a/b.png").is_err());
    assert!(validate_atlas_name("a\\b.png").is_err());
    assert!(validate_atlas_name("../atlas.json").is_err());
    assert!(validate_atlas_name("").is_err());

    assert!(validate_atlas_name("C:evil.png").is_err());
    assert!(validate_atlas_name("C:\\evil.png").is_err());
    assert!(validate_atlas_name("evil:png").is_err());
    let err = validate_atlas_name("C:evil.png").expect_err("refused");
    assert!(err.contains("非法图集文件名"), "{err}");
}

#[test]
fn a_frame_command_starts_opaque_and_idle() {
    let cmd = RenderFrameCmd::default();
    assert_eq!(cmd.version, FRAME_CMD_VERSION);
    assert_eq!(cmd.action_id, "");
    assert_eq!(cmd.atlas_png, "");
    assert_eq!(cmd.frame_index, 0);
    assert!(!cmd.mirror);
    assert!((f32::from_bits(cmd.alpha.bits) - 1.0).abs() < 1e-6);
    assert_eq!(cmd.fps, FpsTier::default().fps());
    assert_eq!(cmd.fps, 6);
}

#[test]
fn frame_rect_layout_row_major_and_out_of_range() {
    let base = RenderFrameCmd {
        frame_index: 3,
        columns: 8,
        rows: 1,
        frame_w: 256,
        frame_h: 256,
        ..RenderFrameCmd::default()
    };
    assert_eq!(base.frame_rect(), Some(FrameRect { x: 768, y: 0, w: 256, h: 256 }));

    let multi = RenderFrameCmd {
        frame_index: 4,
        columns: 2,
        rows: 3,
        frame_w: 256,
        frame_h: 256,
        ..RenderFrameCmd::default()
    };
    assert_eq!(multi.frame_rect(), Some(FrameRect { x: 0, y: 512, w: 256, h: 256 }));

    let over = RenderFrameCmd { frame_index: 8, columns: 8, rows: 1, ..base.clone() };
    assert_eq!(over.frame_rect(), None);
    let zero = RenderFrameCmd { columns: 0, rows: 0, ..base.clone() };
    assert_eq!(zero.frame_rect(), None);
    let zero_size = RenderFrameCmd { frame_w: 0, frame_h: 0, ..base };
    assert_eq!(zero_size.frame_rect(), None);
}

#[test]
fn frames_of_one_atlas_do_not_overlap() {
    let mut seen: Vec<FrameRect> = Vec::new();
    for frame_index in 0..6 {
        let cmd = RenderFrameCmd {
            frame_index,
            columns: 2,
            rows: 3,
            frame_w: 10,
            frame_h: 20,
            ..RenderFrameCmd::default()
        };
        let rect = cmd.frame_rect().expect("on the grid");
        assert!(rect.x + rect.w <= 20 && rect.y + rect.h <= 60);
        assert!(!seen.contains(&rect));
        seen.push(rect);
    }
}

#[test]
fn frame_cmd_joins_atlas_meta_and_player_frame() {
    let m = meta("ACT-M-02", "ACT-M-02_walk.png", 8);
    let frame = PlayerFrame {
        action_id: "ACT-M-02".to_string(),
        frame_index: 5,
        mirror: true,
        action_fps: 12,
    };
    let cmd = frame_cmd(&m, &frame, 6);
    assert_eq!(cmd.version, FRAME_CMD_VERSION);
    assert_eq!(cmd.action_id, "ACT-M-02");
    assert_eq!(cmd.atlas_png, "ACT-M-02_walk.png");
    assert_eq!(cmd.frame_index, 5);
    assert_eq!(cmd.columns, 8);
    assert_eq!(cmd.rows, 1);
    assert_eq!(cmd.frame_w, 256);
    assert_eq!(cmd.frame_h, 256);
    assert!(cmd.mirror);
    assert!((f32::from_bits(cmd.alpha.bits) - 1.0).abs() < 1e-6);
    assert_eq!(cmd.fps, 6);
}

#[test]
fn a_frame_is_published_with_the_opacity_in_effect() {
    let metas = vec![meta("ACT-M-01", "idle.png", 4), meta("ACT-M-02", "walk.png", 8)];
    let frame = PlayerFrame {
        action_id: "ACT-M-02".to_string(),
        frame_index: 5,
        mirror: false,
        action_fps: 12,
    };
    let half = Scalar { bits: 0.5f32.to_bits() };
    let cmd = frame_to_publish(&metas, &frame, 30, Some(half)).expect("known action");
    assert_eq!(cmd.atlas_png, "walk.png");
    assert_eq!(cmd.alpha, half);
    let plain = frame_to_publish(&metas, &frame, 30, None).expect("known action");
    assert_eq!(f32::from_bits(plain.alpha.bits), 1.0);

    let stranger = PlayerFrame { action_id: "ACT-Z-00".to_string(), ..frame };
    assert!(frame_to_publish(&metas, &stranger, 30, None).is_none());
}

#[test]
fn fallback_items_derive_looping_from_atlas() {
    let metas = vec![meta("ACT-M-01", "ACT-M-01_idle.png", 4), meta("ACT-Z-00", "empty.png", 0)];
    let items = fallback_items_from_atlas(&metas);
    assert_eq!(items.len(), 1);
    assert_eq!(items[0].action_id, "ACT-M-01");
    assert!(items[0].looping);
    assert_eq!(items[0].fps, FpsTier::default().fps());
    assert_eq!(items[0].frame_count, 4);
    assert_eq!(items[0].dwell_ms, 2_000);
}

#[test]
fn no_atlas_gives_no_play_items() {
    assert!(fallback_items_from_atlas(&Vec::new()).is_empty());
    assert!(rotation_items(None, &Vec::new()).is_none());
}

#[test]
fn the_action_list_comes_before_the_atlas() {
    let metas = vec![meta("ACT-M-01", "idle.png", 4), meta("ACT-M-02", "walk.png", 8)];
    let all = fallback_items_from_atlas(&metas);
    let listed = vec![all[1].clone()];
    assert_eq!(rotation_items(Some(listed.clone()), &metas), Some(listed));
    assert_eq!(rotation_items(Some(Vec::new()), &metas), None);
    assert_eq!(rotation_items(None, &metas), Some(all));
}

#[test]
fn frame_tier_handle_switches_and_defends() {
    let handle = Arc::new(Mutex::new(FrameTierHandle::new(FpsTier::Fps6)));
    assert_eq!(handle.lock().unwrap().get(), FpsTier::Fps6);

    handle.lock().unwrap().set(FpsTier::Fps4);
    assert_eq!(handle.lock().unwrap().get(), FpsTier::Fps4);

    handle.lock().unwrap().set(FpsTier::Fps30);
    assert_eq!(handle.lock().unwrap().get(), FpsTier::Fps30);

    let clone = Arc::clone(&handle);
    handle.lock().unwrap().set(FpsTier::Fps2);
    assert_eq!(clone.lock().unwrap().get(), FpsTier::Fps2);
}

#[test]
fn rates_are_frames_per_second() {
    let tiers = [
        (FpsTier::Fps2, 2),
        (FpsTier::Fps4, 4),
        (FpsTier::Fps6, 6),
        (FpsTier::Fps15, 15),
        (FpsTier::Fps30, 30),
        (FpsTier::Fps60, 60),
    ];
    for (tier, fps) in tiers {
        assert_eq!(tier.fps(), fps);
    }
}

#[test]
fn opacity_is_held_between_the_lowest_and_full() {
    let mut alpha = FrameAlpha::default();
    assert_eq!(alpha.percent(), 100);
    alpha.set_percent(55, 20);
    assert_eq!(alpha.percent(), 55);
    alpha.set_percent(5, 20);
    assert_eq!(alpha.percent(), 20);
    alpha.set_percent(250, 20);
    assert_eq!(alpha.percent(), 100);
    alpha.set_percent(5, 250);
    assert_eq!(alpha.percent(), 100);
}

#[test]
fn particle_counts_are_held_in_range() {
    assert_eq!(particle_cmd(ParticleKind::Heart, 0).count, 1);
    assert_eq!(particle_cmd(ParticleKind::Heart, 500).count, PARTICLE_BURST_CAP);
    assert_eq!(particle_cmd(ParticleKind::Heart, 60).count, 60);

    let fallback = ParticleCmd::default();
    assert_eq!(fallback.kind, ParticleKind::Heart);
    assert_eq!(fallback.count, 12);
    assert_eq!(fallback.version, PARTICLE_CMD_VERSION);

    let dust = particle_cmd(ParticleKind::Dust, 8);
    assert_eq!((dust.kind, dust.count, dust.version), (ParticleKind::Dust, 8, 1));
}

#[test]
fn playback_channel_bounds_orders_counts_drops_and_keeps_fifo() {
    let mut channel = PlaybackChannel::default();
    for i in 0..(PLAYBACK_CHANNEL_CAP + 4) {
        channel.push_order(PlaybackOrder::Play { action_id: format!("ACT-{i:02}") });
    }
    assert_eq!(channel.dropped_orders(), 4);

    let first = channel.try_pop_order().expect("an order");
    assert_eq!(first, PlaybackOrder::Play { action_id: format!("ACT-{:02}", 4) });

    let mut count = 1;
    while channel.try_pop_order().is_some() {
        count += 1;
    }
    assert_eq!(count, PLAYBACK_CHANNEL_CAP);
    assert_eq!(channel.try_pop_order(), None);

    channel.push_order(PlaybackOrder::Stop);
    assert_eq!(channel.try_pop_order(), Some(PlaybackOrder::Stop));
}

#[test]
fn playback_channel_reports_drain_in_order_and_clone_shares() {
    let channel = Arc::new(Mutex::new(PlaybackChannel::default()));
    channel.lock().unwrap().push_report(finished("ACT-T-07"));
    channel.lock().unwrap().push_report(finished("ACT-T-08"));

    let mirror = Arc::clone(&channel);
    let drained = mirror.lock().unwrap().drain_reports();
    assert_eq!(drained.len(), 2);
    assert_eq!(drained[0], finished("ACT-T-07"));
    assert_eq!(drained[1], finished("ACT-T-08"));
    assert!(channel.lock().unwrap().drain_reports().is_empty());
}

#[test]
fn core_input_channel_bounds_counts_drops_and_drains_fifo() {
    let mut channel = CoreInputChannel::default();
    for _ in 0..(CORE_INPUT_CAP + 2) {
        channel.push(CoreInput::ResetEmotion);
    }
    assert_eq!(channel.dropped(), 2);
    assert_eq!(channel.drain().len(), CORE_INPUT_CAP);
    assert!(channel.drain().is_empty());

    channel.push(CoreInput::RecallRunaway);
    channel.push(CoreInput::ResetEmotion);
    assert_eq!(channel.drain(), vec![CoreInput::RecallRunaway, CoreInput::ResetEmotion]);
}

#[test]
fn handle_play_order_miss_reports_finished_and_hit_takes_override() {
    let mut channel = PlaybackChannel::default();
    let tracks = vec![track("ACT-M-01", true, 667)];
    let mut player = Player::new(FpsTier::Fps6, 0);

    player.handle_play_order(&mut channel, &tracks, "ACT-T-07".to_string(), 10);
    assert!(player.over.is_none());
    assert_eq!(channel.drain_reports(), vec![finished("ACT-T-07")]);

    player.handle_play_order(&mut channel, &tracks, "ACT-M-01".to_string(), 20);
    assert_eq!(player.over.map(|o| o.index), Some(0));
    assert!(channel.drain_reports().is_empty());

    player.handle_play_order(&mut channel, &tracks, "ACT-M-01".to_string(), 30);
    assert_eq!(player.over, Some(OverridePlay { index: 0, start_ms: 30 }));
    assert!(channel.drain_reports().is_empty());
}

#[test]
fn the_rotation_is_shown_until_an_action_is_ordered() {
    let mut channel = PlaybackChannel::default();
    let tracks = vec![track("ACT-M-01", true, 667), track("ACT-T-07", false, 400)];
    let mut player = Player::new(FpsTier::Fps6, 1_000);

    let out = player.on_tick(&mut channel, &tracks, FpsTier::Fps6, 1_250);
    assert_eq!(out, TickOutput::Rotation { elapsed_ms: 250 });

    channel.push_order(play("ACT-T-07"));
    let out = player.on_tick(&mut channel, &tracks, FpsTier::Fps6, 1_300);
    assert_eq!(out, TickOutput::Override { index: 1, action_ms: 0 });
    let out = player.on_tick(&mut channel, &tracks, FpsTier::Fps6, 1_600);
    assert_eq!(out, TickOutput::Override { index: 1, action_ms: 300 });
    assert!(channel.drain_reports().is_empty());

    let out = player.on_tick(&mut channel, &tracks, FpsTier::Fps6, 1_700);
    assert_eq!(out, TickOutput::Finished);
    assert_eq!(channel.drain_reports(), vec![finished("ACT-T-07")]);
    assert!(player.over.is_none());
}

#[test]
fn a_looping_action_plays_until_it_is_stopped() {
    let mut channel = PlaybackChannel::default();
    let tracks = vec![track("ACT-T-06", true, 500)];
    let mut player = Player::new(FpsTier::Fps6, 0);
    channel.push_order(play("ACT-T-06"));
    assert_eq!(
        player.on_tick(&mut channel, &tracks, FpsTier::Fps6, 100),
        TickOutput::Override { index: 0, action_ms: 0 }
    );
    assert_eq!(
        player.on_tick(&mut channel, &tracks, FpsTier::Fps6, 60_100),
        TickOutput::Override { index: 0, action_ms: 60_000 }
    );
    channel.push_order(PlaybackOrder::Stop);
    assert_eq!(
        player.on_tick(&mut channel, &tracks, FpsTier::Fps6, 60_200),
        TickOutput::Rotation { elapsed_ms: 0 }
    );
    assert!(channel.drain_reports().is_empty());
}

#[test]
fn of_several_orders_the_last_counts() {
    let mut channel = PlaybackChannel::default();
    let tracks = vec![track("ACT-A", true, 500), track("ACT-B", true, 500)];
    let mut player = Player::new(FpsTier::Fps6, 0);
    channel.push_order(play("ACT-A"));
    channel.push_order(play("ACT-B"));
    assert_eq!(
        player.on_tick(&mut channel, &tracks, FpsTier::Fps6, 100),
        TickOutput::Override { index: 1, action_ms: 0 }
    );
}

#[test]
fn a_change_of_rate_shows_nothing_for_one_tick() {
    let mut channel = PlaybackChannel::default();
    let tracks = vec![track("ACT-M-01", true, 667)];
    let mut player = Player::new(FpsTier::Fps6, 0);
    let out = player.on_tick(&mut channel, &tracks, FpsTier::Fps30, 100);
    assert_eq!(out, TickOutput::Retiered);
    assert_eq!(player.tier, FpsTier::Fps30);
}

#[test]
fn ticks_stand_on_a_grid() {
    let mut player = Player::new(FpsTier::Fps6, 0);
    for k in 1..=100u64 {
        assert_eq!(player.next_due(166), k * 166);
    }
    assert_eq!(scaled(u64::MAX, 2), u64::MAX);
    assert_eq!(scaled(3, 7), 21);
    assert_eq!(since(50, 20), 30);
    assert_eq!(since(20, 50), 0);
}
