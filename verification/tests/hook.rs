//! The queue of the mouse hook, and what its events are sorted into.

use dp_app::coreloop::kinds::InteractionKind;
use dp_app::hook_sink::{ChannelSink, HookEvent, MouseButton, DEFAULT_HOOK_QUEUE_CAPACITY};
use dp_app::interaction_consumer::{
    to_input, InputEvent, InteractionConsumer, RightClickHit, RIGHT_CLICK_MAX_INTERVAL_MS,
    RIGHT_CLICK_MAX_MOVE_PX,
};

fn ev(i: i32) -> HookEvent {
    HookEvent::Move { x: i, y: i }
}

fn left_down(x: i32, y: i32) -> HookEvent {
    HookEvent::Down { button: MouseButton::Left, x, y }
}

fn left_up(x: i32, y: i32) -> HookEvent {
    HookEvent::Up { button: MouseButton::Left, x, y }
}

fn right_down(x: i32, y: i32) -> HookEvent {
    HookEvent::Down { button: MouseButton::Right, x, y }
}

fn right_up(x: i32, y: i32) -> HookEvent {
    HookEvent::Up { button: MouseButton::Right, x, y }
}

#[test]
fn delivers_when_capacity_available() {
    let mut sink = ChannelSink::new(4);
    for i in 0..4 {
        sink.on_event(ev(i));
    }
    assert_eq!(sink.dropped(), 0);
    assert_eq!(sink.drain(), 4);
    assert_eq!(sink.try_recv(), None);
}

#[test]
fn counts_drops_when_full_and_never_blocks() {
    let mut sink = ChannelSink::new(2);
    for i in 0..10 {
        sink.on_event(ev(i));
    }
    assert_eq!(sink.dropped(), 8);
    assert_eq!(sink.drain(), 2);
}

#[test]
fn a_full_queue_keeps_what_came_first() {
    let mut sink = ChannelSink::new(2);
    for i in 0..5 {
        sink.on_event(ev(i));
    }
    assert_eq!(sink.take_all(), vec![ev(0), ev(1)]);
    assert_eq!(DEFAULT_HOOK_QUEUE_CAPACITY, 512);
}

#[test]
fn capacity_zero_is_clamped_to_one() {
    let mut sink = ChannelSink::new(0);
    sink.on_event(ev(1));
    sink.on_event(ev(2));
    assert_eq!(sink.dropped(), 1);
    assert_eq!(sink.drain(), 1);
}

#[test]
fn disconnected_is_silent_and_not_counted() {
    let mut sink = ChannelSink::new(4);
    sink.disconnect();
    sink.on_event(ev(1));
    assert_eq!(sink.dropped(), 0);
    assert_eq!(sink.try_recv(), None);
}

#[test]
fn hook_event_button_variants_are_forwarded_verbatim() {
    let mut sink = ChannelSink::new(4);
    sink.on_event(HookEvent::Down { button: MouseButton::X2, x: 7, y: 8 });
    match sink.try_recv() {
        Some(HookEvent::Down { button, x, y }) => {
            assert_eq!((button, x, y), (MouseButton::X2, 7, 8));
        }
        other => panic!("{other:?}"),
    }
}

#[test]
fn to_input_maps_left_move_wheel_and_drops_other_buttons() {
    assert_eq!(to_input(HookEvent::Move { x: 1, y: 2 }), Some(InputEvent::Move { x: 1, y: 2 }));
    assert_eq!(to_input(left_down(3, 4)), Some(InputEvent::Press { x: 3, y: 4 }));
    assert_eq!(to_input(left_up(3, 4)), Some(InputEvent::Release { x: 3, y: 4 }));
    assert_eq!(
        to_input(HookEvent::Wheel { delta: 120, x: 0, y: 0 }),
        Some(InputEvent::Wheel { delta: 120 })
    );
    let others = [
        (MouseButton::Right, true),
        (MouseButton::Right, false),
        (MouseButton::Middle, true),
        (MouseButton::Middle, false),
        (MouseButton::X1, true),
        (MouseButton::X1, false),
        (MouseButton::X2, true),
        (MouseButton::X2, false),
    ];
    for (button, down) in others {
        let event = if down {
            HookEvent::Down { button, x: 9, y: 9 }
        } else {
            HookEvent::Up { button, x: 9, y: 9 }
        };
        assert_eq!(to_input(event), None, "{button:?}");
    }
}

#[test]
fn a_batch_is_stamped_one_millisecond_apart() {
    let mut sink = ChannelSink::new(64);
    let mut consumer = InteractionConsumer::new();
    sink.on_event(HookEvent::Move { x: 5, y: 5 });
    sink.on_event(left_down(5, 5));
    sink.on_event(left_up(5, 5));
    let batch = consumer.drain_collect(&mut sink, 1_000);
    assert_eq!(
        batch.inputs,
        vec![
            (InputEvent::Move { x: 5, y: 5 }, 1_001),
            (InputEvent::Press { x: 5, y: 5 }, 1_002),
            (InputEvent::Release { x: 5, y: 5 }, 1_003),
        ]
    );
    assert_eq!(batch.tail_ms, 1_003);
}

#[test]
fn right_button_counts_and_never_feeds_machine() {
    let mut sink = ChannelSink::new(64);
    let mut consumer = InteractionConsumer::new();
    sink.on_event(right_down(3, 3));
    sink.on_event(right_up(3, 3));
    sink.on_event(HookEvent::Down { button: MouseButton::Middle, x: 3, y: 3 });
    sink.on_event(HookEvent::Down { button: MouseButton::X1, x: 3, y: 3 });
    assert_eq!(consumer.drain_collect(&mut sink, 0).inputs.len(), 0);
    assert_eq!(consumer.right_down_count(), 1);
    assert_eq!(consumer.right_up_count(), 1);
    for kind in [
        InteractionKind::Click,
        InteractionKind::DoubleClick,
        InteractionKind::Hover,
        InteractionKind::Stroke,
    ] {
        assert_eq!(consumer.kind_count(kind), 0, "{kind:?}");
    }
}

#[test]
fn recognised_interactions_are_counted_by_kind() {
    let mut consumer = InteractionConsumer::new();
    consumer.note(InteractionKind::Click);
    consumer.note(InteractionKind::Click);
    consumer.note(InteractionKind::Throw);
    assert_eq!(consumer.kind_count(InteractionKind::Click), 2);
    assert_eq!(consumer.kind_count(InteractionKind::Throw), 1);
    assert_eq!(consumer.kind_count(InteractionKind::Hover), 0);
}

#[test]
fn a_batch_of_interactions_is_counted_by_kind() {
    let mut consumer = InteractionConsumer::new();
    consumer.note(InteractionKind::Hover);
    consumer.note_all(&[
        InteractionKind::Click,
        InteractionKind::Throw,
        InteractionKind::Click,
        InteractionKind::Hover,
    ]);
    consumer.note_all(&[]);
    assert_eq!(consumer.kind_count(InteractionKind::Click), 2);
    assert_eq!(consumer.kind_count(InteractionKind::Throw), 1);
    assert_eq!(consumer.kind_count(InteractionKind::Hover), 2);
    assert_eq!(consumer.kind_count(InteractionKind::Stroke), 0);
}

#[test]
fn qa_probe_sink_full_drops_do_not_break_consumer() {
    let mut sink = ChannelSink::new(2);
    sink.on_event(left_down(0, 0));
    sink.on_event(left_up(0, 0));
    sink.on_event(HookEvent::Move { x: 1, y: 0 });
    sink.on_event(HookEvent::Move { x: 2, y: 0 });
    sink.on_event(HookEvent::Move { x: 3, y: 0 });
    assert_eq!(sink.dropped(), 3);
    let mut consumer = InteractionConsumer::new();
    assert_eq!(consumer.drain_collect(&mut sink, 1_000).inputs.len(), 2);
    assert_eq!(sink.dropped(), 3);
    sink.on_event(HookEvent::Move { x: 9, y: 9 });
    assert_eq!(sink.dropped(), 3);
    assert_eq!(consumer.drain_collect(&mut sink, 1_100).inputs.len(), 1);
}

#[test]
fn qa_probe_right_click_interleaves_without_disturbing_left_click() {
    let mut sink = ChannelSink::new(16);
    let mut consumer = InteractionConsumer::new();
    sink.on_event(right_down(0, 0));
    sink.on_event(left_down(0, 0));
    sink.on_event(right_up(0, 0));
    sink.on_event(left_up(0, 0));
    sink.on_event(HookEvent::Move { x: 1, y: 0 });
    let batch = consumer.drain_collect(&mut sink, 1_000);
    assert_eq!(batch.inputs.len(), 3);
    assert_eq!(consumer.right_down_count(), 1);
    assert_eq!(consumer.right_up_count(), 1);

    let mut plain_sink = ChannelSink::new(16);
    plain_sink.on_event(left_down(0, 0));
    plain_sink.on_event(left_up(0, 0));
    plain_sink.on_event(HookEvent::Move { x: 1, y: 0 });
    let plain = InteractionConsumer::new().drain_collect(&mut plain_sink, 1_000);
    assert_eq!(plain.inputs, batch.inputs);
    assert_eq!(plain.tail_ms, batch.tail_ms);
}

#[test]
fn qa_probe_drain_collect_empty_queue_returns_zero_and_no_panic() {
    let mut sink = ChannelSink::new(16);
    let mut consumer = InteractionConsumer::new();
    let batch = consumer.drain_collect(&mut sink, 1_000);
    assert_eq!((batch.inputs.len(), batch.tail_ms), (0, 1_000));
    let batch = consumer.drain_collect(&mut sink, 1_050);
    assert_eq!((batch.inputs.len(), batch.tail_ms), (0, 1_050));
    sink.on_event(HookEvent::Move { x: 1, y: 1 });
    assert_eq!(consumer.drain_collect(&mut sink, 1_100).inputs.len(), 1);
}

#[test]
fn stamps_wrap_around_with_the_clock() {
    let mut sink = ChannelSink::new(4);
    let mut consumer = InteractionConsumer::new();
    sink.on_event(ev(1));
    sink.on_event(ev(2));
    let batch = consumer.drain_collect(&mut sink, u64::MAX - 1);
    assert_eq!((batch.inputs[0].1, batch.inputs[1].1, batch.tail_ms), (u64::MAX, 0, 0));
}

#[test]
fn right_click_pairing_produces_single_hit_at_up_position() {
    let mut sink = ChannelSink::new(16);
    let mut consumer = InteractionConsumer::new();
    sink.on_event(right_down(1_000, 500));
    sink.on_event(right_up(1_002, 498));
    assert_eq!(consumer.drain_collect(&mut sink, 1_000).inputs.len(), 0);
    assert_eq!(consumer.right_down_count(), 1);
    assert_eq!(consumer.right_up_count(), 1);
    assert_eq!(consumer.take_menu_clicks(), vec![RightClickHit { x: 1_002, y: 498 }]);
    assert!(consumer.take_menu_clicks().is_empty());
}

#[test]
fn right_click_window_and_move_boundaries() {
    assert_eq!((RIGHT_CLICK_MAX_INTERVAL_MS, RIGHT_CLICK_MAX_MOVE_PX), (500, 8));
    let mut sink = ChannelSink::new(16);
    let mut consumer = InteractionConsumer::new();
    sink.on_event(right_down(0, 0));
    consumer.drain_collect(&mut sink, 1_000);
    sink.on_event(right_up(8, 8));
    consumer.drain_collect(&mut sink, 1_500);
    assert_eq!(consumer.take_menu_clicks(), vec![RightClickHit { x: 8, y: 8 }]);

    let mut consumer = InteractionConsumer::new();
    sink.on_event(right_down(0, 0));
    consumer.drain_collect(&mut sink, 1_000);
    consumer.drain_collect(&mut sink, 1_600);
    sink.on_event(right_up(0, 0));
    consumer.drain_collect(&mut sink, 1_600);
    assert!(consumer.take_menu_clicks().is_empty());

    let mut consumer = InteractionConsumer::new();
    sink.on_event(right_down(0, 0));
    sink.on_event(right_up(9, 0));
    consumer.drain_collect(&mut sink, 1_000);
    assert!(consumer.take_menu_clicks().is_empty());
}

#[test]
fn right_up_without_down_and_repeated_down_are_idempotent() {
    let mut sink = ChannelSink::new(16);
    let mut consumer = InteractionConsumer::new();
    sink.on_event(right_up(5, 5));
    consumer.drain_collect(&mut sink, 1_000);
    assert!(consumer.take_menu_clicks().is_empty());
    sink.on_event(right_down(0, 0));
    sink.on_event(right_down(3, 3));
    sink.on_event(right_up(3, 3));
    consumer.drain_collect(&mut sink, 1_100);
    assert_eq!(consumer.take_menu_clicks(), vec![RightClickHit { x: 3, y: 3 }]);
    sink.on_event(right_down(0, 0));
    sink.on_event(left_down(0, 0));
    sink.on_event(right_up(0, 0));
    sink.on_event(left_up(0, 0));
    assert_eq!(consumer.drain_collect(&mut sink, 2_000).inputs.len(), 2);
    assert_eq!(consumer.take_menu_clicks().len(), 1);
}
