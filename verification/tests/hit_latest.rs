//! Which points of the screen hit the pet.

use dp_app::bridge::frame::FrameRect;
use dp_app::hit_latest::{
    build_store_with, cut_frames, extract_frame_rgba, fill_masks, DecodedRgba, FrameCursor,
    HitLatestHandle, HitMask, HitOutcomeForTest, HitResult, MaskHitSource, MaskMeta, MaskStore,
    FRAME_INDEX_NONE,
};
use dp_app::ports::PetBBoxHandle;
use std::sync::{Arc, Mutex};

/// The opacity from which on a pixel belongs to the pet.
const THRESHOLD: u8 = 32;

/// Two frames side by side, sixteen wide; in each the upper left four by four is lit.
fn rgba_body() -> DecodedRgba {
    let mut data = vec![0u8; 32 * 16 * 4];
    for y in 0..4u32 {
        for x in 0..4u32 {
            data[((y * 32 + x) * 4 + 3) as usize] = 255;
            data[((y * 32 + 16 + x) * 4 + 3) as usize] = 255;
        }
    }
    DecodedRgba { width: 32, height: 16, data }
}

fn meta(action_id: &str) -> MaskMeta {
    MaskMeta {
        action_id: action_id.to_string(),
        frame_w: 16,
        frame_h: 16,
        secondary: vec![FrameRect { x: 12, y: 12, w: 4, h: 4 }],
    }
}

fn rects() -> Vec<Option<FrameRect>> {
    vec![
        Some(FrameRect { x: 0, y: 0, w: 16, h: 16 }),
        Some(FrameRect { x: 16, y: 0, w: 16, h: 16 }),
    ]
}

/// The masks of the frames that could be cut out.
fn masks(image: &Option<DecodedRgba>, rects: &Vec<Option<FrameRect>>) -> Vec<HitMask> {
    cut_frames(image, rects)
        .into_iter()
        .zip(rects)
        .map(|(frame, rect)| match (frame, rect) {
            (Some(rgba), Some(rect)) => HitMask {
                width: rect.w,
                height: rect.h,
                lit: rgba.chunks(4).map(|pixel| pixel[3] >= THRESHOLD).collect(),
            },
            _ => HitMask::empty(),
        })
        .collect()
}

fn store_of(actions: Vec<(MaskMeta, Option<DecodedRgba>)>) -> MaskStore {
    build_store_with(
        actions.into_iter().map(|(meta, image)| (meta, masks(&image, &rects()))).collect(),
    )
}

fn store_with_body() -> MaskStore {
    store_of(vec![(meta("ACT-A"), Some(rgba_body()))])
}

fn source_on(store: Option<MaskStore>, action: u32, frame: u32, mirror: bool) -> MaskHitSource {
    let mut cursor = FrameCursor::new();
    cursor.publish(action, frame, mirror);
    MaskHitSource::new(store, cursor)
}

fn handle_on(left: i32, top: i32, right: i32, bottom: i32) -> HitLatestHandle {
    let mut bbox = PetBBoxHandle::new();
    bbox.store(left, top, right, bottom);
    HitLatestHandle::new(bbox)
}

#[test]
fn pack_meta_mask_slices_from_pack_row() {
    let mut data = vec![0u8; 32 * 32 * 4];
    for y in 16..20u32 {
        for x in 0..4u32 {
            data[((y * 32 + x) * 4 + 3) as usize] = 255;
        }
    }
    let image = Some(DecodedRgba { width: 32, height: 32, data });
    let second_row = vec![
        Some(FrameRect { x: 0, y: 16, w: 16, h: 16 }),
        Some(FrameRect { x: 16, y: 16, w: 16, h: 16 }),
    ];
    let store = build_store_with(vec![(meta("ACT-A"), masks(&image, &second_row))]);
    let frame0 = &store.entry(0).expect("one action").frames[0];
    assert!(frame0.bit_at(2, 2));
    assert!(!frame0.is_empty());
    assert!(!frame0.bit_at(2, 10));
}

#[test]
fn frame_cursor_pack_roundtrip_and_mirror() {
    let mut c = FrameCursor::new();
    assert_eq!(c.snapshot(), (FRAME_INDEX_NONE, false));
    c.publish(3, 7, true);
    let (index, mirror) = c.snapshot();
    assert_eq!(index >> 16, 3);
    assert_eq!(index & 0xFFFF, 7);
    assert!(mirror);
    c.publish(0, 0, false);
    let (index, mirror) = c.snapshot();
    assert_eq!((index >> 16, index & 0xFFFF, mirror), (0, 0, false));
}

#[test]
fn frame_cursor_clone_shares_slot() {
    let c = Arc::new(Mutex::new(FrameCursor::new()));
    let clone = Arc::clone(&c);
    c.lock().unwrap().publish(1, 2, false);
    assert_eq!(clone.lock().unwrap().snapshot(), (1 << 16 | 2, false));
}

#[test]
fn a_cursor_holds_sixteen_bits_of_each_number() {
    let mut c = FrameCursor::new();
    c.publish(0xFFFF, 0xFFFE, true);
    assert_eq!(c.snapshot(), (0xFFFF_FFFE, true));
    c.publish(0x1_0005, 0x2_0003, false);
    assert_eq!(c.snapshot(), (0x0005_0003, false));
    c.publish(u32::MAX, u32::MAX, false);
    assert_eq!(c.snapshot(), (FRAME_INDEX_NONE, false));
}

#[test]
fn build_store_maps_frames_and_secondaries() {
    let store = store_with_body();
    assert_eq!(store.len(), 1);
    let entry = store.entry(0).expect("one action");
    assert_eq!(entry.base, 0);
    assert_eq!(entry.frames.len(), 2);
    assert_eq!(store.base_of("ACT-A"), Some(0));
    assert!(entry.frames[0].bit_at(2, 2));
    assert!(!entry.frames[0].bit_at(8, 8));
    assert_eq!(entry.secondaries.len(), 1);
    assert!(entry.secondaries[0].contains(13, 13));
    assert!(!entry.secondaries[0].contains(16, 13));
}

#[test]
fn build_store_degrades_missing_png_to_empty_masks() {
    let store = store_of(vec![(meta("ACT-A"), None), (meta("ACT-B"), Some(rgba_body()))]);
    assert!(store.entry(0).unwrap().frames.iter().all(HitMask::is_empty));
    assert!(store.entry(1).unwrap().frames.iter().all(|m| !m.is_empty()));
    assert_eq!(store.entry(0).unwrap().frames.len(), 2);
    assert_eq!(store.entry(1).unwrap().base, 1);
    assert_eq!(store.base_of("ACT-A"), Some(0));
    assert_eq!(store.base_of("ACT-Z"), None);
}

#[test]
fn of_two_actions_of_one_name_the_last_is_shown() {
    let store = store_of(vec![(meta("ACT-A"), None), (meta("ACT-A"), Some(rgba_body()))]);
    assert_eq!(store.base_of("ACT-A"), Some(1));
}

#[test]
fn mask_hit_source_three_states() {
    let s = source_on(Some(store_with_body()), 0, 0, false);
    assert_eq!(s.test(2, 2, false), HitResult::Hit);
    assert_eq!(s.test(13, 13, false), HitResult::Hover);
    assert_eq!(s.test(8, 8, false), HitResult::Miss);
    assert_eq!(s.test(999, 999, false), HitResult::Miss);
    assert_eq!(s.test(-1, 2, false), HitResult::Miss);
}

#[test]
fn mask_hit_source_mirror_maps_secondary_and_mask() {
    let s = source_on(Some(store_with_body()), 0, 0, true);
    assert_eq!(s.test(13, 2, true), HitResult::Hit);
    assert_eq!(s.test(2, 2, true), HitResult::Miss);
    assert_eq!(s.test(2, 13, true), HitResult::Hover);
}

#[test]
fn mask_hit_source_fallbacks_match_bbox_hit_source() {
    let no_store = source_on(None, 0, 0, false);
    let no_frame = source_on(Some(store_with_body()), 9, 9, false);
    let empty_mask = source_on(Some(store_of(vec![(meta("ACT-A"), None)])), 0, 0, false);
    for s in [&no_store, &no_frame, &empty_mask] {
        for (x, y) in [(0i32, 0i32), (8, 8), (255, 255)] {
            assert_eq!(s.test(x, y, false), HitResult::Hit, "({x},{y})");
            assert_eq!(s.test(x, y, true), HitResult::Hit);
        }
    }
}

#[test]
fn handle_miss_outside_bbox_and_hit_fallback_without_store() {
    let handle = handle_on(100, 200, 356, 456);
    assert_eq!(handle.outcome_at(99, 300), HitOutcomeForTest::Miss);
    assert_eq!(handle.outcome_at(356, 300), HitOutcomeForTest::Miss);
    assert_eq!(handle.outcome_at(200, 199), HitOutcomeForTest::Miss);
    assert_eq!(handle.outcome_at(200, 456), HitOutcomeForTest::Miss);
    assert_eq!(handle.outcome_at(120, 220), HitOutcomeForTest::Hit);
    assert!(handle.contains(120, 220));
    assert!(!handle.contains(0, 0));
}

#[test]
fn handle_scales_local_to_frame_and_routes_three_states() {
    let mut handle = handle_on(100, 200, 356, 456);
    assert!(handle.set_store(store_with_body()));
    let mut feed = handle.feed();
    feed.publish(&mut handle, "ACT-A", 0, false);

    assert_eq!(handle.outcome_at(102, 202), HitOutcomeForTest::Hit);
    assert_eq!(handle.outcome_at(300, 400), HitOutcomeForTest::Hover);
    assert_eq!(handle.outcome_at(200, 300), HitOutcomeForTest::Miss);
}

#[test]
fn handle_scales_frame_into_larger_window() {
    let mut handle = handle_on(0, 0, 512, 512);
    assert!(handle.set_store(store_with_body()));
    handle.feed().publish(&mut handle, "ACT-A", 0, false);
    assert_eq!(handle.outcome_at(4, 4), HitOutcomeForTest::Hit);
    assert_eq!(handle.outcome_at(200, 4), HitOutcomeForTest::Miss);
    assert_eq!(handle.outcome_at(400, 400), HitOutcomeForTest::Hover);
}

#[test]
fn handle_degenerate_bbox_is_miss() {
    let handle = HitLatestHandle::new(PetBBoxHandle::new());
    assert_eq!(handle.outcome_at(0, 0), HitOutcomeForTest::Miss);
}

#[test]
fn masks_are_taken_once_and_the_window_can_move() {
    let mut handle = handle_on(0, 0, 256, 256);
    assert!(handle.set_store(store_with_body()));
    assert!(!handle.set_store(store_of(Vec::new())));
    handle.feed().publish(&mut handle, "ACT-A", 0, false);
    assert_eq!(handle.outcome_at(2, 2), HitOutcomeForTest::Hit);
    handle.store_bbox(1_000, 1_000, 1_256, 1_256);
    assert_eq!(handle.outcome_at(2, 2), HitOutcomeForTest::Miss);
    assert_eq!(handle.outcome_at(1_002, 1_002), HitOutcomeForTest::Hit);
}

#[test]
fn hook_hit_test_impl_overrides_outcome_to_true_three_states() {
    let mut handle = handle_on(0, 0, 256, 256);
    assert!(handle.set_store(store_with_body()));
    handle.feed().publish(&mut handle, "ACT-A", 0, false);
    assert_eq!(handle.outcome_at(2, 2), HitOutcomeForTest::Hit);
    assert_eq!(handle.outcome_at(208, 208), HitOutcomeForTest::Hover);
    assert_eq!(handle.outcome_at(96, 96), HitOutcomeForTest::Miss);
    assert!(!handle.contains(96, 96));
    assert!(handle.contains(2, 2));
}

#[test]
fn feed_publishes_known_actions_and_counts_unknown() {
    let mut handle = handle_on(0, 0, 16, 16);
    assert!(handle.set_store(store_with_body()));
    let mut feed = handle.feed();
    feed.publish(&mut handle, "ACT-A", 1, true);
    assert_eq!(handle.shown_frame(), (1, true));
    feed.publish(&mut handle, "ACT-UNKNOWN", 0, false);
    assert_eq!(feed.unknown_publishes(), 1);
    assert_eq!(handle.shown_frame().0, 1);
    feed.publish(&mut handle, "ACT-A", 0x1_0000, false);
    assert_eq!(feed.stale_publishes(), 1);

    let mut cold_handle = handle_on(0, 0, 16, 16);
    let mut cold = cold_handle.feed();
    cold.publish(&mut cold_handle, "ACT-A", 0, false);
    assert_eq!(cold.stale_publishes(), 1);
    assert_eq!(cold.unknown_publishes(), 0);
}

#[test]
fn extract_frame_rgba_copies_rows_and_defends_bounds() {
    let full = DecodedRgba { width: 4, height: 2, data: vec![255u8; 4 * 2 * 4] };
    let sub = extract_frame_rgba(&full, FrameRect { x: 2, y: 0, w: 2, h: 2 }).expect("inside");
    assert_eq!(sub, vec![255u8; 2 * 2 * 4]);
    assert!(extract_frame_rgba(&full, FrameRect { x: 3, y: 0, w: 2, h: 2 }).is_none());
    assert!(extract_frame_rgba(&full, FrameRect { x: 0, y: 0, w: 0, h: 2 }).is_none());
    assert!(extract_frame_rgba(&full, FrameRect { x: u32::MAX, y: 0, w: 2, h: 2 }).is_none());

    let counted = DecodedRgba { width: 3, height: 2, data: (0u8..24).collect() };
    let sub = extract_frame_rgba(&counted, FrameRect { x: 1, y: 0, w: 2, h: 2 }).expect("inside");
    assert_eq!(sub, vec![4, 5, 6, 7, 8, 9, 10, 11, 16, 17, 18, 19, 20, 21, 22, 23]);
}

#[test]
fn qa_probe_mirror_boundary_columns_map_exactly_and_never_underflow() {
    let mut m = meta("ACT-A");
    m.secondary = vec![FrameRect { x: 0, y: 12, w: 2, h: 4 }];
    let store = store_of(vec![(m, Some(rgba_body()))]);
    let mirrored = source_on(Some(store.clone()), 0, 0, true);
    assert_eq!(mirrored.test(15, 2, true), HitResult::Hit);
    assert_eq!(mirrored.test(15, 13, true), HitResult::Hover);
    assert_eq!(mirrored.test(16, 13, true), HitResult::Miss);
    let plain = source_on(Some(store), 0, 0, false);
    assert_eq!(plain.test(0, 13, false), HitResult::Hover);
    assert_eq!(plain.test(1, 13, false), HitResult::Hover);
}

#[test]
fn a_frame_without_a_mask_keeps_its_place() {
    let lit = HitMask { width: 2, height: 1, lit: vec![true, false] };
    let masks = fill_masks(vec![None, Some(lit.clone()), None]);
    assert_eq!(masks.len(), 3);
    assert!(masks[0].is_empty() && masks[2].is_empty());
    assert_eq!(masks[1], lit);
    assert!(fill_masks(Vec::new()).is_empty());
}
