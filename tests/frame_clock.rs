use frame_clock::state::absolute_refresh_time;
use frame_clock::{time_until_next_frame, DisplayRegistry, FramePredictor, FrameState};

#[test]
fn unseen_display_estimates_zero() {
    let mut registry = DisplayRegistry::new();
    let (first, created) = time_until_next_frame(&mut registry, 7, 1_000);
    assert_eq!(first, 0);
    assert!(created);
    let (again, created_again) = time_until_next_frame(&mut registry, 7, 5_000);
    assert_eq!(again, 0);
    assert!(!created_again);
}

#[test]
fn fresh_predictor_estimates_zero() {
    let predictor = FramePredictor::new();
    assert_eq!(predictor.time_until_next_frame_at(0), 0);
    assert_eq!(predictor.time_until_next_frame_at(u128::MAX), 0);
    assert_eq!(predictor.snapshot(), FrameState::empty());
}

#[test]
fn single_report_counts_down_then_zero() {
    let mut predictor = FramePredictor::new();
    let before = predictor.on_refresh(1_000);
    assert_eq!(before, FrameState::empty());
    let written = predictor.snapshot();
    assert_eq!(written, FrameState { next_frame: Some(1_000), frame_time: None });
    assert_eq!(predictor.time_until_next_frame_at(400), 600);
    assert_eq!(predictor.time_until_next_frame_at(999), 1);
    assert_eq!(predictor.time_until_next_frame_at(1_000), 0);
    assert_eq!(predictor.time_until_next_frame_at(5_000), 0);
}

#[test]
fn two_reports_extrapolate() {
    let mut predictor = FramePredictor::new();
    predictor.on_refresh(1_000);
    let before = predictor.on_refresh(1_016);
    assert_eq!(before.next_frame, Some(1_000));
    let written = predictor.snapshot();
    assert_eq!(written.frame_time, Some(16));
    assert_eq!(written.next_frame, Some(1_016));
    assert_eq!(predictor.time_until_next_frame_at(1_010), 6);
    assert_eq!(predictor.time_until_next_frame_at(1_016), 16);
    assert_eq!(predictor.time_until_next_frame_at(1_020), 12);
    assert_eq!(predictor.time_until_next_frame_at(1_031), 1);
    let mut last = u64::MAX;
    for now in 1_016u128..1_032 {
        let r = predictor.time_until_next_frame_at(now);
        assert!(r <= last);
        assert!(r > 0);
        last = r;
    }
    // Whole intervals past the stale prediction are skipped.
    assert_eq!(predictor.time_until_next_frame_at(1_050), 14);
}

#[test]
fn regressive_report_clamps_interval() {
    let s = FrameState::empty().after_refresh(100).after_refresh(116);
    let back = s.after_refresh(90);
    assert_eq!(back, FrameState { next_frame: Some(90), frame_time: Some(0) });
    assert_eq!(back.estimate(80), 10);
    assert_eq!(back.estimate(95), 0);
    assert_eq!(back.estimate(u128::MAX), 0);
}

#[test]
fn zero_interval_estimates_zero_when_stale() {
    let s = FrameState::empty().after_refresh(50).after_refresh(50);
    assert_eq!(s.frame_time, Some(0));
    assert_eq!(s.estimate(60), 0);
    assert_eq!(s.estimate(40), 10);
}

#[test]
fn huge_gaps_saturate() {
    let s = FrameState::empty().after_refresh(0).after_refresh(u128::MAX);
    assert_eq!(s.frame_time, Some(u64::MAX));
    let far = FrameState::empty().after_refresh(u128::MAX);
    assert_eq!(far.estimate(0), u64::MAX);
    let near = FrameState { next_frame: Some(10), frame_time: None };
    assert_eq!(near.estimate(3), 7);
}

#[test]
fn refresh_time_from_offset() {
    assert_eq!(absolute_refresh_time(1_000, 250), 1_250);
    assert_eq!(absolute_refresh_time(1_000, -250), 750);
    assert_eq!(absolute_refresh_time(100, -250), 0);
    assert_eq!(absolute_refresh_time(u128::MAX - 5, 10), u128::MAX);
    assert_eq!(absolute_refresh_time(0, i64::MIN), 0);
    assert_eq!(absolute_refresh_time(7, 0), 7);
}

#[test]
fn registry_shares_one_predictor() {
    let mut registry = DisplayRegistry::new();
    let (first, created) = registry.get_or_create(2);
    assert!(created);
    assert_eq!(first.snapshot(), FrameState::empty());
    assert!(registry.on_refresh(2, 500));
    let (second, created_again) = registry.get_or_create(2);
    assert!(!created_again);
    assert_eq!(second.time_until_next_frame_at(300), 200);
    assert_eq!(second.snapshot(), FrameState { next_frame: Some(500), frame_time: None });
    let (value, fresh) = time_until_next_frame(&mut registry, 2, 450);
    assert_eq!(value, 50);
    assert!(!fresh);
    let (_, other) = registry.get_or_create(3);
    assert!(other);
}

#[test]
fn callback_for_unknown_display_is_ignored() {
    let mut registry = DisplayRegistry::new();
    assert!(!registry.on_refresh(9, 1_000));
    let (value, created) = time_until_next_frame(&mut registry, 9, 10);
    assert_eq!(value, 0);
    assert!(created);
}

#[test]
fn discarded_display_is_created_again() {
    let mut registry = DisplayRegistry::new();
    let (_, created) = time_until_next_frame(&mut registry, 4, 0);
    assert!(created);
    registry.discard_failed(4);
    let (_, again) = time_until_next_frame(&mut registry, 4, 0);
    assert!(again);
}

#[test]
fn repeated_first_queries_create_once() {
    let mut registry = DisplayRegistry::new();
    let mut creators = 0;
    for now in 0u128..16 {
        let (value, created) = time_until_next_frame(&mut registry, 11, now);
        assert_eq!(value, 0);
        if created {
            creators += 1;
        }
    }
    assert_eq!(creators, 1);
}

#[test]
fn snapshots_between_updates_are_whole() {
    let mut registry = DisplayRegistry::new();
    registry.get_or_create(6);
    // The k-th report is at k * (k + 1) / 2, so the interval derived from it is k.
    for k in 0u128..2_000 {
        assert!(registry.on_refresh(6, k * (k + 1) / 2));
        let (predictor, _) = registry.get_or_create(6);
        let s = predictor.snapshot();
        match (s.next_frame, s.frame_time) {
            (Some(next), None) => {
                assert_eq!(k, 0);
                assert_eq!(next, 0);
            }
            (Some(next), Some(interval)) => {
                assert_eq!(interval as u128, k);
                assert_eq!(next, k * (k + 1) / 2);
            }
            _ => panic!("a report always leaves a refresh time"),
        }
    }
}

#[test]
fn created_display_reports_its_callback() {
    let mut registry = DisplayRegistry::new();
    let (value, created) = time_until_next_frame(&mut registry, 5, 100);
    assert_eq!(value, 0);
    assert!(created);
    assert!(registry.on_refresh(5, 1_000));
    let (value, created) = time_until_next_frame(&mut registry, 5, 400);
    assert_eq!(value, 600);
    assert!(!created);
    assert!(registry.on_refresh(5, 1_016));
    let (value, _) = time_until_next_frame(&mut registry, 5, 1_020);
    assert_eq!(value, 12);
    let (value, _) = time_until_next_frame(&mut registry, 5, 1_020);
    assert_eq!(value, 12);
}

#[test]
fn displays_get_separate_predictors() {
    let mut registry = DisplayRegistry::new();
    let (_, created_a) = registry.get_or_create(1);
    let (_, created_b) = registry.get_or_create(2);
    assert!(created_a && created_b);
    assert!(registry.on_refresh(1, 700));
    let (b, _) = registry.get_or_create(2);
    assert_eq!(b.snapshot(), FrameState::empty());
    let (a, _) = registry.get_or_create(1);
    assert_eq!(a.snapshot().next_frame, Some(700));
}
