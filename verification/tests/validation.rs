use expo_gifski::error::GifskiError;
use expo_gifski::frames::{filter_existing, plan_encode, plan_encode_with};
use expo_gifski::options::{validate_options, GifskiOptions, LoopPolicy};
use expo_gifski::orchestrator::reconcile;

fn options(quality: u8, repeat: i32, fps_millis: u32) -> GifskiOptions {
    GifskiOptions { width: 0, height: 0, quality, repeat, fast: false, fps_millis }
}

#[test]
fn quality_zero_is_rejected() {
    let r = validate_options(&options(0, 0, 10_000));
    match r {
        Err(GifskiError::InvalidOptions { reason }) => {
            assert_eq!(reason, "quality must be between 1 and 100, got 0");
        }
        other => panic!("expected InvalidOptions, got {:?}", other),
    }
}

#[test]
fn quality_above_hundred_is_rejected() {
    let r = validate_options(&options(101, 0, 10_000));
    match r {
        Err(GifskiError::InvalidOptions { reason }) => {
            assert_eq!(reason, "quality must be between 1 and 100, got 101");
        }
        other => panic!("expected InvalidOptions, got {:?}", other),
    }
}

#[test]
fn quality_bounds_are_accepted() {
    assert!(validate_options(&options(1, 0, 10_000)).is_ok());
    assert!(validate_options(&options(100, 0, 10_000)).is_ok());
}

#[test]
fn negative_repeat_means_infinite() {
    let s = validate_options(&options(80, -1, 10_000)).unwrap();
    assert_eq!(s.repeat, LoopPolicy::Infinite);
}

#[test]
fn large_repeat_is_clamped() {
    let s = validate_options(&options(80, 70_000, 10_000)).unwrap();
    assert_eq!(s.repeat, LoopPolicy::Finite(65_535));
}

#[test]
fn small_repeat_is_finite() {
    let s = validate_options(&options(80, 3, 10_000)).unwrap();
    assert_eq!(s.repeat, LoopPolicy::Finite(3));
}

#[test]
fn unset_fps_falls_back_to_default() {
    let s = validate_options(&options(80, 0, 0)).unwrap();
    assert_eq!(s.fps_millis, 10_000);
}

#[test]
fn positive_fps_is_kept() {
    let s = validate_options(&options(80, 0, 25_000)).unwrap();
    assert_eq!(s.fps_millis, 25_000);
}

#[test]
fn zero_dimensions_mean_source_size() {
    let s = validate_options(&options(80, 0, 10_000)).unwrap();
    assert_eq!(s.width, None);
    assert_eq!(s.height, None);
}

#[test]
fn nonzero_dimensions_are_kept() {
    let o = GifskiOptions { width: 320, height: 240, quality: 80, repeat: 0, fast: true, fps_millis: 10_000 };
    let s = validate_options(&o).unwrap();
    assert_eq!(s.width, Some(320));
    assert_eq!(s.height, Some(240));
    assert!(s.fast);
}

#[test]
fn validation_is_idempotent() {
    let o = options(0, -1, 0);
    let first = validate_options(&o).is_ok();
    let second = validate_options(&o).is_ok();
    assert_eq!(first, second);
    let o2 = options(80, -1, 0);
    assert_eq!(validate_options(&o2).is_ok(), validate_options(&o2).is_ok());
}

#[test]
fn error_messages_name_their_cause() {
    assert_eq!(GifskiError::NoInputPaths.message(), "No valid input paths provided");
    let e = GifskiError::InvalidOptions { reason: "bad".to_string() };
    assert_eq!(e.message(), "Invalid options: bad");
    let e = GifskiError::InvalidOutputPath { path: "/x".to_string() };
    assert_eq!(e.message(), "Invalid output path: /x");
    let e = GifskiError::EncoderCreationFailed { reason: "boom".to_string() };
    assert_eq!(e.message(), "Failed to create gifski encoder: boom");
    let e = GifskiError::OutputFileCreationFailed { path: "/tmp/out.gif".to_string() };
    assert_eq!(e.message(), "Failed to create output file: /tmp/out.gif");
    let e = GifskiError::WriteFailed { reason: "closed".to_string() };
    assert_eq!(e.message(), "Failed to write GIF data: closed");
    let e = GifskiError::NoFramesAdded { failed: 2, total: 5 };
    assert_eq!(e.message(), "No valid frames were added (2 of 5 frames failed)");
}

#[test]
fn filtering_keeps_flagged_paths_in_order() {
    let paths = vec!["a.png".to_string(), "b.png".to_string(), "c.png".to_string()];
    let flags = vec![false, true, false];
    let kept = filter_existing(&paths, &flags);
    assert_eq!(kept, vec!["b.png".to_string()]);
}

#[test]
fn filtering_keeps_nothing_without_flags() {
    let paths = vec!["a.png".to_string(), "b.png".to_string()];
    let kept = filter_existing(&paths, &vec![false, false]);
    assert!(kept.is_empty());
}

#[test]
fn plan_rejects_when_nothing_exists() {
    let paths = vec!["a.png".to_string(), "b.png".to_string()];
    let r = plan_encode_with(&paths, &vec![false, false], &options(80, 0, 10_000));
    assert!(matches!(r, Err(GifskiError::NoInputPaths)));
}

#[test]
fn plan_rejects_bad_quality_after_paths() {
    let paths = vec!["a.png".to_string()];
    let r = plan_encode_with(&paths, &vec![true], &options(0, 0, 10_000));
    assert!(matches!(r, Err(GifskiError::InvalidOptions { .. })));
}

#[test]
fn plan_assigns_indices_and_timestamps() {
    let paths = vec!["a.png".to_string(), "b.png".to_string(), "c.png".to_string()];
    let flags = vec![true, false, true];
    let plan = plan_encode_with(&paths, &flags, &options(80, -1, 10_000)).unwrap();
    assert_eq!(plan.total_frames, 2);
    assert_eq!(plan.frames.len(), 2);
    assert_eq!(plan.frames[0].index, 0);
    assert_eq!(plan.frames[0].source_path, "a.png");
    assert_eq!(plan.frames[0].pts_micros, 0);
    assert_eq!(plan.frames[1].index, 1);
    assert_eq!(plan.frames[1].source_path, "c.png");
    assert_eq!(plan.frames[1].pts_micros, 100_000);
}

#[test]
fn plan_timestamps_follow_the_frame_rate() {
    let paths = vec!["a.png".to_string(), "b.png".to_string()];
    let plan = plan_encode_with(&paths, &vec![true, true], &options(80, 0, 25_000)).unwrap();
    assert_eq!(plan.frames[1].pts_micros, 40_000);
}

#[test]
fn probing_missing_paths_yields_no_input() {
    let paths = vec![
        "/nonexistent-anywhere/frame-0.png".to_string(),
        "/nonexistent-anywhere/frame-1.png".to_string(),
    ];
    let r = plan_encode(&paths, &options(80, 0, 10_000));
    assert!(matches!(r, Err(GifskiError::NoInputPaths)));
}

#[test]
fn probing_sees_existing_paths() {
    // The root directory always exists, and existence is all the probe asks;
    // with a path present, a bad quality is reported instead of NoInputPaths.
    let paths = vec!["/".to_string()];
    let r = plan_encode(&paths, &options(0, 0, 10_000));
    assert!(matches!(r, Err(GifskiError::InvalidOptions { .. })));
    let plan = plan_encode(&paths, &options(80, 0, 10_000)).unwrap();
    assert_eq!(plan.total_frames, 1);
}

#[test]
fn empty_candidate_list_yields_no_input() {
    let r = plan_encode(&Vec::new(), &options(80, 0, 10_000));
    assert!(matches!(r, Err(GifskiError::NoInputPaths)));
}

#[test]
fn one_missing_frame_of_three_is_planned_alone() {
    let paths = vec!["a.png".to_string(), "b.png".to_string(), "c.png".to_string()];
    let flags = vec![false, true, false];
    let plan = plan_encode_with(&paths, &flags, &options(80, 0, 10_000)).unwrap();
    assert_eq!(plan.total_frames, 1);
    assert_eq!(plan.frames[0].source_path, "b.png");
    let r = reconcile(plan.total_frames, Some(1), None);
    assert!(matches!(r, Err(GifskiError::NoFramesAdded { failed: 1, total: 1 })));
}

#[test]
fn reconcile_reports_collector_abort() {
    let r = reconcile(3, None, None);
    match r {
        Err(GifskiError::WriteFailed { reason }) => {
            assert_eq!(reason, "collector thread panicked");
        }
        other => panic!("expected WriteFailed, got {:?}", other),
    }
}

#[test]
fn reconcile_reports_all_frames_failed() {
    let r = reconcile(4, Some(4), None);
    assert!(matches!(r, Err(GifskiError::NoFramesAdded { failed: 4, total: 4 })));
}

#[test]
fn reconcile_prefers_no_frames_over_writer_success() {
    let r = reconcile(2, Some(2), Some("late failure".to_string()));
    assert!(matches!(r, Err(GifskiError::NoFramesAdded { failed: 2, total: 2 })));
}

#[test]
fn reconcile_surfaces_writer_error() {
    let r = reconcile(4, Some(1), Some("disk full".to_string()));
    match r {
        Err(GifskiError::WriteFailed { reason }) => assert_eq!(reason, "disk full"),
        other => panic!("expected WriteFailed, got {:?}", other),
    }
}

#[test]
fn reconcile_accepts_partial_failure() {
    let r = reconcile(4, Some(1), None);
    assert!(r.is_ok());
}

#[test]
fn versions_are_reported() {
    assert_eq!(expo_gifski::get_module_version(), "0.1.0");
    assert_eq!(expo_gifski::get_gifski_version(), "1.34.0");
}
