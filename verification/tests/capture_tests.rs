use signal_link::capture::{
    capture_next, capture_screen_image, capture_screen_images, capture_screens_for_attempt,
    capture_wait_step, resolve_display_count, CaptureOutcome, CaptureRequest, CaptureStep,
    CaptureWait, ExternalExit, MAX_DETECTED_DISPLAYS, SCREEN_CAPTURE_POLL_MS,
    SCREEN_CAPTURE_TIMEOUT_SECS,
};
use signal_link::errors::CaptureError;

#[test]
fn detect_display_count_uses_system_profiler_output() {
    let two = "Displays:\n  Resolution: 1920 x 1080\n  Resolution: 2560 x 1440".to_string();
    assert_eq!(resolve_display_count(Some(&two), 0), 2);

    let none = "Displays:\n  No resolution lines".to_string();
    assert_eq!(resolve_display_count(Some(&none), 0), 1);
}

#[test]
fn detect_display_count_handles_missing_and_failed_profiler() {
    assert_eq!(resolve_display_count(None, 0), 1);
    assert_eq!(resolve_display_count(None, 3), 3);
    assert_eq!(resolve_display_count(None, 99), MAX_DETECTED_DISPLAYS);
    let many = "Resolution: a\nResolution: b\nResolution: c\nResolution: d\nResolution: e\nResolution: f\nResolution: g".to_string();
    assert_eq!(resolve_display_count(Some(&many), 0), MAX_DETECTED_DISPLAYS);
}

#[test]
fn capture_screen_images_requires_output_paths() {
    let err = capture_screen_images(Vec::new()).expect_err("expected empty output error");
    assert!(err.message().contains("no screenshot output path"));

    let ok = capture_screen_images(vec!["/tmp/shot.png".to_string()]).expect("one output");
    match ok {
        CaptureRequest::External { paths } => assert_eq!(paths, vec!["/tmp/shot.png".to_string()]),
        other => panic!("unexpected request {:?}", other),
    }

    match capture_screen_image("/tmp/single.png".to_string()) {
        CaptureRequest::External { paths } => {
            assert_eq!(paths, vec!["/tmp/single.png".to_string()])
        }
        other => panic!("unexpected request {:?}", other),
    }
}

#[test]
fn capture_screens_for_attempt_uses_multi_display_then_falls_back() {
    // two displays: one multi-file external invocation, then done
    let (state, step) = capture_screens_for_attempt("/caps", 1, 2, false);
    let expected = vec![
        "/caps/screen-1-display-1.png".to_string(),
        "/caps/screen-1-display-2.png".to_string(),
    ];
    match &step {
        CaptureStep::Run { request: CaptureRequest::External { paths } } => {
            assert_eq!(paths, &expected)
        }
        other => panic!("unexpected step {:?}", other),
    }
    let (_state, done) = capture_next(
        state,
        &CaptureOutcome::External { result: ExternalExit::Success },
    );
    match done {
        CaptureStep::Done { paths } => {
            assert_eq!(paths.len(), 2);
            assert_eq!(paths, expected);
        }
        other => panic!("unexpected step {:?}", other),
    }

    // the multi capture fails: library fallback, then the single capture
    let (state, _step) = capture_screens_for_attempt("/caps", 2, 2, false);
    let (state, step) = capture_next(
        state,
        &CaptureOutcome::External { result: ExternalExit::Failure },
    );
    assert!(matches!(step, CaptureStep::Run { request: CaptureRequest::Library }));
    let (state, step) = capture_next(state, &CaptureOutcome::Library { saved: None });
    match &step {
        CaptureStep::Run { request: CaptureRequest::External { paths } } => {
            assert_eq!(paths, &vec!["/caps/screen-2.png".to_string()])
        }
        other => panic!("unexpected step {:?}", other),
    }
    let (_state, done) = capture_next(
        state,
        &CaptureOutcome::External { result: ExternalExit::Success },
    );
    match done {
        CaptureStep::Done { paths } => {
            assert_eq!(paths.len(), 1);
            assert_eq!(paths, vec!["/caps/screen-2.png".to_string()]);
        }
        other => panic!("unexpected step {:?}", other),
    }
}

#[test]
fn library_capture_results_are_kept_when_non_empty() {
    let (state, _step) = capture_screens_for_attempt("/caps", 3, 3, false);
    let (state, step) = capture_next(
        state,
        &CaptureOutcome::External { result: ExternalExit::TimedOut },
    );
    assert!(matches!(step, CaptureStep::Run { request: CaptureRequest::Library }));
    let saved = vec![
        "/caps/screen-3-display-1.png".to_string(),
        "/caps/screen-3-display-2.png".to_string(),
        "/caps/screen-3-display-3.png".to_string(),
    ];
    let (_state, done) = capture_next(
        state,
        &CaptureOutcome::Library { saved: Some(saved.clone()) },
    );
    match done {
        CaptureStep::Done { paths } => assert_eq!(paths, saved),
        other => panic!("unexpected step {:?}", other),
    }
}

#[test]
fn single_display_library_first_then_external() {
    // on platforms where the external tool is not primary, one display starts
    // with the library capture
    let (state, step) = capture_screens_for_attempt("/caps", 1, 1, true);
    assert!(matches!(step, CaptureStep::Run { request: CaptureRequest::Library }));
    let (state, step) = capture_next(state, &CaptureOutcome::Library { saved: Some(Vec::new()) });
    match &step {
        CaptureStep::Run { request: CaptureRequest::External { paths } } => {
            assert_eq!(paths, &vec!["/caps/screen-1.png".to_string()])
        }
        other => panic!("unexpected step {:?}", other),
    }
    let (_state, fail) = capture_next(
        state,
        &CaptureOutcome::External { result: ExternalExit::Failure },
    );
    match fail {
        CaptureStep::Fail { error } => {
            assert!(error.message().contains("screencapture failed"));
            assert!(error.message().contains("Screen Recording"));
        }
        other => panic!("unexpected step {:?}", other),
    }
}

#[test]
fn capture_screen_image_success_failure_and_timeout() {
    assert_eq!(capture_wait_step(0, 12_000, Some(true)), CaptureWait::Succeed);
    assert_eq!(capture_wait_step(0, 12_000, Some(false)), CaptureWait::FailPermission);
    assert_eq!(
        capture_wait_step(500, 12_000, None),
        CaptureWait::Poll { sleep_ms: SCREEN_CAPTURE_POLL_MS }
    );
    assert_eq!(capture_wait_step(12_000, 12_000, None), CaptureWait::KillAndTimeout);

    assert!(CaptureError::Failed.message().contains("screencapture failed"));
    let timeout = CaptureError::TimedOut { seconds: SCREEN_CAPTURE_TIMEOUT_SECS };
    assert!(timeout.message().contains("timed out after 12s"));

    // a single capture that times out fails the attempt with the timeout text
    let (state, _step) = capture_screens_for_attempt("/caps", 1, 1, false);
    let (_state, fail) = capture_next(
        state,
        &CaptureOutcome::External { result: ExternalExit::TimedOut },
    );
    match fail {
        CaptureStep::Fail { error } => assert!(error.message().contains("timed out")),
        other => panic!("unexpected step {:?}", other),
    }
}
