use image::Luma;
use qrcode::QrCode;
use signal_link::capture::{
    capture_next, capture_screens_for_attempt, CaptureOutcome, CaptureRequest, CaptureStep,
    ExternalExit,
};
use signal_link::decode::{decode_signal_qr_from_image, DecodeBudget};
use signal_link::errors::{CaptureError, ScanError};
use signal_link::image_ops::GrayImg;
use signal_link::scan::{scan_on_capture, scan_on_decode, scan_start, ScanAction, ScanBudget};

fn qr_gray(data: &str) -> GrayImg {
    let qr = QrCode::new(data.as_bytes()).expect("qr");
    let img = qr.render::<Luma<u8>>().module_dimensions(8, 8).build();
    let (width, height) = (img.width(), img.height());
    GrayImg { width, height, data: img.into_raw() }
}

fn blank_gray(width: u32, height: u32) -> GrayImg {
    GrayImg { width, height, data: vec![255; (width * height) as usize] }
}

#[test]
fn live_link_scan_and_scan_loop_behaviors() {
    // a valid budget opens with a capture of attempt 1
    let (state, action) = scan_start(ScanBudget { interval: 1, attempts: 1 }).expect("scan opens");
    assert_eq!(action, ScanAction::Capture { attempt: 1 });

    // one captured file, decoded to a payload: the scan short-circuits
    let uri = "sgnl://linkdevice?uuid=live";
    let (state, action) = scan_on_capture(state, Ok(vec!["shot-1.png".to_string()]));
    assert_eq!(action, ScanAction::Decode { path: "shot-1.png".to_string() });
    let img = qr_gray(uri);
    let decoded = decode_signal_qr_from_image(&img, &DecodeBudget::standard());
    let (_state, action) = scan_on_decode(state, decoded);
    assert_eq!(action, ScanAction::Succeed { payload: uri.to_string() });

    // a zero interval or a zero attempt ceiling is rejected before any capture
    let invalid = scan_start(ScanBudget { interval: 0, attempts: 1 }).expect_err("invalid params");
    assert!(invalid.message().contains("must be > 0"));
    let invalid = scan_start(ScanBudget { interval: 2, attempts: 0 }).expect_err("invalid params");
    assert_eq!(invalid, ScanError::InvalidBudget);

    // a blank screen yields no payload and, on the only attempt, the exact
    // budget-exhaustion failure
    let (state, _action) = scan_start(ScanBudget { interval: 1, attempts: 1 }).expect("scan opens");
    let (state, action) = scan_on_capture(state, Ok(vec!["blank.png".to_string()]));
    assert_eq!(action, ScanAction::Decode { path: "blank.png".to_string() });
    let img = blank_gray(64, 64);
    let decoded = decode_signal_qr_from_image(&img, &DecodeBudget::standard());
    assert_eq!(decoded, None);
    let (_state, action) = scan_on_decode(state, decoded);
    match action {
        ScanAction::Fail { error } => {
            assert!(error
                .message()
                .contains("no valid Signal Desktop QR found"));
        }
        other => panic!("unexpected action {:?}", other),
    }
}

#[test]
fn scan_loop_sleep_branch_is_exercised() {
    let (state, _action) = scan_start(ScanBudget { interval: 1, attempts: 2 }).expect("scan opens");
    let (state, action) = scan_on_capture(state, Ok(vec!["a.png".to_string()]));
    assert_eq!(action, ScanAction::Decode { path: "a.png".to_string() });

    // attempt 1 finds nothing: sleep, then capture attempt 2
    let (state, action) = scan_on_decode(state, None);
    assert_eq!(action, ScanAction::SleepThenCapture { secs: 1, attempt: 2 });

    // attempt 2 finds nothing either: the exact exhaustion failure
    let (state, action) = scan_on_capture(state, Ok(vec!["b.png".to_string()]));
    assert_eq!(action, ScanAction::Decode { path: "b.png".to_string() });
    let (_state, action) = scan_on_decode(state, None);
    assert_eq!(
        action,
        ScanAction::Fail { error: ScanError::NoQrFound { attempts: 2 } }
    );
    assert_eq!(
        ScanError::NoQrFound { attempts: 2 }.message(),
        "no valid Signal Desktop QR found after 2 attempts"
    );
}

#[test]
fn scan_decodes_every_file_of_an_attempt_in_order() {
    let (state, _action) = scan_start(ScanBudget { interval: 5, attempts: 3 }).expect("scan opens");
    let paths = vec!["d1.png".to_string(), "d2.png".to_string(), "d3.png".to_string()];
    let (state, action) = scan_on_capture(state, Ok(paths));
    assert_eq!(action, ScanAction::Decode { path: "d1.png".to_string() });
    let (state, action) = scan_on_decode(state, None);
    assert_eq!(action, ScanAction::Decode { path: "d2.png".to_string() });
    let (state, action) = scan_on_decode(state, None);
    assert_eq!(action, ScanAction::Decode { path: "d3.png".to_string() });
    let (_state, action) = scan_on_decode(state, None);
    assert_eq!(action, ScanAction::SleepThenCapture { secs: 5, attempt: 2 });
}

#[test]
fn scan_capture_failure_terminates_the_whole_scan() {
    let (state, _action) = scan_start(ScanBudget { interval: 1, attempts: 9 }).expect("scan opens");
    let (_state, action) = scan_on_capture(state, Err(CaptureError::Failed));
    assert_eq!(
        action,
        ScanAction::Fail { error: ScanError::Capture { inner: CaptureError::Failed } }
    );
}

#[test]
fn scan_succeeds_after_capture_fallback_chain() {
    // the multi-display capture fails, the library fails too, the single
    // capture succeeds, and the payload on that single display is found
    let (state, _action) = scan_start(ScanBudget { interval: 1, attempts: 2 }).expect("scan opens");

    let (cap, step) = capture_screens_for_attempt("/caps", 1, 3, false);
    match &step {
        CaptureStep::Run { request: CaptureRequest::External { paths } } => {
            assert_eq!(paths.len(), 3)
        }
        other => panic!("unexpected step {:?}", other),
    }
    let (cap, step) = capture_next(cap, &CaptureOutcome::External { result: ExternalExit::Failure });
    assert!(matches!(step, CaptureStep::Run { request: CaptureRequest::Library }));
    let (cap, step) = capture_next(cap, &CaptureOutcome::Library { saved: None });
    assert!(matches!(step, CaptureStep::Run { request: CaptureRequest::External { .. } }));
    let (_cap, step) = capture_next(
        cap,
        &CaptureOutcome::External { result: ExternalExit::Success },
    );
    let captured = match step {
        CaptureStep::Done { paths } => paths,
        other => panic!("unexpected step {:?}", other),
    };
    assert_eq!(captured, vec!["/caps/screen-1.png".to_string()]);

    let (state, action) = scan_on_capture(state, Ok(captured));
    assert_eq!(action, ScanAction::Decode { path: "/caps/screen-1.png".to_string() });

    let uri = "sgnl://linkdevice?uuid=fallback";
    let img = qr_gray(uri);
    let decoded = decode_signal_qr_from_image(&img, &DecodeBudget::standard());
    let (_state, action) = scan_on_decode(state, decoded);
    assert_eq!(action, ScanAction::Succeed { payload: uri.to_string() });
}
