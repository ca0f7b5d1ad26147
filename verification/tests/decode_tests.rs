use image::Luma;
use qrcode::QrCode;
use signal_link::decode::{
    decode_signal_qr_from_image, decode_signal_qr_with_rqrr, decode_signal_qr_with_rqrr_multipass,
    decode_signal_qr_with_rxing_luma, is_payload_text, DecodeBudget,
};
use signal_link::image_ops::GrayImg;

fn qr_gray(data: &str) -> GrayImg {
    let qr = QrCode::new(data.as_bytes()).expect("qr");
    let img = qr.render::<Luma<u8>>().module_dimensions(8, 8).build();
    let (width, height) = (img.width(), img.height());
    GrayImg { width, height, data: img.into_raw() }
}

fn blank_gray(width: u32, height: u32) -> GrayImg {
    GrayImg { width, height, data: vec![255; (width * height) as usize] }
}

#[test]
fn qr_decode_detects_valid_signal_uri() {
    let uri = "sgnl://linkdevice?uuid=test";
    let img = qr_gray(uri);
    let decoded = decode_signal_qr_from_image(&img, &DecodeBudget::standard());
    assert_eq!(decoded, Some(uri.to_string()));
}

#[test]
fn qr_decode_returns_none_for_non_qr_image() {
    let img = blank_gray(64, 64);
    let decoded = decode_signal_qr_from_image(&img, &DecodeBudget::standard());
    assert_eq!(decoded, None);
}

#[test]
fn qr_rxing_and_rqrr_helpers_reject_non_signal_qr() {
    let img = qr_gray("https://example.com");

    let rx = decode_signal_qr_with_rxing_luma(&img);
    assert_eq!(rx, None);

    let rqrr = decode_signal_qr_with_rqrr(&img);
    assert_eq!(rqrr, None);

    let multipass = decode_signal_qr_with_rqrr_multipass(&img);
    assert_eq!(multipass, None);

    let orchestrated = decode_signal_qr_from_image(&img, &DecodeBudget::standard());
    assert_eq!(orchestrated, None);
}

#[test]
fn qr_rqrr_helper_accepts_signal_qr() {
    let uri = "sgnl://linkdevice?uuid=rqrr";
    let img = qr_gray(uri);
    let decoded = decode_signal_qr_with_rqrr(&img);
    assert_eq!(decoded, Some(uri.to_string()));
}

#[test]
fn rxing_backend_trims_surrounding_whitespace() {
    let img = qr_gray("  sgnl://linkdevice?uuid=padded  ");
    let decoded = decode_signal_qr_with_rxing_luma(&img);
    assert_eq!(decoded, Some("sgnl://linkdevice?uuid=padded".to_string()));
}

#[test]
fn empty_image_yields_no_match_without_error() {
    let img = GrayImg { width: 0, height: 0, data: Vec::new() };
    assert_eq!(decode_signal_qr_from_image(&img, &DecodeBudget::standard()), None);
    assert_eq!(decode_signal_qr_with_rxing_luma(&img), None);
    assert_eq!(decode_signal_qr_with_rqrr(&img), None);
}

#[test]
fn payload_prefix_check_is_exact() {
    assert!(is_payload_text("sgnl://linkdevice?uuid=x"));
    assert!(is_payload_text("sgnl://linkdevice"));
    assert!(!is_payload_text("sgnl://link"));
    assert!(!is_payload_text("https://example.com"));
    assert!(!is_payload_text(""));
}

#[test]
fn large_capture_takes_upscale_path_and_still_decodes() {
    // embed a QR into a capture over the full-resolution pixel ceiling so the
    // orchestrator takes the upscaled-fast-variant branch
    let qr = qr_gray("sgnl://linkdevice?uuid=big");
    let (w, h) = (2200u32, 1500u32);
    let mut data = vec![255u8; (w * h) as usize];
    for y in 0..qr.height {
        for x in 0..qr.width {
            let px = qr.data[(y * qr.width + x) as usize];
            let tx = x + 200;
            let ty = y + 200;
            data[(ty * w + tx) as usize] = px;
        }
    }
    let img = GrayImg { width: w, height: h, data };
    assert!(w as u64 * h as u64 > 3_000_000);
    let decoded = decode_signal_qr_from_image(&img, &DecodeBudget::standard());
    assert_eq!(decoded, Some("sgnl://linkdevice?uuid=big".to_string()));
}
