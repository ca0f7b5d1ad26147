use signal_link::docker::registration_failure_hint;
use signal_link::wizard::{
    format_pin_for_display, format_watch_duration, generate_long_registration_lock_pin,
    GENERATED_REGISTRATION_PIN_DIGITS,
};

#[test]
fn helper_formatters_and_hints_are_correct() {
    assert!(registration_failure_hint().contains("IP"));
    assert_eq!(format_watch_duration(1), "1 second");
    assert_eq!(format_watch_duration(59), "59 seconds");
    assert_eq!(format_watch_duration(60), "1 minute");
    assert_eq!(format_watch_duration(120), "2 minutes");
    assert_eq!(format_watch_duration(121), "2m 1s");
    assert_eq!(format_pin_for_display("12345678", 4), "1234-5678");
    assert_eq!(format_pin_for_display("123456", 0), "123456");
}

#[test]
fn format_watch_duration_handles_zero_and_uneven_chunks() {
    assert_eq!(format_watch_duration(0), "0 seconds");
    assert_eq!(format_pin_for_display("1234567", 3), "123-456-7");
    assert_eq!(format_pin_for_display("", 4), "");
}

#[test]
fn generated_registration_pin_is_numeric_and_long() {
    let pin = generate_long_registration_lock_pin();
    assert_eq!(pin.len(), GENERATED_REGISTRATION_PIN_DIGITS);
    assert!(pin.chars().all(|c| c.is_ascii_digit()));
}
