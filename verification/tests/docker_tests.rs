use signal_link::config::Config;
use signal_link::docker::{
    extract_signal_captcha_token_from_output, handle_signal_cli_output, is_rate_limited,
    list_devices, post_link_receive_args, register_landline, register_with_mode, run_signal_cli,
    send_contacts_args, set_registration_lock_pin, signal_cli_retry_step, validate_retry_attempts,
    verify_code, RetryDecision, RetryError, SignalCliInvocation, LANDLINE_WAIT_SECS,
};
use signal_link::errors::SignalSetupError;
use signal_link::wizard::link_desktop_from_uri;

fn test_cfg() -> Config {
    Config {
        account: "+10000000000".to_string(),
        data_dir: "/tmp/signal-data".to_string(),
        image: "mock/signal-cli:latest".to_string(),
    }
}

fn joined(inv: &SignalCliInvocation) -> String {
    inv.request.args.join(" ")
}

#[test]
fn registration_and_device_commands_emit_expected_subcommands() {
    let cfg = test_cfg();
    let mut log = String::new();

    log.push_str(&joined(&register_with_mode(&cfg, "signalcaptcha://token", false, None)));
    log.push('\n');
    log.push_str(&joined(&register_with_mode(&cfg, "signalcaptcha://token", true, None)));
    log.push('\n');
    let verify_with_pin = verify_code(&cfg, "123456", Some("4321"), None);
    log.push_str(&joined(&verify_with_pin));
    log.push('\n');
    log.push_str(&joined(&verify_code(&cfg, "123456", None, None)));
    log.push('\n');
    let set_pin = set_registration_lock_pin(&cfg, "12345678901234567890", None);
    log.push_str(&joined(&set_pin));
    log.push('\n');
    log.push_str(&joined(&list_devices(&cfg, None)));

    assert!(log.contains("register"));
    assert!(log.contains("--voice"));
    assert!(log.contains("verify \"$SIGNAL_VERIFY_CODE\" --pin \"$SIGNAL_PIN\""));
    assert!(log.contains("verify 123456"));
    assert!(log.contains("setPin \"$SIGNAL_PIN\""));
    assert!(!log.contains("12345678901234567890"));
    assert!(!log.contains("--pin 4321"));
    assert!(log.contains("listDevices"));

    // the secrets travel on standard input instead
    assert_eq!(
        verify_with_pin.request.stdin_payload.as_deref(),
        Some("123456\n4321\n")
    );
    assert_eq!(
        set_pin.request.stdin_payload.as_deref(),
        Some("12345678901234567890\n")
    );
}

#[test]
fn signal_cli_requests_carry_volume_account_and_user_mapping() {
    let cfg = test_cfg();
    let inv = list_devices(&cfg, Some((1000, 1000)));
    assert_eq!(inv.request.program, "docker");
    let text = joined(&inv);
    assert!(text.starts_with("run --rm -i --volume /tmp/signal-data:/var/lib/signal-cli --tmpfs /tmp:exec"));
    assert!(text.contains("--user 1000:1000"));
    assert!(text.contains("mock/signal-cli:latest -o json -a +10000000000 listDevices"));

    let bare = list_devices(&cfg, None);
    assert!(!joined(&bare).contains("--user"));
}

#[test]
fn run_signal_cli_output_and_error_classification_paths() {
    let ok = handle_signal_cli_output("listDevices", true, "{\"devices\":[{\"id\":2}]}", "INFO list", false);
    assert_eq!(ok, Ok(true));

    let soft = handle_signal_cli_output("listDevices", false, "", "plain failure", true);
    assert_eq!(soft, Ok(false));

    let limited = handle_signal_cli_output(
        "register",
        false,
        "",
        "StatusCode: 502 (ExternalServiceFailureException)",
        false,
    )
    .expect_err("register should be rate-limited");
    assert!(limited.message().contains("rate limited"));

    let register = handle_signal_cli_output("register", false, "", "register failed", false)
        .expect_err("register should be hard-fail");
    assert_eq!(register, SignalSetupError::RegisterFailed);
    assert!(register.message().contains("register"));

    let limited = handle_signal_cli_output("listDevices", false, "", "StatusCode: 429", false)
        .expect_err("listDevices should be rate-limited");
    assert_eq!(limited, SignalSetupError::SignalCliRateLimited);

    let named = handle_signal_cli_output("listDevices", false, "", "plain failure", false)
        .expect_err("listDevices should be hard-fail");
    assert!(named.message().contains("listDevices"));

    let cfg = test_cfg();
    let unknown = run_signal_cli(&cfg, Vec::new(), false, None);
    assert_eq!(unknown.command_name, "unknown");

    assert!(is_rate_limited("RateLimit hit", ""));
    assert!(is_rate_limited("", "StatusCode: 502"));
    assert!(!is_rate_limited("all fine", "nothing to see"));
}

#[test]
fn run_signal_cli_and_retries_behave_as_expected() {
    let zero = validate_retry_attempts("registration", 0).expect_err("attempts=0 should fail");
    assert!(zero.message().contains("attempts must be > 0"));
    assert!(validate_retry_attempts("registration", 3).is_ok());

    assert_eq!(signal_cli_retry_step(1, 3, true, 0), RetryDecision::Done);
    assert_eq!(
        signal_cli_retry_step(1, 3, false, 8),
        RetryDecision::SleepAndRetry { delay_secs: 8, next_attempt: 2 }
    );
    assert_eq!(
        signal_cli_retry_step(2, 3, false, 8),
        RetryDecision::SleepAndRetry { delay_secs: 8, next_attempt: 3 }
    );
    assert_eq!(signal_cli_retry_step(3, 3, false, 8), RetryDecision::GiveUp);
}

#[test]
fn run_signal_cli_retry_failure_returns_hint() {
    let err = RetryError::Exhausted { label: "registration".to_string(), attempts: 2 };
    assert!(err.message().contains("failed after 2 attempts"));
    assert!(err.message().contains("number/operator"));
}

#[test]
fn register_landline_runs_sms_then_voice() {
    let cfg = test_cfg();
    let plan = register_landline(&cfg, "signalcaptcha://token", None);
    let content = format!("{}\n{}", joined(&plan.sms), joined(&plan.voice));
    assert!(content.matches("register").count() >= 2);
    assert!(content.contains("--voice"));
    assert!(joined(&plan.sms).contains("register --captcha signalcaptcha://token"));
    assert!(joined(&plan.voice).contains("register --voice --captcha signalcaptcha://token"));
    assert_eq!(plan.wait_secs, LANDLINE_WAIT_SECS);
    assert!(plan.sms.allow_failure);
}

#[test]
fn link_from_uri_and_image_paths_work() {
    let invalid = link_desktop_from_uri("https://example.com").expect_err("invalid URI");
    assert!(invalid.message().contains("invalid URI"));

    let uri = "sgnl://linkdevice?uuid=test";
    let args = link_desktop_from_uri(uri).expect("link by URI");
    assert_eq!(args, vec!["addDevice".to_string(), "--uri".to_string(), uri.to_string()]);

    let receive = post_link_receive_args();
    assert_eq!(
        receive,
        vec![
            "receive".to_string(),
            "--timeout".to_string(),
            "12".to_string(),
            "--max-messages".to_string(),
            "100".to_string(),
        ]
    );
    assert_eq!(send_contacts_args(), vec!["sendContacts".to_string()]);
}

#[test]
fn captcha_token_extraction_handles_success_and_failure() {
    let token = extract_signal_captcha_token_from_output("log line\nsignalcaptcha://token-value\n")
        .expect("expected token");
    assert_eq!(token, "signalcaptcha://token-value");

    let err = extract_signal_captcha_token_from_output("log line\nno token here")
        .expect_err("missing token should fail");
    assert!(err.message().contains("did not return a token"));

    // the last token wins, trimmed of surrounding whitespace
    let latest = extract_signal_captcha_token_from_output(
        "signalcaptcha://old\nnoise\n  signalcaptcha://new  \ntrailing",
    )
    .expect("expected token");
    assert_eq!(latest, "signalcaptcha://new");
}
