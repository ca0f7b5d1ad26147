use signal_link::errors::{CaptureError, ConfigError, ScanError, SignalSetupError};

#[test]
fn docker_errors_have_actionable_messages() {
    assert_eq!(
        SignalSetupError::DockerNotInstalled.message(),
        "Docker is not installed. Install Docker Desktop/Engine and retry."
    );
    assert_eq!(
        SignalSetupError::DockerStartFailed.message(),
        "Docker is installed but could not be started automatically. Start Docker manually and retry."
    );
    assert_eq!(
        SignalSetupError::DockerStartTimeout { seconds: 90 }.message(),
        "Docker start timed out after 90 seconds. Open Docker Desktop and retry."
    );
    assert_eq!(
        SignalSetupError::RegisterFailed.message(),
        "signal-cli 'register' command failed"
    );
    assert_eq!(
        SignalSetupError::SignalCliCommandFailed { command: "listDevices".to_string() }.message(),
        "signal-cli 'listDevices' command failed"
    );
    assert!(SignalSetupError::SignalCliRateLimited
        .message()
        .contains("StatusCode 429/502"));
}

#[test]
fn capture_errors_name_the_likely_cause() {
    assert_eq!(
        CaptureError::NoOutputPaths.message(),
        "no screenshot output path provided"
    );
    assert_eq!(CaptureError::SpawnFailed.message(), "failed to run screencapture");
    assert_eq!(
        CaptureError::Failed.message(),
        "screencapture failed (check Screen Recording permissions)"
    );
    assert_eq!(
        CaptureError::TimedOut { seconds: 12 }.message(),
        "screencapture timed out after 12s (check Screen Recording permissions and active desktop session)"
    );
}

#[test]
fn scan_and_config_errors_are_specific() {
    assert_eq!(ScanError::InvalidBudget.message(), "interval and attempts must be > 0");
    assert_eq!(
        ScanError::NoQrFound { attempts: 90 }.message(),
        "no valid Signal Desktop QR found after 90 attempts"
    );
    assert_eq!(
        ScanError::Capture { inner: CaptureError::Failed }.message(),
        CaptureError::Failed.message()
    );
    assert_eq!(
        ConfigError::MissingAccount.message(),
        "--account is required for this command"
    );
    assert_eq!(
        ConfigError::InvalidAccountFormat.message(),
        "account must start with '+' in international format"
    );
}
