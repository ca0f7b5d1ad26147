//! The terminal failures of the setup flow, with their user-facing texts.

use vstd::prelude::*;
use vstd::string::StringExecFns;

use crate::strutil::dec_rep;
use crate::strutil::u64_to_dec_string;
use crate::strutil::u32_to_dec_string;

verus! {

/// The unrecoverable conditions the signal-cli/docker side reports upward.
#[derive(Debug, Clone, PartialEq, Eq)]
pub enum SignalSetupError {
    DockerNotInstalled,
    DockerStartFailed,
    DockerStartTimeout { seconds: u64 },
    RegisterFailed,
    SignalCliCommandFailed { command: String },
    SignalCliRateLimited,
}

/// The text of a `DockerStartTimeout` message for a given wait.
pub open spec fn docker_timeout_message(seconds: nat) -> Seq<char> {
    "Docker start timed out after "@ + dec_rep(seconds)
        + " seconds. Open Docker Desktop and retry."@
}

/// The text of a `SignalCliCommandFailed` message for a given subcommand.
pub open spec fn command_failed_message(command: Seq<char>) -> Seq<char> {
    "signal-cli '"@ + command + "' command failed"@
}

impl SignalSetupError {
    /// What each failure means, for each variant exactly.
    pub open spec fn message_spec(&self) -> Seq<char> {
        match self {
            SignalSetupError::DockerNotInstalled => "Docker is not installed. Install Docker Desktop/Engine and retry."@,
            SignalSetupError::DockerStartFailed => "Docker is installed but could not be started automatically. Start Docker manually and retry."@,
            SignalSetupError::DockerStartTimeout { seconds } => docker_timeout_message(
                *seconds as nat,
            ),
            SignalSetupError::RegisterFailed => "signal-cli 'register' command failed"@,
            SignalSetupError::SignalCliCommandFailed { command } => command_failed_message(
                command@,
            ),
            SignalSetupError::SignalCliRateLimited => "signal-cli rate limited request (StatusCode 429/502). Try again with a fresh captcha and network/IP change if needed."@,
        }
    }

    /// The user-facing message of this failure.
    pub fn message(&self) -> (r: String)
        ensures
            r@ == self.message_spec(),
    {
        match self {
            SignalSetupError::DockerNotInstalled => String::from_str(
                "Docker is not installed. Install Docker Desktop/Engine and retry.",
            ),
            SignalSetupError::DockerStartFailed => String::from_str(
                "Docker is installed but could not be started automatically. Start Docker manually and retry.",
            ),
            SignalSetupError::DockerStartTimeout { seconds } => {
                let mut r = String::from_str("Docker start timed out after ");
                let num = u64_to_dec_string(*seconds);
                r.append(num.as_str());
                r.append(" seconds. Open Docker Desktop and retry.");
                r
            },
            SignalSetupError::RegisterFailed => String::from_str(
                "signal-cli 'register' command failed",
            ),
            SignalSetupError::SignalCliCommandFailed { command } => {
                let mut r = String::from_str("signal-cli '");
                r.append(command.as_str());
                r.append("' command failed");
                r
            },
            SignalSetupError::SignalCliRateLimited => String::from_str(
                "signal-cli rate limited request (StatusCode 429/502). Try again with a fresh captcha and network/IP change if needed.",
            ),
        }
    }
}

/// The failures of one capture invocation.
#[derive(Debug, Clone, PartialEq, Eq)]
pub enum CaptureError {
    /// The caller asked for a capture with no output file.
    NoOutputPaths,
    /// The capture process could not be started at all.
    SpawnFailed,
    /// The capture process exited with a non-zero status.
    Failed,
    /// The capture process was still running when the timeout struck.
    TimedOut { seconds: u64 },
}

/// The text of a capture timeout message for a given timeout.
pub open spec fn capture_timeout_message(seconds: nat) -> Seq<char> {
    "screencapture timed out after "@ + dec_rep(seconds)
        + "s (check Screen Recording permissions and active desktop session)"@
}

impl CaptureError {
    /// What each capture failure means, for each variant exactly.
    pub open spec fn message_spec(&self) -> Seq<char> {
        match self {
            CaptureError::NoOutputPaths => "no screenshot output path provided"@,
            CaptureError::SpawnFailed => "failed to run screencapture"@,
            CaptureError::Failed => "screencapture failed (check Screen Recording permissions)"@,
            CaptureError::TimedOut { seconds } => capture_timeout_message(*seconds as nat),
        }
    }

    /// The user-facing message of this capture failure.
    pub fn message(&self) -> (r: String)
        ensures
            r@ == self.message_spec(),
    {
        match self {
            CaptureError::NoOutputPaths => String::from_str("no screenshot output path provided"),
            CaptureError::SpawnFailed => String::from_str("failed to run screencapture"),
            CaptureError::Failed => String::from_str(
                "screencapture failed (check Screen Recording permissions)",
            ),
            CaptureError::TimedOut { seconds } => {
                let mut r = String::from_str("screencapture timed out after ");
                let num = u64_to_dec_string(*seconds);
                r.append(num.as_str());
                r.append("s (check Screen Recording permissions and active desktop session)");
                r
            },
        }
    }
}

/// The failures of the outer scan loop.
#[derive(Debug, Clone, PartialEq, Eq)]
pub enum ScanError {
    /// The budget was rejected before any capture: interval or attempts of 0.
    InvalidBudget,
    /// Capture fallbacks were exhausted; the scan terminates.
    Capture { inner: CaptureError },
    /// Every attempt was used and no payload was ever found: the expected
    /// outcome of a code that never appeared on screen, not a crash.
    NoQrFound { attempts: u32 },
}

/// The text of the budget-exhaustion failure for a given attempt count.
pub open spec fn no_qr_found_message(attempts: nat) -> Seq<char> {
    "no valid Signal Desktop QR found after "@ + dec_rep(attempts) + " attempts"@
}

impl ScanError {
    /// What each scan failure means, for each variant exactly.
    pub open spec fn message_spec(&self) -> Seq<char> {
        match self {
            ScanError::InvalidBudget => "interval and attempts must be > 0"@,
            ScanError::Capture { inner } => inner.message_spec(),
            ScanError::NoQrFound { attempts } => no_qr_found_message(*attempts as nat),
        }
    }

    /// The user-facing message of this scan failure.
    pub fn message(&self) -> (r: String)
        ensures
            r@ == self.message_spec(),
    {
        match self {
            ScanError::InvalidBudget => String::from_str("interval and attempts must be > 0"),
            ScanError::Capture { inner } => inner.message(),
            ScanError::NoQrFound { attempts } => {
                let mut r = String::from_str("no valid Signal Desktop QR found after ");
                let num = u32_to_dec_string(*attempts);
                r.append(num.as_str());
                r.append(" attempts");
                r
            },
        }
    }
}

/// The failures of configuration validation, before any I/O.
#[derive(Debug, Clone, PartialEq, Eq)]
pub enum ConfigError {
    /// A command that needs an account was given none.
    MissingAccount,
    /// The account is not in international format.
    InvalidAccountFormat,
}

impl ConfigError {
    /// What each configuration failure means, for each variant exactly.
    pub open spec fn message_spec(&self) -> Seq<char> {
        match self {
            ConfigError::MissingAccount => "--account is required for this command"@,
            ConfigError::InvalidAccountFormat => "account must start with '+' in international format"@,
        }
    }

    /// The user-facing message of this configuration failure.
    pub fn message(&self) -> (r: String)
        ensures
            r@ == self.message_spec(),
    {
        match self {
            ConfigError::MissingAccount => String::from_str(
                "--account is required for this command",
            ),
            ConfigError::InvalidAccountFormat => String::from_str(
                "account must start with '+' in international format",
            ),
        }
    }
}

} // verus!
