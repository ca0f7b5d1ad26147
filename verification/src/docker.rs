//! The one external contract everything else goes through: "run a one-shot
//! command with given arguments, capture stdout and stderr, get a success
//! flag plus output". This module builds each signal-cli-in-docker invocation
//! exactly, classifies what came back, and decides retries; running the
//! process is the driver's job.

use vstd::prelude::*;
use vstd::string::StrSliceExecFns;
use vstd::string::StringExecFns;

use crate::config::Config;
use crate::errors::SignalSetupError;
use crate::strutil::ascii_trimmed;
use crate::strutil::dec_rep;
use crate::strutil::is_prefix_of;
use crate::strutil::line_bounds;
use crate::strutil::seq_contains_sub;
use crate::strutil::split_lines;
use crate::strutil::str_contains_sub;
use crate::strutil::trimmed_bounds;
use crate::strutil::u32_to_dec_string;
use crate::strutil::u64_to_dec_string;

verus! {

/// How many times a registration call is retried.
pub const REGISTER_RETRY_ATTEMPTS: u32 = 3;

/// Seconds between registration retries.
pub const REGISTER_RETRY_DELAY_SECS: u64 = 8;

/// Seconds a landline registration waits between the SMS attempt and the
/// voice call.
pub const LANDLINE_WAIT_SECS: u64 = 60;

/// Receive passes run after linking a desktop.
pub const POST_LINK_SYNC_PASSES: u32 = 3;

/// Timeout handed to each post-link receive pass, in seconds.
pub const POST_LINK_RECEIVE_TIMEOUT_SECS: u64 = 12;

/// Message cap handed to each post-link receive pass.
pub const POST_LINK_RECEIVE_MAX_MESSAGES: u32 = 100;

/// One command for the driver to run: a program, its arguments, and what to
/// write to its standard input.
pub struct CommandRequest {
    pub program: String,
    pub args: Vec<String>,
    pub stdin_payload: Option<String>,
}

/// One signal-cli call: the command to run, the subcommand's name for
/// diagnostics, and whether a non-zero exit is tolerated.
pub struct SignalCliInvocation {
    pub command_name: String,
    pub request: CommandRequest,
    pub allow_failure: bool,
}

/// The fixed front of every docker invocation, with the user mapping where
/// the platform provides one.
pub open spec fn base_docker_args(data_dir: Seq<char>, user: Option<(u32, u32)>) -> Seq<Seq<char>> {
    let head = seq![
        "run"@,
        "--rm"@,
        "-i"@,
        "--volume"@,
        data_dir + ":/var/lib/signal-cli"@,
        "--tmpfs"@,
        "/tmp:exec"@,
    ];
    match user {
        Some(u) => head + seq!["--user"@, dec_rep(u.0 as nat) + ":"@ + dec_rep(u.1 as nat)],
        None => head,
    }
}

/// A plain signal-cli call: the docker front, the image, the fixed signal-cli
/// options, then the subcommand's arguments.
pub open spec fn signal_cli_args(
    data_dir: Seq<char>,
    image: Seq<char>,
    account: Seq<char>,
    args: Seq<Seq<char>>,
    user: Option<(u32, u32)>,
) -> Seq<Seq<char>> {
    base_docker_args(data_dir, user) + seq![image, "-o"@, "json"@, "-a"@, account] + args
}

fn push_arg(v: &mut Vec<String>, s: &str)
    ensures
        final(v).deep_view() == old(v).deep_view().push(s@),
{
    v.push(s.to_owned());
    proof {
        assert(v.deep_view() =~= old(v).deep_view().push(s@));
    }
}

fn push_arg_owned(v: &mut Vec<String>, s: String)
    ensures
        final(v).deep_view() == old(v).deep_view().push(s@),
{
    let ghost sv = s@;
    v.push(s);
    proof {
        assert(v.deep_view() =~= old(v).deep_view().push(sv));
    }
}

fn base_docker_arg_vec(cfg: &Config, user: Option<(u32, u32)>) -> (r: Vec<String>)
    ensures
        r.deep_view() == base_docker_args(cfg.data_dir@, user),
{
    let mut v: Vec<String> = Vec::new();
    push_arg(&mut v, "run");
    push_arg(&mut v, "--rm");
    push_arg(&mut v, "-i");
    push_arg(&mut v, "--volume");
    let mut volume = cfg.data_dir.clone();
    volume.append(":/var/lib/signal-cli");
    push_arg_owned(&mut v, volume);
    push_arg(&mut v, "--tmpfs");
    push_arg(&mut v, "/tmp:exec");
    if let Some((uid, gid)) = user {
        push_arg(&mut v, "--user");
        let mut mapping = u32_to_dec_string(uid);
        mapping.append(":");
        let gid_text = u32_to_dec_string(gid);
        mapping.append(gid_text.as_str());
        push_arg_owned(&mut v, mapping);
        proof {
            assert(v.deep_view() =~= base_docker_args(cfg.data_dir@, user));
        }
    } else {
        proof {
            assert(v.deep_view() =~= base_docker_args(cfg.data_dir@, user));
        }
    }
    v
}

/// Builds the docker command for one plain signal-cli call.
pub fn signal_cli_request(cfg: &Config, args: &Vec<String>, user: Option<(u32, u32)>) -> (r:
    CommandRequest)
    ensures
        r.program@ == "docker"@,
        r.args.deep_view() == signal_cli_args(
            cfg.data_dir@,
            cfg.image@,
            cfg.account@,
            args.deep_view(),
            user,
        ),
        r.stdin_payload is None,
{
    let mut v = base_docker_arg_vec(cfg, user);
    push_arg_owned(&mut v, cfg.image.clone());
    push_arg(&mut v, "-o");
    push_arg(&mut v, "json");
    push_arg(&mut v, "-a");
    push_arg_owned(&mut v, cfg.account.clone());
    let ghost before = v.deep_view();
    let mut i: usize = 0;
    while i < args.len()
        invariant
            0 <= i <= args@.len(),
            args.deep_view().len() == args@.len(),
            forall|k: int| 0 <= k < args@.len() ==> args.deep_view()[k] == #[trigger] args@[k]@,
            v.deep_view() == before + args.deep_view().take(i as int),
        decreases args@.len() - i,
    {
        let one = args[i].clone();
        proof {
            assert(one@ == args@[i as int]@);
        }
        push_arg_owned(&mut v, one);
        proof {
            assert(before + args.deep_view().take(i as int) + seq![args.deep_view()[i as int]]
                =~= before + args.deep_view().take(i + 1));
        }
        i += 1;
    }
    proof {
        assert(args.deep_view().take(args@.len() as int) =~= args.deep_view());
        assert(v.deep_view() =~= signal_cli_args(
            cfg.data_dir@,
            cfg.image@,
            cfg.account@,
            args.deep_view(),
            user,
        ));
    }
    CommandRequest { program: String::from_str("docker"), args: v, stdin_payload: None }
}

/// Builds one plain signal-cli invocation, named after its subcommand.
pub fn run_signal_cli(cfg: &Config, args: Vec<String>, allow_failure: bool, user: Option<(u32, u32)>)
    -> (r: SignalCliInvocation)
    ensures
        args.deep_view().len() > 0 ==> r.command_name@ == args.deep_view()[0],
        args.deep_view().len() == 0 ==> r.command_name@ == "unknown"@,
        r.allow_failure == allow_failure,
        r.request.program@ == "docker"@,
        r.request.args.deep_view() == signal_cli_args(
            cfg.data_dir@,
            cfg.image@,
            cfg.account@,
            args.deep_view(),
            user,
        ),
        r.request.stdin_payload is None,
{
    proof {
        assert(args.deep_view().len() == args@.len());
    }
    let command_name = if args.len() > 0 {
        let n = args[0].clone();
        proof {
            assert(n@ == args@[0]@);
            assert(args.deep_view()[0] == args@[0]@);
        }
        n
    } else {
        String::from_str("unknown")
    };
    let request = signal_cli_request(cfg, &args, user);
    SignalCliInvocation { command_name, request, allow_failure }
}

/// The docker command for one stdin-secret signal-cli call: the secret goes
/// through the container's standard input and never appears in an argument.
pub open spec fn stdin_secret_args(
    data_dir: Seq<char>,
    image: Seq<char>,
    account: Seq<char>,
    shell_script: Seq<char>,
    user: Option<(u32, u32)>,
) -> Seq<Seq<char>> {
    base_docker_args(data_dir, user) + seq![
        "--env"@,
        "SIGNAL_ACCOUNT="@ + account,
        "--entrypoint"@,
        "sh"@,
        image,
        "-c"@,
        shell_script,
    ]
}

fn stdin_secret_request(cfg: &Config, shell_script: &str, stdin_payload: String, user: Option<
    (u32, u32),
>) -> (r: CommandRequest)
    ensures
        r.program@ == "docker"@,
        r.args.deep_view() == stdin_secret_args(
            cfg.data_dir@,
            cfg.image@,
            cfg.account@,
            shell_script@,
            user,
        ),
        r.stdin_payload matches Some(p) && p@ == stdin_payload@,
{
    let ghost payload_view = stdin_payload@;
    let mut v = base_docker_arg_vec(cfg, user);
    push_arg(&mut v, "--env");
    let mut env = String::from_str("SIGNAL_ACCOUNT=");
    env.append(cfg.account.as_str());
    push_arg_owned(&mut v, env);
    push_arg(&mut v, "--entrypoint");
    push_arg(&mut v, "sh");
    push_arg_owned(&mut v, cfg.image.clone());
    push_arg(&mut v, "-c");
    push_arg(&mut v, shell_script);
    proof {
        assert(v.deep_view() =~= stdin_secret_args(
            cfg.data_dir@,
            cfg.image@,
            cfg.account@,
            shell_script@,
            user,
        ));
    }
    CommandRequest {
        program: String::from_str("docker"),
        args: v,
        stdin_payload: Some(stdin_payload),
    }
}

/// The arguments of one registration call.
pub open spec fn register_args(token: Seq<char>, voice: bool) -> Seq<Seq<char>> {
    let base = seq!["register"@, "--captcha"@, token];
    if voice {
        base.push("--voice"@)
    } else {
        base
    }
}

/// Builds the registration invocation: SMS by default, voice on request.
/// Failures are tolerated per call; the retry policy decides what follows.
pub fn register_with_mode(cfg: &Config, token: &str, voice: bool, user: Option<(u32, u32)>) -> (r:
    SignalCliInvocation)
    ensures
        r.command_name@ == "register"@,
        r.allow_failure == true,
        r.request.program@ == "docker"@,
        r.request.args.deep_view() == signal_cli_args(
            cfg.data_dir@,
            cfg.image@,
            cfg.account@,
            register_args(token@, voice),
            user,
        ),
        r.request.stdin_payload is None,
{
    let mut args: Vec<String> = Vec::new();
    push_arg(&mut args, "register");
    push_arg(&mut args, "--captcha");
    push_arg(&mut args, token);
    if voice {
        push_arg(&mut args, "--voice");
    }
    proof {
        assert(args.deep_view() =~= register_args(token@, voice));
    }
    run_signal_cli(cfg, args, true, user)
}

/// The arguments of the landline flow's voice step.
pub open spec fn landline_voice_args(token: Seq<char>) -> Seq<Seq<char>> {
    seq!["register"@, "--voice"@, "--captcha"@, token]
}

/// The landline registration flow: an SMS attempt whose failure is expected,
/// a fixed wait, then a voice registration under the retry policy.
pub struct LandlinePlan {
    pub sms: SignalCliInvocation,
    pub wait_secs: u64,
    pub voice: SignalCliInvocation,
}

/// Builds the three-step landline registration plan.
pub fn register_landline(cfg: &Config, token: &str, user: Option<(u32, u32)>) -> (r: LandlinePlan)
    ensures
        r.sms.command_name@ == "register"@,
        r.sms.allow_failure == true,
        r.sms.request.args.deep_view() == signal_cli_args(
            cfg.data_dir@,
            cfg.image@,
            cfg.account@,
            register_args(token@, false),
            user,
        ),
        r.wait_secs == LANDLINE_WAIT_SECS,
        r.voice.command_name@ == "register"@,
        r.voice.allow_failure == true,
        r.voice.request.args.deep_view() == signal_cli_args(
            cfg.data_dir@,
            cfg.image@,
            cfg.account@,
            landline_voice_args(token@),
            user,
        ),
{
    let sms = register_with_mode(cfg, token, false, user);
    let mut voice_args: Vec<String> = Vec::new();
    push_arg(&mut voice_args, "register");
    push_arg(&mut voice_args, "--voice");
    push_arg(&mut voice_args, "--captcha");
    push_arg(&mut voice_args, token);
    proof {
        assert(voice_args.deep_view() =~= landline_voice_args(token@));
    }
    let voice = run_signal_cli(cfg, voice_args, true, user);
    LandlinePlan { sms, wait_secs: LANDLINE_WAIT_SECS, voice }
}

/// The verification invocation: with a registration lock PIN the code and the
/// PIN travel through standard input, never through an argument; without one
/// it is a plain call.
pub fn verify_code(cfg: &Config, code: &str, pin: Option<&str>, user: Option<(u32, u32)>) -> (r:
    SignalCliInvocation)
    ensures
        r.command_name@ == "verify"@,
        r.allow_failure == false,
        r.request.program@ == "docker"@,
        pin matches Some(p) ==> r.request.args.deep_view() == stdin_secret_args(
            cfg.data_dir@,
            cfg.image@,
            cfg.account@,
            "read -r SIGNAL_VERIFY_CODE; read -r SIGNAL_PIN; signal-cli -o json -a \"$SIGNAL_ACCOUNT\" verify \"$SIGNAL_VERIFY_CODE\" --pin \"$SIGNAL_PIN\""@,
            user,
        ) && (r.request.stdin_payload matches Some(s) && s@ == code@ + "\n"@ + p@ + "\n"@),
        pin is None ==> r.request.args.deep_view() == signal_cli_args(
            cfg.data_dir@,
            cfg.image@,
            cfg.account@,
            seq!["verify"@, code@],
            user,
        ) && r.request.stdin_payload is None,
{
    match pin {
        Some(pin_value) => {
            let mut payload = code.to_owned();
            payload.append("\n");
            payload.append(pin_value);
            payload.append("\n");
            let request = stdin_secret_request(
                cfg,
                "read -r SIGNAL_VERIFY_CODE; read -r SIGNAL_PIN; signal-cli -o json -a \"$SIGNAL_ACCOUNT\" verify \"$SIGNAL_VERIFY_CODE\" --pin \"$SIGNAL_PIN\"",
                payload,
                user,
            );
            SignalCliInvocation {
                command_name: String::from_str("verify"),
                request,
                allow_failure: false,
            }
        },
        None => {
            let mut args: Vec<String> = Vec::new();
            push_arg(&mut args, "verify");
            push_arg(&mut args, code);
            proof {
                assert(args.deep_view() =~= seq!["verify"@, code@]);
            }
            let r = run_signal_cli(cfg, args, false, user);
            proof {
                assert(r.command_name@ == "verify"@);
            }
            r
        },
    }
}

/// The registration-lock invocation: the PIN travels through standard input.
pub fn set_registration_lock_pin(cfg: &Config, pin: &str, user: Option<(u32, u32)>) -> (r:
    SignalCliInvocation)
    ensures
        r.command_name@ == "setPin"@,
        r.allow_failure == false,
        r.request.program@ == "docker"@,
        r.request.args.deep_view() == stdin_secret_args(
            cfg.data_dir@,
            cfg.image@,
            cfg.account@,
            "read -r SIGNAL_PIN; signal-cli -o json -a \"$SIGNAL_ACCOUNT\" setPin \"$SIGNAL_PIN\""@,
            user,
        ),
        r.request.stdin_payload matches Some(s) && s@ == pin@ + "\n"@,
{
    let mut payload = pin.to_owned();
    payload.append("\n");
    let request = stdin_secret_request(
        cfg,
        "read -r SIGNAL_PIN; signal-cli -o json -a \"$SIGNAL_ACCOUNT\" setPin \"$SIGNAL_PIN\"",
        payload,
        user,
    );
    SignalCliInvocation { command_name: String::from_str("setPin"), request, allow_failure: false }
}

/// The device-listing invocation.
pub fn list_devices(cfg: &Config, user: Option<(u32, u32)>) -> (r: SignalCliInvocation)
    ensures
        r.command_name@ == "listDevices"@,
        r.allow_failure == false,
        r.request.args.deep_view() == signal_cli_args(
            cfg.data_dir@,
            cfg.image@,
            cfg.account@,
            seq!["listDevices"@],
            user,
        ),
        r.request.stdin_payload is None,
{
    let mut args: Vec<String> = Vec::new();
    push_arg(&mut args, "listDevices");
    proof {
        assert(args.deep_view() =~= seq!["listDevices"@]);
    }
    run_signal_cli(cfg, args, false, user)
}

/// The post-link receive arguments: a bounded sync pass.
pub fn post_link_receive_args() -> (r: Vec<String>)
    ensures
        r.deep_view() == seq![
            "receive"@,
            "--timeout"@,
            dec_rep(POST_LINK_RECEIVE_TIMEOUT_SECS as nat),
            "--max-messages"@,
            dec_rep(POST_LINK_RECEIVE_MAX_MESSAGES as nat),
        ],
{
    let mut r: Vec<String> = Vec::new();
    push_arg(&mut r, "receive");
    push_arg(&mut r, "--timeout");
    push_arg_owned(&mut r, u64_to_dec_string(POST_LINK_RECEIVE_TIMEOUT_SECS));
    push_arg(&mut r, "--max-messages");
    push_arg_owned(&mut r, u32_to_dec_string(POST_LINK_RECEIVE_MAX_MESSAGES));
    proof {
        assert(r.deep_view() =~= seq![
            "receive"@,
            "--timeout"@,
            dec_rep(POST_LINK_RECEIVE_TIMEOUT_SECS as nat),
            "--max-messages"@,
            dec_rep(POST_LINK_RECEIVE_MAX_MESSAGES as nat),
        ]);
    }
    r
}

/// The contacts-sync arguments sent once after the receive passes.
pub fn send_contacts_args() -> (r: Vec<String>)
    ensures
        r.deep_view() == seq!["sendContacts"@],
{
    let mut r: Vec<String> = Vec::new();
    push_arg(&mut r, "sendContacts");
    proof {
        assert(r.deep_view() =~= seq!["sendContacts"@]);
    }
    r
}

/// A rate-limited or temporarily failing remote call, recognized in the
/// command's combined output.
pub open spec fn rate_limited_output(stdout: Seq<char>, stderr: Seq<char>) -> bool {
    let content = stdout + "\n"@ + stderr;
    seq_contains_sub(content, "ExternalServiceFailureException"@) || seq_contains_sub(
        content,
        "StatusCode: 502"@,
    ) || seq_contains_sub(content, "StatusCode: 429"@) || seq_contains_sub(content, "RateLimit"@)
}

/// Whether the command's output shows a rate limit or a temporary remote
/// failure.
pub fn is_rate_limited(stdout: &str, stderr: &str) -> (r: bool)
    ensures
        r == rate_limited_output(stdout@, stderr@),
{
    let mut content = stdout.to_owned();
    content.append("\n");
    content.append(stderr);
    str_contains_sub(content.as_str(), "ExternalServiceFailureException") || str_contains_sub(
        content.as_str(),
        "StatusCode: 502",
    ) || str_contains_sub(content.as_str(), "StatusCode: 429") || str_contains_sub(
        content.as_str(),
        "RateLimit",
    )
}

/// Classifies what one signal-cli call came to: success passes; a tolerated
/// failure passes as `false`; otherwise a registration failure, a rate limit,
/// or a named command failure, exactly as the output shows.
pub fn handle_signal_cli_output(
    command_name: &str,
    success: bool,
    stdout: &str,
    stderr: &str,
    allow_failure: bool,
) -> (r: Result<bool, SignalSetupError>)
    ensures
        success ==> r == Result::<bool, SignalSetupError>::Ok(true),
        !success && allow_failure ==> r == Result::<bool, SignalSetupError>::Ok(false),
        !success && !allow_failure && rate_limited_output(stdout@, stderr@) ==> r == Result::<
            bool,
            SignalSetupError,
        >::Err(SignalSetupError::SignalCliRateLimited),
        !success && !allow_failure && !rate_limited_output(stdout@, stderr@) && command_name@
            == "register"@ ==> r == Result::<bool, SignalSetupError>::Err(
            SignalSetupError::RegisterFailed,
        ),
        !success && !allow_failure && !rate_limited_output(stdout@, stderr@) && command_name@
            != "register"@ ==> (r matches Err(SignalSetupError::SignalCliCommandFailed { command })
            && command@ == command_name@),
{
    if success {
        return Ok(true);
    }
    if allow_failure {
        return Ok(false);
    }
    let limited = is_rate_limited(stdout, stderr);
    if limited {
        return Err(SignalSetupError::SignalCliRateLimited);
    }
    if crate::system::str_eq_chars(command_name, "register") {
        return Err(SignalSetupError::RegisterFailed);
    }
    Err(SignalSetupError::SignalCliCommandFailed { command: command_name.to_owned() })
}

/// Advice shown when registration keeps failing.
pub fn registration_failure_hint() -> (r: String)
    ensures
        r@ == "If this persists: the number/operator may be blocked, or your current IP may be rate-limited. Try another network/IP (for example mobile hotspot) or another number/operator."@,
{
    String::from_str(
        "If this persists: the number/operator may be blocked, or your current IP may be rate-limited. Try another network/IP (for example mobile hotspot) or another number/operator.",
    )
}

/// The failures of the retry policy around repeated signal-cli calls.
#[derive(Debug, PartialEq, Eq)]
pub enum RetryError {
    /// An attempt budget of zero is rejected before any call.
    NoAttempts { label: String },
    /// Every attempt failed.
    Exhausted { label: String, attempts: u32 },
}

/// The text of a retry-exhaustion message.
pub open spec fn retry_exhausted_message(label: Seq<char>, attempts: nat) -> Seq<char> {
    label + " failed after "@ + dec_rep(attempts) + " attempts. "@
        + "If this persists: the number/operator may be blocked, or your current IP may be rate-limited. Try another network/IP (for example mobile hotspot) or another number/operator."@
}

/// The text of a zero-attempt rejection.
pub open spec fn no_attempts_message(label: Seq<char>) -> Seq<char> {
    label + " attempts must be > 0"@
}

impl RetryError {
    /// What each retry failure means, for each variant exactly.
    pub open spec fn message_spec(&self) -> Seq<char> {
        match self {
            RetryError::NoAttempts { label } => no_attempts_message(label@),
            RetryError::Exhausted { label, attempts } => retry_exhausted_message(
                label@,
                *attempts as nat,
            ),
        }
    }

    /// The user-facing message of this retry failure.
    pub fn message(&self) -> (r: String)
        ensures
            r@ == self.message_spec(),
    {
        match self {
            RetryError::NoAttempts { label } => {
                let mut r = label.clone();
                r.append(" attempts must be > 0");
                r
            },
            RetryError::Exhausted { label, attempts } => {
                let mut r = label.clone();
                r.append(" failed after ");
                let num = u32_to_dec_string(*attempts);
                r.append(num.as_str());
                r.append(" attempts. ");
                let hint = registration_failure_hint();
                r.append(hint.as_str());
                r
            },
        }
    }
}

/// What the retry policy does after one call.
#[derive(Debug, Clone, PartialEq, Eq)]
pub enum RetryDecision {
    /// The call succeeded; the retried operation is done.
    Done,
    /// The call failed and attempts remain: sleep, then call again.
    SleepAndRetry { delay_secs: u64, next_attempt: u32 },
    /// The call failed on the final attempt: give up.
    GiveUp,
}

/// Rejects an empty retry budget before any call is made.
pub fn validate_retry_attempts(label: &str, attempts: u32) -> (r: Result<(), RetryError>)
    ensures
        r is Err <==> attempts == 0,
        r matches Err(e) ==> (e matches RetryError::NoAttempts { label: l } && l@ == label@),
{
    if attempts == 0 {
        Err(RetryError::NoAttempts { label: label.to_owned() })
    } else {
        Ok(())
    }
}

/// The retry step: success ends the operation; failure within the budget
/// sleeps and retries; failure on the last attempt gives up.
pub fn signal_cli_retry_step(attempt: u32, attempts: u32, ok: bool, delay_secs: u64) -> (r:
    RetryDecision)
    requires
        1 <= attempt <= attempts,
    ensures
        ok ==> r == RetryDecision::Done,
        !ok && attempt < attempts ==> r == (RetryDecision::SleepAndRetry {
            delay_secs,
            next_attempt: (attempt + 1) as u32,
        }),
        !ok && attempt == attempts ==> r == RetryDecision::GiveUp,
{
    if ok {
        RetryDecision::Done
    } else if attempt < attempts {
        RetryDecision::SleepAndRetry { delay_secs, next_attempt: attempt + 1 }
    } else {
        RetryDecision::GiveUp
    }
}

/// A missing captcha token in a helper subprocess's output.
#[derive(Debug, Clone, PartialEq, Eq)]
pub enum CaptchaError {
    NoToken,
}

impl CaptchaError {
    /// What the failure means.
    pub open spec fn message_spec(&self) -> Seq<char> {
        "captcha-token subprocess did not return a token"@
    }

    /// The user-facing message of this failure.
    pub fn message(&self) -> (r: String)
        ensures
            r@ == self.message_spec(),
    {
        String::from_str("captcha-token subprocess did not return a token")
    }
}

/// The last line of the output (searching from the end) whose trimmed text is
/// a captcha token.
pub open spec fn last_captcha_token(lines: Seq<Seq<char>>) -> Option<Seq<char>>
    decreases lines.len(),
{
    if lines.len() == 0 {
        None
    } else if is_prefix_of("signalcaptcha://"@, ascii_trimmed(lines.last())) {
        Some(ascii_trimmed(lines.last()))
    } else {
        last_captcha_token(lines.drop_last())
    }
}

/// Finds the captcha token in a helper subprocess's output: the last line
/// whose trimmed text begins with `signalcaptcha://`, trimmed; none is an
/// error.
pub fn extract_signal_captcha_token_from_output(output: &str) -> (r: Result<String, CaptchaError>)
    ensures
        r matches Ok(t) ==> last_captcha_token(split_lines(output@)) == Some(t@),
        r is Err ==> last_captcha_token(split_lines(output@)) == None::<Seq<char>>,
        r matches Err(e) ==> e == CaptchaError::NoToken,
{
    let bounds = line_bounds(output);
    let ghost lines = split_lines(output@);
    let mut i: usize = bounds.len();
    proof {
        assert(lines.take(lines.len() as int) =~= lines);
    }
    while i > 0
        invariant
            0 <= i <= bounds@.len(),
            bounds@.len() == lines.len(),
            lines == split_lines(output@),
            forall|k: int|
                0 <= k < bounds@.len() ==> {
                    &&& 0 <= #[trigger] bounds@[k].0 <= bounds@[k].1 <= output@.len()
                    &&& output@.subrange(bounds@[k].0 as int, bounds@[k].1 as int) == lines[k]
                },
            last_captcha_token(lines) == last_captcha_token(lines.take(i as int)),
        decreases i,
    {
        let (lo, hi) = bounds[i - 1];
        let (a, b) = trimmed_bounds(output, lo, hi);
        let piece = output.substring_char(a, b);
        proof {
            assert(lines.take(i as int).last() == lines[i - 1]);
            assert(piece@ == ascii_trimmed(lines[i - 1]));
        }
        if crate::strutil::str_has_prefix(piece, "signalcaptcha://") {
            let token = piece.to_owned();
            return Ok(token);
        }
        proof {
            assert(lines.take(i as int).drop_last() =~= lines.take(i - 1));
        }
        i -= 1;
    }
    proof {
        assert(lines.take(0) =~= Seq::<Seq<char>>::empty());
    }
    Err(CaptchaError::NoToken)
}

} // verus!
