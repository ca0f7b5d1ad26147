//! Command-line shape and configuration: the account, the data directory and
//! the container image every signal-cli invocation uses.

use vstd::prelude::*;
use vstd::string::StrSliceExecFns;
use vstd::string::StringExecFns;

use crate::errors::ConfigError;

verus! {

/// The default container image that runs signal-cli.
pub fn default_image() -> (r: &'static str)
    ensures
        r@ == "registry.gitlab.com/packaging/signal-cli/signal-cli-native:latest"@,
{
    "registry.gitlab.com/packaging/signal-cli/signal-cli-native:latest"
}

/// The parsed command line. The interactive front end parses the real
/// arguments and hands them over in this shape.
pub struct Cli {
    pub command: Option<Commands>,
    pub account: Option<String>,
    pub data_dir: Option<String>,
    pub image: String,
}

/// The subcommands of the tool.
pub enum Commands {
    /// Full interactive flow: captcha, register, verify, link desktop.
    Wizard,
    /// Capture and print a signalcaptcha:// token.
    CaptchaToken { quiet: bool },
    /// Register an account with a captcha token.
    Register { token: String, voice: bool, landline: bool },
    /// Verify a registration code.
    Verify { code: String, pin: Option<String> },
    /// Scan the screen for the pairing code and link the desktop.
    LinkDesktopLive { interval: u64, attempts: u32 },
    /// List linked devices.
    ListDevices,
}

/// What every signal-cli invocation needs.
#[derive(Debug, Clone, PartialEq, Eq)]
pub struct Config {
    pub account: String,
    pub data_dir: String,
    pub image: String,
}

/// An account in international format: it starts with `+`.
pub open spec fn is_valid_account(s: Seq<char>) -> bool {
    s.len() > 0 && s[0] == '+'
}

/// Accepts exactly the accounts in international format.
pub fn validate_account(account: &str) -> (r: Result<(), ConfigError>)
    ensures
        r is Ok <==> is_valid_account(account@),
        r matches Err(e) ==> e == ConfigError::InvalidAccountFormat,
{
    let len = account.unicode_len();
    if len == 0 {
        return Err(ConfigError::InvalidAccountFormat);
    }
    if account.get_char(0) == '+' {
        Ok(())
    } else {
        Err(ConfigError::InvalidAccountFormat)
    }
}

/// The data directory under a home directory, or bare when there is none.
pub open spec fn data_dir_under(home: Option<Seq<char>>) -> Seq<char> {
    match home {
        Some(h) => h + "/signal-cli-data"@,
        None => "signal-cli-data"@,
    }
}

/// Relies on `dirs::home_dir`: the platform's home directory, if it has one.
/// The result depends on the environment, so nothing is promised of it.
#[verifier::external_body]
fn home_dir_string() -> (r: Option<String>) {
    dirs::home_dir().map(|p| p.to_string_lossy().into_owned())
}

fn data_dir_from_home(home: Option<String>) -> (r: String)
    ensures
        r@ == data_dir_under(
            match home {
                Some(h) => Some(h@),
                None => None,
            },
        ),
{
    match home {
        Some(h) => {
            let mut r = h;
            r.append("/signal-cli-data");
            r
        },
        None => String::from_str("signal-cli-data"),
    }
}

/// The suffix every default data directory ends with.
pub open spec fn ends_with_data_dir_suffix(s: Seq<char>) -> bool {
    s.len() >= "signal-cli-data"@.len() && s.subrange(
        s.len() - "signal-cli-data"@.len(),
        s.len() as int,
    ) == "signal-cli-data"@
}

/// The default data directory: `signal-cli-data` under the home directory
/// when the platform names one, bare otherwise.
pub fn default_data_dir() -> (r: String)
    ensures
        ends_with_data_dir_suffix(r@),
{
    let home = home_dir_string();
    let r = data_dir_from_home(home);
    proof {
        let suffix = "signal-cli-data"@;
        let slash = "/signal-cli-data"@;
        reveal_strlit("signal-cli-data");
        reveal_strlit("/signal-cli-data");
        assert(slash.skip(1) =~= suffix);
        assert(r@.subrange(r@.len() - suffix.len(), r@.len() as int) =~= suffix);
    }
    r
}

/// Builds the configuration from the command line: the given data directory
/// or the default, the given account validated (required only for commands
/// that need one, empty otherwise), and the image as given.
pub fn config_from_cli(cli: &Cli, require_account: bool) -> (r: Result<Config, ConfigError>)
    ensures
        r is Err <==> (cli.account matches Some(a) && !is_valid_account(a@)) || (cli.account
            is None && require_account),
        cli.account matches Some(a) && !is_valid_account(a@) ==> r == Result::<
            Config,
            ConfigError,
        >::Err(ConfigError::InvalidAccountFormat),
        cli.account is None && require_account ==> r == Result::<Config, ConfigError>::Err(
            ConfigError::MissingAccount,
        ),
        r matches Ok(cfg) ==> {
            &&& cfg.image@ == cli.image@
            &&& (cli.account matches Some(a) ==> cfg.account@ == a@)
            &&& (cli.account is None ==> cfg.account@.len() == 0)
            &&& (cli.data_dir matches Some(d) ==> cfg.data_dir@ == d@)
            &&& (cli.data_dir is None ==> ends_with_data_dir_suffix(cfg.data_dir@))
        },
{
    let data_dir = match &cli.data_dir {
        Some(d) => d.clone(),
        None => default_data_dir(),
    };
    let account = match &cli.account {
        Some(v) => {
            match validate_account(v.as_str()) {
                Ok(_) => v.clone(),
                Err(e) => {
                    return Err(e);
                },
            }
        },
        None => {
            if require_account {
                return Err(ConfigError::MissingAccount);
            }
            String::new()
        },
    };
    Ok(Config { account, data_dir, image: cli.image.clone() })
}

} // verus!
