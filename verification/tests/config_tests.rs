use signal_link::config::{
    config_from_cli, default_data_dir, default_image, validate_account, Cli, Commands,
};

fn base_cli(command: Commands) -> Cli {
    Cli {
        command: Some(command),
        account: None,
        data_dir: None,
        image: default_image().to_string(),
    }
}

#[test]
fn validate_account_accepts_international_format() {
    assert!(validate_account("+33612345678").is_ok());
    assert!(validate_account("33612345678").is_err());
}

#[test]
fn config_from_cli_requires_account_when_requested() {
    let cli = base_cli(Commands::ListDevices);
    let err = config_from_cli(&cli, true).expect_err("expected missing account error");
    assert!(err.message().contains("--account is required"));
}

#[test]
fn config_from_cli_builds_config() {
    let cli = Cli {
        command: Some(Commands::ListDevices),
        account: Some("+33612345678".to_string()),
        data_dir: Some("/tmp/signal-data".to_string()),
        image: "image:tag".to_string(),
    };
    let cfg = config_from_cli(&cli, true).expect("config");
    assert_eq!(cfg.account, "+33612345678");
    assert_eq!(cfg.data_dir, "/tmp/signal-data");
    assert_eq!(cfg.image, "image:tag");
}

#[test]
fn config_from_cli_allows_empty_account_when_not_required() {
    let cli = base_cli(Commands::Wizard);
    let cfg = config_from_cli(&cli, false).expect("config without account");
    assert_eq!(cfg.account, "");
}

#[test]
fn config_from_cli_rejects_malformed_account() {
    let mut cli = base_cli(Commands::ListDevices);
    cli.account = Some("33612345678".to_string());
    let err = config_from_cli(&cli, true).expect_err("expected invalid account error");
    assert!(err.message().contains("must start with '+'"));
}

#[test]
fn default_data_dir_uses_home_suffix() {
    let dir = default_data_dir();
    assert!(dir.ends_with("signal-cli-data"));
}
