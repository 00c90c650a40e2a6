use std::str::FromStr;

use pndev::command::Command;
use pndev::command::ParseError;
use pndev::command::ResetType;
use pndev::command::Setup;
use pndev::config::Config;
use pndev::error::PnError;

#[test]
fn default_config_paths() {
    let config = Config::default();
    assert_eq!(config.repo_path("/home/dev"), "/home/dev/DEV/PN");
    assert_eq!(
        config.docker_compose_path("/home/dev"),
        "/home/dev/DEV/PN/pndev/catalog/docker-compose.yml"
    );
}

#[test]
fn compose_path_override_wins() {
    let config = Config {
        install_path: "DEV/PN".to_string(),
        docker_compose_path: Some("custom/compose.yml".to_string()),
    };
    assert_eq!(
        config.docker_compose_path("/home/dev"),
        "/home/dev/custom/compose.yml"
    );
}

#[test]
fn standard_setup_values() {
    let setup = Setup::standard(&Config::default(), "/home/dev");
    assert_eq!(setup.tools, vec!["git", "nix", "docker", "docker-compose"]);
    assert_eq!(setup.host, "es-dev.precisionnutrition.com");
    assert_eq!(setup.repos.len(), 10);
    assert_eq!(setup.repos[0], "eternal-sledgehammer");
    assert_eq!(setup.repos[9], "academy");
    assert_eq!(setup.apps.len(), 7);
    assert_eq!(setup.apps[2], "fitpro");
    assert_eq!(setup.repo_path, "/home/dev/DEV/PN");
    assert_eq!(
        setup.compose_path,
        "/home/dev/DEV/PN/pndev/catalog/docker-compose.yml"
    );
    assert_eq!(setup.home, "/home/dev");
}

#[test]
fn reset_type_tokens() {
    assert!(matches!(ResetType::from_str("scratch"), Ok(ResetType::Scratch)));
    assert!(matches!(ResetType::from_str("docker"), Ok(ResetType::Docker)));
    assert!(matches!(ResetType::from_str("deps"), Ok(ResetType::Deps)));
    let err: ParseError = ResetType::from_str("everything").unwrap_err();
    assert_eq!(err.message(), "options are: docker, deps, scratch");
}

#[test]
fn builder_accumulates_fields() {
    let cmd = Command::new()
        .name(Some("fitpro".to_string()))
        .pr(Some("BR-1".to_string()))
        .all(true)
        .docker_only(true)
        .arguments(vec!["x".to_string()]);
    assert_eq!(cmd.name.as_deref(), Some("fitpro"));
    assert_eq!(cmd.pr.as_deref(), Some("BR-1"));
    assert!(cmd.all);
    assert!(cmd.docker_only);
    assert_eq!(cmd.arguments, vec!["x".to_string()]);
}

#[test]
fn error_messages_are_exact() {
    let e = PnError::ToolMissing { tool: "git".to_string() };
    assert_eq!(e.message(), "git not installed, run pndev doctor for help");
    assert_eq!(
        PnError::HostUnresolved.message(),
        "es-dev not configured, run pndev doctor for help"
    );
    assert_eq!(PnError::UserAbort.message(), "User abort");
    assert_eq!(
        PnError::CommandUnspecified.message(),
        "Please specify a command to run"
    );
    assert_eq!(
        PnError::AppUnspecified.message(),
        "Please specify an app name or --all"
    );
    assert_eq!(
        PnError::PrUnspecified.message(),
        "Please specify a Pull Request (branch name)"
    );
    assert_eq!(
        PnError::NoRunnableTarget.message(),
        "No Ruby or Ember app found"
    );
    assert_eq!(
        PnError::CredsMissing.message(),
        "Please create ~/.pn_anonymize_creds"
    );
    assert_eq!(PnError::TableNotFound.message(), "pndev.toml not found");
    assert_eq!(
        PnError::ActionNotFound { action: "lint".to_string() }.message(),
        "Command lint not found"
    );
    assert_eq!(
        PnError::ActionMalformed { action: "start".to_string() }.message(),
        "Invalid start command"
    );
    assert_eq!(PnError::MissingProgram.message(), "missing cmd");
    assert_eq!(
        PnError::ExecutionFailure { message: "Docker up failed".to_string(), code: 137 }
            .message(),
        "Docker up failed (exit code: 137)"
    );
    assert_eq!(
        PnError::ExecutionFailure { message: "Shell command failed".to_string(), code: -9 }
            .message(),
        "Shell command failed (exit code: -9)"
    );
    assert_eq!(
        PnError::LaunchFailed { detail: "No such file or directory (os error 2)".to_string() }
            .message(),
        "No such file or directory (os error 2) error"
    );
    assert_eq!(
        PnError::ToolOutput { detail: "fatal: not a git repository".to_string() }.message(),
        "fatal: not a git repository"
    );
    assert_eq!(
        PnError::RepoUrlUnknown.message(),
        "Could not determine repo url"
    );
}
