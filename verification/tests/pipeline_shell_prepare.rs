use pndev::command::Command;
use pndev::command::Setup;
use pndev::error::PnError;
use pndev::machine::Action;
use pndev::machine::Event;
use pndev::machine::Machine;
use pndev::machine::RunOutcome;

fn shell_setup() -> Setup {
    Setup {
        tools: vec!["git".to_string()],
        host: "dev.example.test".to_string(),
        repos: vec![],
        apps: vec![],
        repo_path: "/home/dev/DEV/PN".to_string(),
        compose_path: "/home/dev/compose.yml".to_string(),
        home: "/home/dev".to_string(),
    }
}

fn exited(code: i32) -> Event {
    Event::Ran {
        outcome: RunOutcome::Exited {
            code,
            stdout: String::new(),
            stderr: String::new(),
        },
    }
}

fn pass_checks_and_up(m: &mut Machine) {
    m.absorb(Event::ToolProbed { present: true });
    m.absorb(Event::HostChecked { resolves: true });
    m.absorb(Event::FileChecked { exists: true });
    m.absorb(exited(0));
}

#[test]
fn bare_shell_passes_only_the_config_path() {
    let mut m = Command::shell(shell_setup(), vec![]);
    pass_checks_and_up(&mut m);
    match m.next_action() {
        Some(Action::ProbeFile { path }) => assert_eq!(path, "shell.nix"),
        other => panic!("unexpected action: {:?}", other),
    }
    m.absorb(Event::FileChecked { exists: true });
    m.absorb(Event::FileChecked { exists: true }); // control repository present
    match m.next_action() {
        Some(Action::Launch { program, args, .. }) => {
            assert_eq!(program, "nix-shell");
            assert_eq!(args, vec!["shell.nix".to_string()]);
        }
        other => panic!("unexpected action: {:?}", other),
    }
    m.absorb(exited(0));
    assert_eq!(m.outcome(), Some(Ok(())));
}

#[test]
fn shell_with_arguments_runs_them() {
    let mut m = Command::shell(
        shell_setup(),
        vec!["rake".to_string(), "db:migrate".to_string()],
    );
    pass_checks_and_up(&mut m);
    m.absorb(Event::FileChecked { exists: true });
    m.absorb(Event::FileChecked { exists: true });
    match m.next_action() {
        Some(Action::Launch { args, .. }) => {
            assert_eq!(
                args,
                vec![
                    "--run".to_string(),
                    "rake db:migrate".to_string(),
                    "shell.nix".to_string(),
                ]
            );
        }
        other => panic!("unexpected action: {:?}", other),
    }
}

#[test]
fn prepare_requires_the_credentials_file() {
    let mut m = Command::prepare(shell_setup(), false);
    pass_checks_and_up(&mut m);
    match m.next_action() {
        Some(Action::ProbeFile { path }) => {
            assert_eq!(path, "/home/dev/.pn_anonymize_creds");
        }
        other => panic!("unexpected action: {:?}", other),
    }
    m.absorb(Event::FileChecked { exists: false });
    assert!(m.next_action().is_none());
    assert_eq!(m.outcome(), Some(Err(PnError::CredsMissing)));
}

#[test]
fn prepare_with_big_passes_the_flag_to_the_script() {
    let mut m = Command::prepare(shell_setup(), true);
    pass_checks_and_up(&mut m);
    m.absorb(Event::FileChecked { exists: true }); // credentials present
    m.absorb(Event::FileChecked { exists: true }); // local config file
    m.absorb(Event::FileChecked { exists: true }); // control repository
    match m.next_action() {
        Some(Action::Launch { args, .. }) => {
            assert_eq!(
                args,
                vec![
                    "--run".to_string(),
                    "./.pndev/prepare --big".to_string(),
                    "shell.nix".to_string(),
                ]
            );
        }
        other => panic!("unexpected action: {:?}", other),
    }
}

#[test]
fn invalid_table_text_fails_the_table_flow() {
    let mut m = Command::run(shell_setup(), Some("lint".to_string()), vec![]);
    pass_checks_and_up(&mut m);
    m.absorb(Event::FileChecked { exists: false });
    m.absorb(Event::FileChecked { exists: true });
    m.absorb(Event::FileChecked { exists: true });
    m.absorb(Event::TableLoaded { outcome: Ok("not == toml [".to_string()) });
    assert_eq!(m.outcome(), Some(Err(PnError::TableInvalid)));
}

#[test]
fn malformed_table_entry_fails_the_table_flow() {
    let mut m = Command::run(shell_setup(), Some("lint".to_string()), vec![]);
    pass_checks_and_up(&mut m);
    m.absorb(Event::FileChecked { exists: false });
    m.absorb(Event::FileChecked { exists: true });
    m.absorb(Event::FileChecked { exists: true });
    m.absorb(Event::TableLoaded { outcome: Ok("lint = { par = 1 }".to_string()) });
    assert_eq!(
        m.outcome(),
        Some(Err(PnError::ActionMalformed { action: "lint".to_string() }))
    );
}

#[test]
fn missing_table_inside_the_flow_is_reported() {
    let mut m = Command::run(shell_setup(), Some("lint".to_string()), vec![]);
    pass_checks_and_up(&mut m);
    m.absorb(Event::FileChecked { exists: false }); // no override script
    m.absorb(Event::FileChecked { exists: true }); // first table probe
    m.absorb(Event::FileChecked { exists: false }); // gone on the re-check
    assert_eq!(m.outcome(), Some(Err(PnError::TableNotFound)));
}

#[test]
fn killed_process_reports_no_exit_code() {
    let mut m = Command::up(shell_setup());
    m.absorb(Event::ToolProbed { present: true });
    m.absorb(Event::HostChecked { resolves: true });
    m.absorb(Event::FileChecked { exists: true });
    m.absorb(Event::Ran { outcome: RunOutcome::NoCode });
    assert_eq!(
        m.outcome(),
        Some(Err(PnError::NoExitCode { message: "Docker up failed".to_string() }))
    );
}

#[test]
fn unlaunchable_control_repo_clone_fails() {
    let mut m = Command::up(shell_setup());
    m.absorb(Event::ToolProbed { present: true });
    m.absorb(Event::HostChecked { resolves: true });
    m.absorb(Event::FileChecked { exists: false });
    m.absorb(Event::DirEnsured { outcome: Err("read-only file system".to_string()) });
    assert_eq!(
        m.outcome(),
        Some(Err(PnError::SystemError { detail: "read-only file system".to_string() }))
    );
}

#[test]
fn unlaunchable_tool_reports_the_detail() {
    let mut m = Command::up(shell_setup());
    m.absorb(Event::ToolProbed { present: true });
    m.absorb(Event::HostChecked { resolves: true });
    m.absorb(Event::FileChecked { exists: false });
    m.absorb(Event::DirEnsured { outcome: Ok(()) });
    m.absorb(Event::Ran {
        outcome: RunOutcome::NotLaunched { detail: "No such file or directory".to_string() },
    });
    assert_eq!(
        m.outcome(),
        Some(Err(PnError::LaunchFailed { detail: "No such file or directory".to_string() }))
    );
}
