use pndev::command::Command;
use pndev::command::Setup;
use pndev::error::PnError;
use pndev::machine::Action;
use pndev::machine::Event;
use pndev::machine::Machine;
use pndev::machine::RunOutcome;

fn start_setup() -> Setup {
    Setup {
        tools: vec!["git".to_string()],
        host: "dev.example.test".to_string(),
        repos: vec![],
        apps: vec![],
        repo_path: "/home/dev/DEV/PN".to_string(),
        compose_path: "/home/dev/compose.yml".to_string(),
        home: "/home/dev".to_string(),
    }
}

fn exited(code: i32) -> Event {
    Event::Ran {
        outcome: RunOutcome::Exited {
            code,
            stdout: String::new(),
            stderr: String::new(),
        },
    }
}

fn pass_checks(m: &mut Machine) {
    m.absorb(Event::ToolProbed { present: true });
    m.absorb(Event::HostChecked { resolves: true });
}

fn expect_probe(m: &mut Machine, expected: &str, exists: bool) {
    match m.next_action() {
        Some(Action::ProbeFile { path }) => assert_eq!(path, expected),
        other => panic!("unexpected action: {:?}", other),
    }
    m.absorb(Event::FileChecked { exists });
}

#[test]
fn docker_only_start_runs_only_the_stack_up() {
    let mut m = Command::start(start_setup(), true);
    pass_checks(&mut m);
    // The up step: control-repository probe, then the compose invocation.
    expect_probe(&mut m, "/home/dev/DEV/PN/pndev", true);
    match m.next_action() {
        Some(Action::Launch { program, args, capture }) => {
            assert_eq!(program, "docker-compose");
            assert!(!capture);
            assert_eq!(
                args,
                vec![
                    "-f".to_string(),
                    "/home/dev/compose.yml".to_string(),
                    "up".to_string(),
                    "-d".to_string(),
                ]
            );
        }
        other => panic!("unexpected action: {:?}", other),
    }
    m.absorb(exited(0));
    // No start action is resolved from any source: the run is complete.
    assert!(m.next_action().is_none());
    assert_eq!(m.outcome(), Some(Ok(())));
}

#[test]
fn start_resolves_the_table_when_no_override_script_exists() {
    let mut m = Command::start(start_setup(), false);
    pass_checks(&mut m);
    expect_probe(&mut m, "/home/dev/DEV/PN/pndev", true);
    m.absorb(exited(0)); // compose up

    expect_probe(&mut m, ".pndev/start", false);
    expect_probe(&mut m, "pndev.toml", true);
    expect_probe(&mut m, "pndev.toml", true); // the table flow re-checks
    assert!(matches!(m.next_action(), Some(Action::LoadTable { .. })));
    m.absorb(Event::TableLoaded {
        outcome: Ok("start = \"bundle exec rails s\"".to_string()),
    });

    // The resolved command runs in the provisioned shell; with no
    // pass-through arguments a single trailing space is appended.
    expect_probe(&mut m, "shell.nix", true);
    expect_probe(&mut m, "/home/dev/DEV/PN/pndev", true);
    match m.next_action() {
        Some(Action::Launch { program, args, capture }) => {
            assert_eq!(program, "nix-shell");
            assert!(!capture);
            assert_eq!(
                args,
                vec![
                    "--run".to_string(),
                    "bundle exec rails s ".to_string(),
                    "shell.nix".to_string(),
                ]
            );
        }
        other => panic!("unexpected action: {:?}", other),
    }
    m.absorb(exited(130)); // interrupted by the user: still a success
    assert_eq!(m.outcome(), Some(Ok(())));
}

#[test]
fn start_falls_back_to_the_framework_convention() {
    let mut m = Command::start(start_setup(), false);
    pass_checks(&mut m);
    expect_probe(&mut m, "/home/dev/DEV/PN/pndev", true);
    m.absorb(exited(0));

    expect_probe(&mut m, ".pndev/start", false);
    expect_probe(&mut m, "pndev.toml", false);
    expect_probe(&mut m, "ember-cli-build.js", true);
    expect_probe(&mut m, "/home/dev/DEV/PN/pndev", true);
    match m.next_action() {
        Some(Action::Launch { program, args, .. }) => {
            assert_eq!(program, "nix-shell");
            assert_eq!(
                args,
                vec![
                    "--run".to_string(),
                    "yarn && yarn exec ember server".to_string(),
                ]
            );
        }
        other => panic!("unexpected action: {:?}", other),
    }
    m.absorb(exited(0));
    assert_eq!(m.outcome(), Some(Ok(())));
}

#[test]
fn start_with_nothing_runnable_fails() {
    let mut m = Command::start(start_setup(), false);
    pass_checks(&mut m);
    expect_probe(&mut m, "/home/dev/DEV/PN/pndev", true);
    m.absorb(exited(0));

    expect_probe(&mut m, ".pndev/start", false);
    expect_probe(&mut m, "pndev.toml", false);
    expect_probe(&mut m, "ember-cli-build.js", false);
    assert!(m.next_action().is_none());
    assert_eq!(m.outcome(), Some(Err(PnError::NoRunnableTarget)));
}

#[test]
fn failed_stack_up_reports_the_exit_code() {
    let mut m = Command::start(start_setup(), true);
    pass_checks(&mut m);
    expect_probe(&mut m, "/home/dev/DEV/PN/pndev", true);
    m.absorb(exited(1));
    assert_eq!(
        m.outcome(),
        Some(Err(PnError::ExecutionFailure {
            message: "Docker up failed".to_string(),
            code: 1,
        }))
    );
}

#[test]
fn absent_control_repo_is_cloned_first() {
    let mut m = Command::up(start_setup());
    pass_checks(&mut m);
    expect_probe(&mut m, "/home/dev/DEV/PN/pndev", false);
    match m.next_action() {
        Some(Action::EnsureDir { path }) => assert_eq!(path, "/home/dev/DEV/PN"),
        other => panic!("unexpected action: {:?}", other),
    }
    m.absorb(Event::DirEnsured { outcome: Ok(()) });
    match m.next_action() {
        Some(Action::Launch { program, args, capture }) => {
            assert_eq!(program, "git");
            assert!(capture);
            assert_eq!(args[2], "git@github.com:PrecisionNutrition/pndev.git");
            assert_eq!(args[3], "/home/dev/DEV/PN/pndev");
        }
        other => panic!("unexpected action: {:?}", other),
    }
    m.absorb(exited(0));
    match m.next_action() {
        Some(Action::Launch { program, .. }) => assert_eq!(program, "docker-compose"),
        other => panic!("unexpected action: {:?}", other),
    }
    m.absorb(exited(0));
    assert_eq!(m.outcome(), Some(Ok(())));
}
