use pndev::command::Command;
use pndev::command::Setup;
use pndev::error::PnError;
use pndev::machine::Action;
use pndev::machine::Event;
use pndev::machine::Machine;
use pndev::machine::RunOutcome;

fn two_app_setup() -> Setup {
    Setup {
        tools: vec!["git".to_string()],
        host: "dev.example.test".to_string(),
        repos: vec![],
        apps: vec!["one".to_string(), "two".to_string()],
        repo_path: "/home/dev/DEV/PN".to_string(),
        compose_path: "/home/dev/compose.yml".to_string(),
        home: "/home/dev".to_string(),
    }
}

fn ran(code: i32, stdout: &str, stderr: &str) -> Event {
    Event::Ran {
        outcome: RunOutcome::Exited {
            code,
            stdout: stdout.to_string(),
            stderr: stderr.to_string(),
        },
    }
}

fn pass_checks_and_up(m: &mut Machine) {
    m.absorb(Event::ToolProbed { present: true });
    m.absorb(Event::HostChecked { resolves: true });
    m.absorb(Event::FileChecked { exists: true });
    m.absorb(ran(0, "", ""));
}

fn expect_git(m: &mut Machine, expected_args: &[&str]) {
    match m.next_action() {
        Some(Action::Launch { program, args, .. }) => {
            assert_eq!(program, "git");
            let expected: Vec<String> = expected_args.iter().map(|a| a.to_string()).collect();
            assert_eq!(args, expected);
        }
        other => panic!("unexpected action: {:?}", other),
    }
}

#[test]
fn review_all_continues_past_a_missing_branch_and_a_failed_checkout() {
    let mut m = Command::review(two_app_setup(), Some("BR-1".to_string()), None);
    pass_checks_and_up(&mut m);

    // First application: the remote branch probe fails; the walk warns and
    // moves on without checking anything out.
    match m.next_action() {
        Some(Action::ChangeDir { path }) => assert_eq!(path, "/home/dev/DEV/PN/one"),
        other => panic!("unexpected action: {:?}", other),
    }
    m.absorb(Event::DirChanged { outcome: Ok(()) });
    expect_git(&mut m, &["fetch"]);
    m.absorb(ran(0, "", ""));
    expect_git(&mut m, &["ls-remote", "--exit-code", "origin", "BR-1"]);
    m.absorb(ran(2, "", ""));

    // Second application: the branch exists but the checkout itself fails;
    // the walk still completes.
    match m.next_action() {
        Some(Action::ChangeDir { path }) => assert_eq!(path, "/home/dev/DEV/PN/two"),
        other => panic!("unexpected action: {:?}", other),
    }
    m.absorb(Event::DirChanged { outcome: Ok(()) });
    expect_git(&mut m, &["fetch"]);
    m.absorb(ran(0, "", ""));
    expect_git(&mut m, &["ls-remote", "--exit-code", "origin", "BR-1"]);
    m.absorb(ran(0, "", ""));
    expect_git(&mut m, &["checkout", "-b", "BR-1", "origin/BR-1"]);
    m.absorb(ran(128, "", "fatal: branch exists"));

    assert!(m.next_action().is_none());
    assert_eq!(m.outcome(), Some(Ok(())));
}

#[test]
fn review_fetch_failure_stops_the_walk() {
    let mut m = Command::review(two_app_setup(), Some("BR-1".to_string()), None);
    pass_checks_and_up(&mut m);
    m.absorb(Event::DirChanged { outcome: Ok(()) });
    m.absorb(ran(1, "", "fatal: unable to fetch"));
    assert!(m.next_action().is_none());
    assert_eq!(
        m.outcome(),
        Some(Err(PnError::ToolOutput { detail: "fatal: unable to fetch".to_string() }))
    );
}

#[test]
fn review_without_a_branch_is_rejected() {
    let mut m = Command::review(two_app_setup(), None, Some("one".to_string()));
    pass_checks_and_up(&mut m);
    assert!(m.next_action().is_none());
    assert_eq!(m.outcome(), Some(Err(PnError::PrUnspecified)));
}

#[test]
fn run_prefers_the_override_script() {
    let mut m = Command::run(
        two_app_setup(),
        Some("lint".to_string()),
        vec!["--fix".to_string()],
    );
    pass_checks_and_up(&mut m);
    match m.next_action() {
        Some(Action::ProbeFile { path }) => assert_eq!(path, "./.pndev/lint"),
        other => panic!("unexpected action: {:?}", other),
    }
    m.absorb(Event::FileChecked { exists: true });
    // Provisioner config flow, control-repository check, then the script
    // with the pass-through arguments appended.
    m.absorb(Event::FileChecked { exists: true });
    m.absorb(Event::FileChecked { exists: true });
    match m.next_action() {
        Some(Action::Launch { program, args, .. }) => {
            assert_eq!(program, "nix-shell");
            assert_eq!(
                args,
                vec![
                    "--run".to_string(),
                    "./.pndev/lint --fix".to_string(),
                    "shell.nix".to_string(),
                ]
            );
        }
        other => panic!("unexpected action: {:?}", other),
    }
    m.absorb(ran(0, "", ""));
    assert_eq!(m.outcome(), Some(Ok(())));
}

#[test]
fn run_falls_back_to_the_table_entry() {
    let mut m = Command::run(two_app_setup(), Some("lint".to_string()), vec![]);
    pass_checks_and_up(&mut m);
    m.absorb(Event::FileChecked { exists: false }); // no override script
    m.absorb(Event::FileChecked { exists: true }); // a table exists
    m.absorb(Event::FileChecked { exists: true }); // the table flow re-checks
    m.absorb(Event::TableLoaded { outcome: Ok("lint = \"yarn lint\"".to_string()) });
    m.absorb(Event::FileChecked { exists: false }); // no local config file
    // The version-control root supplies the config path; the captured
    // output's trailing newline is dropped.
    expect_git(&mut m, &["rev-parse", "--show-toplevel"]);
    m.absorb(ran(0, "/src/mono\n", ""));
    m.absorb(Event::FileChecked { exists: true });
    match m.next_action() {
        Some(Action::Launch { args, .. }) => {
            assert_eq!(
                args,
                vec![
                    "--run".to_string(),
                    "yarn lint ".to_string(),
                    "/src/mono/shell.nix".to_string(),
                ]
            );
        }
        other => panic!("unexpected action: {:?}", other),
    }
    m.absorb(ran(0, "", ""));
    assert_eq!(m.outcome(), Some(Ok(())));
}

#[test]
fn run_with_nothing_found_reports_the_action() {
    let mut m = Command::run(two_app_setup(), Some("lint".to_string()), vec![]);
    pass_checks_and_up(&mut m);
    m.absorb(Event::FileChecked { exists: false });
    m.absorb(Event::FileChecked { exists: false });
    assert_eq!(
        m.outcome(),
        Some(Err(PnError::ActionNotFound { action: "lint".to_string() }))
    );
}

#[test]
fn run_without_a_name_is_rejected() {
    let mut m = Command::run(two_app_setup(), None, vec![]);
    pass_checks_and_up(&mut m);
    assert_eq!(m.outcome(), Some(Err(PnError::CommandUnspecified)));
}

#[test]
fn gh_opens_the_repository_page() {
    let mut m = Command::gh(two_app_setup());
    expect_git(&mut m, &["remote", "get-url", "origin"]);
    m.absorb(ran(0, "git@github.com:PrecisionNutrition/pndev.git\n", ""));
    match m.next_action() {
        Some(Action::OpenUrl { url }) => {
            assert_eq!(url, "https://github.com/PrecisionNutrition/pndev.git\n");
        }
        other => panic!("unexpected action: {:?}", other),
    }
    m.absorb(Event::Opened);
    assert_eq!(m.outcome(), Some(Ok(())));
}

#[test]
fn gh_with_an_unrecognized_remote_fails() {
    let mut m = Command::gh(two_app_setup());
    m.absorb(ran(0, "no remote shape here", ""));
    assert_eq!(m.outcome(), Some(Err(PnError::RepoUrlUnknown)));
}
