use pndev::command::Command;
use pndev::command::Setup;
use pndev::error::PnError;
use pndev::machine::Action;
use pndev::machine::Event;
use pndev::machine::Machine;
use pndev::machine::RunOutcome;

fn five_repo_setup() -> Setup {
    Setup {
        tools: vec!["git".to_string()],
        host: "dev.example.test".to_string(),
        repos: vec![
            "alpha".to_string(),
            "beta".to_string(),
            "gamma".to_string(),
            "delta".to_string(),
            "epsilon".to_string(),
        ],
        apps: vec![],
        repo_path: "/home/dev/DEV/PN".to_string(),
        compose_path: "/home/dev/compose.yml".to_string(),
        home: "/home/dev".to_string(),
    }
}

fn exited(code: i32, stderr: &str) -> Event {
    Event::Ran {
        outcome: RunOutcome::Exited {
            code,
            stdout: String::new(),
            stderr: stderr.to_string(),
        },
    }
}

fn pass_checks(m: &mut Machine) {
    m.absorb(Event::ToolProbed { present: true });
    m.absorb(Event::HostChecked { resolves: true });
}

fn pass_up_step(m: &mut Machine) {
    assert!(matches!(m.next_action(), Some(Action::ProbeFile { .. })));
    m.absorb(Event::FileChecked { exists: true });
    match m.next_action() {
        Some(Action::Launch { program, .. }) => assert_eq!(program, "docker-compose"),
        other => panic!("unexpected action: {:?}", other),
    }
    m.absorb(exited(0, ""));
}

fn clone_target_ok(m: &mut Machine, expected: &str) {
    match m.next_action() {
        Some(Action::EnsureDir { path }) => assert_eq!(path, "/home/dev/DEV/PN"),
        other => panic!("unexpected action: {:?}", other),
    }
    m.absorb(Event::DirEnsured { outcome: Ok(()) });
    match m.next_action() {
        Some(Action::Launch { program, args, capture }) => {
            assert_eq!(program, "git");
            assert!(capture);
            assert_eq!(
                args,
                vec![
                    "clone".to_string(),
                    "--recurse-submodules".to_string(),
                    format!("git@github.com:PrecisionNutrition/{}.git", expected),
                    format!("/home/dev/DEV/PN/{}", expected),
                ]
            );
        }
        other => panic!("unexpected action: {:?}", other),
    }
    m.absorb(exited(0, ""));
}

#[test]
fn clone_all_walks_the_list_in_order_and_stops_at_the_first_failure() {
    let mut m = Command::clone(five_repo_setup(), None, true);
    pass_checks(&mut m);
    pass_up_step(&mut m);

    clone_target_ok(&mut m, "alpha");
    clone_target_ok(&mut m, "beta");

    // Third target: its clone fails; the fourth and fifth are never
    // attempted and the reported error is the third target's output.
    m.absorb(Event::DirEnsured { outcome: Ok(()) });
    match m.next_action() {
        Some(Action::Launch { args, .. }) => {
            assert_eq!(args[2], "git@github.com:PrecisionNutrition/gamma.git");
        }
        other => panic!("unexpected action: {:?}", other),
    }
    m.absorb(exited(128, "fatal: repository not found"));
    assert!(m.next_action().is_none());
    assert_eq!(
        m.outcome(),
        Some(Err(PnError::ToolOutput {
            detail: "fatal: repository not found".to_string()
        }))
    );
}

#[test]
fn clone_all_completes_after_the_last_target() {
    let mut m = Command::clone(five_repo_setup(), None, true);
    pass_checks(&mut m);
    pass_up_step(&mut m);
    for name in ["alpha", "beta", "gamma", "delta", "epsilon"] {
        clone_target_ok(&mut m, name);
    }
    assert!(m.next_action().is_none());
    assert_eq!(m.outcome(), Some(Ok(())));
}

#[test]
fn clone_single_target_uses_the_name() {
    let mut m = Command::clone(five_repo_setup(), Some("fitpro".to_string()), false);
    pass_checks(&mut m);
    pass_up_step(&mut m);
    clone_target_ok(&mut m, "fitpro");
    assert_eq!(m.outcome(), Some(Ok(())));
}

#[test]
fn clone_without_a_target_is_rejected() {
    let mut m = Command::clone(five_repo_setup(), None, false);
    pass_checks(&mut m);
    pass_up_step(&mut m);
    assert!(m.next_action().is_none());
    assert_eq!(m.outcome(), Some(Err(PnError::AppUnspecified)));
}
