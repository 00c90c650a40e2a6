use pndev::doctor::doctor;
use pndev::doctor::github_auth_ok;
use pndev::shell::docker_build_args;
use pndev::shell::docker_up_args;
use pndev::shell::docker_verb_args;
use pndev::shell::git_checkout_args;
use pndev::shell::git_clone_args;
use pndev::shell::purge_caches_args;
use pndev::machine::shell_action;
use pndev::machine::Action;
use pndev::shell::ExecutionOutcome;
use pndev::shell::Shell;

#[test]
fn shell_builder_accumulates_an_invocation() {
    let sh = Shell::new();
    assert!(sh.cmd.is_none());
    assert!(sh.args.is_empty());
    assert_eq!(sh.error_msg, "Shell command failed");
    let sh = Shell::new()
        .cmd("docker-compose")
        .args(vec!["ps".to_string()])
        .error_msg("Docker ps failed");
    assert_eq!(sh.cmd.as_deref(), Some("docker-compose"));
    assert_eq!(sh.args, vec!["ps".to_string()]);
    assert_eq!(sh.error_msg, "Docker ps failed");
}

#[test]
fn compose_argument_lists() {
    assert_eq!(
        docker_up_args("/c.yml", false),
        vec!["-f", "/c.yml", "up", "-d"]
    );
    assert_eq!(
        docker_up_args("/c.yml", true),
        vec!["-f", "/c.yml", "up", "-d", "--force-recreate"]
    );
    assert_eq!(docker_verb_args("/c.yml", "down"), vec!["-f", "/c.yml", "down"]);
    assert_eq!(
        docker_build_args("/c.yml"),
        vec!["-f", "/c.yml", "build", "--no-cache"]
    );
}

#[test]
fn git_argument_lists() {
    assert_eq!(
        git_clone_args("fitpro", "/home/dev/DEV/PN"),
        vec![
            "clone",
            "--recurse-submodules",
            "git@github.com:PrecisionNutrition/fitpro.git",
            "/home/dev/DEV/PN/fitpro",
        ]
    );
    assert_eq!(
        git_checkout_args("BR-9"),
        vec!["checkout", "-b", "BR-9", "origin/BR-9"]
    );
}

#[test]
fn purge_argument_list() {
    assert_eq!(
        purge_caches_args(),
        vec!["-rf", ".nix-gems", "vendor/cache", "node_modules", ".nix-node"]
    );
}

#[test]
fn github_ssh_probe_passes_only_on_code_one() {
    assert!(github_auth_ok(Some(1)));
    assert!(github_auth_ok(Some(256)));
    assert!(!github_auth_ok(Some(0)));
    assert!(!github_auth_ok(Some(255)));
    assert!(!github_auth_ok(Some(-254)));
    assert!(!github_auth_ok(None));
}

#[test]
fn doctor_report_aggregates_verdicts() {
    let report = doctor(vec![true, true, false], true, Some(1), false);
    assert_eq!(report.tools_present, vec![true, true, false]);
    assert!(report.host_resolves);
    assert!(report.github_ssh_allowed);
    assert!(!report.creds_present);
    assert!(!report.all_ok());

    let healthy = doctor(vec![true, true], true, Some(1), true);
    assert!(healthy.all_ok());

    let no_probe = doctor(vec![], true, None, true);
    assert!(!no_probe.all_ok());
}

#[test]
fn invocation_without_a_program_cannot_launch() {
    let err = shell_action(Shell::new(), false).unwrap_err();
    assert_eq!(err.message(), "missing cmd");
}

#[test]
fn invocation_with_a_program_launches_as_assembled() {
    let sh = Shell::new()
        .cmd("rm")
        .args(vec!["-rf".to_string(), ".nix-gems".to_string()]);
    match shell_action(sh, false) {
        Ok(Action::Launch { program, args, capture }) => {
            assert_eq!(program, "rm");
            assert_eq!(args, vec!["-rf".to_string(), ".nix-gems".to_string()]);
            assert!(!capture);
        }
        other => panic!("unexpected: {:?}", other),
    }
}

#[test]
fn classification_uses_the_dual_modulus_rule() {
    let sh = Shell::new()
        .cmd("docker-compose")
        .error_msg("Docker up failed");
    assert_eq!(
        sh.classify(0, None),
        Ok(ExecutionOutcome { raw_exit_code: 0, succeeded: true, captured_stderr: None })
    );
    assert!(sh.classify(130, None).is_ok());
    assert!(sh.classify(255, None).is_ok());
    let err = sh.classify(137, None).unwrap_err();
    assert_eq!(err.message(), "Docker up failed (exit code: 137)");
}
