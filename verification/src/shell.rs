//! Assembly of subprocess invocations.
//!
//! [`Shell`] is the builder the pipeline uses to put together one subprocess
//! invocation: a program, its argument list, and the message reported when
//! the run fails. The free functions build the exact argument lists of the
//! wrapped collaborators: the container orchestrator is always invoked with
//! an explicit compose-file path plus a verb, version-control operations
//! resolve a target name against the fixed remote-URL template, and the
//! environment provisioner is invoked either bare or in its
//! `--run <command> <config-path>` form.

use vstd::prelude::*;
use crate::config::path_join;
use crate::error::PnError;
use crate::error::PnErrorV;
use crate::exitcode::is_success_code;
use crate::strutil::views_of;
use crate::urlparse::clone_url;

verus! {

/// The result of one subprocess invocation. Success is never literal
/// zero-equality: it is the dual-modulus classification of
/// [`crate::exitcode::is_success_code`], recorded in `succeeded`.
#[derive(Debug, Clone, PartialEq, Eq)]
pub struct ExecutionOutcome {
    /// The exit code the process ended with.
    pub raw_exit_code: i32,
    /// Whether the code classifies as success.
    pub succeeded: bool,
    /// The captured error stream, for the read-oriented calls that capture
    /// rather than inherit their streams.
    pub captured_stderr: Option<Vec<u8>>,
}

/// The classification invariant of an [`ExecutionOutcome`].
pub open spec fn outcome_consistent(o: ExecutionOutcome) -> bool {
    o.succeeded == is_success_code(o.raw_exit_code as int)
}

/// One subprocess invocation being assembled: program, arguments, and the
/// message to report when the run fails.
#[derive(Debug)]
pub struct Shell {
    /// The program to launch; an invocation without one cannot be spawned.
    pub cmd: Option<String>,
    /// The argument list, in order.
    pub args: Vec<String>,
    /// The per-call-site failure message.
    pub error_msg: String,
}

/// The mathematical shape of a [`Shell`] invocation.
pub ghost struct ShellV {
    pub cmd: Option<Seq<char>>,
    pub args: Seq<Seq<char>>,
    pub error_msg: Seq<char>,
}

impl View for Shell {
    type V = ShellV;

    open spec fn view(&self) -> ShellV {
        ShellV {
            cmd: match self.cmd {
                Some(ref c) => Some(c@),
                None => None,
            },
            args: views_of(self.args@),
            error_msg: self.error_msg@,
        }
    }
}

impl Shell {
    /// A fresh invocation: no program, no arguments, the stock failure
    /// message.
    pub fn new() -> (r: Self)
        ensures
            r@.cmd is None,
            r@.args.len() == 0,
            r@.error_msg == "Shell command failed"@,
    {
        Shell { cmd: None, args: Vec::new(), error_msg: "Shell command failed".to_owned() }
    }

    /// Sets the program to launch.
    pub fn cmd(self, cmd: &str) -> (r: Self)
        ensures
            r@ == (ShellV { cmd: Some(cmd@), ..self@ }),
    {
        Shell { cmd: Some(cmd.to_owned()), ..self }
    }

    /// Sets the argument list.
    pub fn args(self, args: Vec<String>) -> (r: Self)
        ensures
            r@ == (ShellV { args: views_of(args@), ..self@ }),
    {
        Shell { args, ..self }
    }

    /// Sets the failure message for this call site.
    pub fn error_msg(self, error_msg: &str) -> (r: Self)
        ensures
            r@ == (ShellV { error_msg: error_msg@, ..self@ }),
    {
        Shell { error_msg: error_msg.to_owned(), ..self }
    }

    /// Classifies a finished run of this invocation: a successful code
    /// yields the outcome, any other code yields the failure carrying this
    /// call site's message and the code itself.
    pub fn classify(&self, code: i32, captured_stderr: Option<Vec<u8>>) -> (r: Result<
        ExecutionOutcome,
        PnError,
    >)
        ensures
            is_success_code(code as int) ==> (r matches Ok(o) && outcome_consistent(o)
                && o.raw_exit_code == code && o.succeeded),
            !is_success_code(code as int) ==> (r matches Err(e) && e@
                == (PnErrorV::ExecutionFailure { message: self@.error_msg, code: code as int })),
    {
        if crate::exitcode::is_success(code) {
            Ok(ExecutionOutcome { raw_exit_code: code, succeeded: true, captured_stderr })
        } else {
            Err(PnError::ExecutionFailure { message: self.error_msg.clone(), code })
        }
    }
}

/// The compose invocation tail for bringing the stack up, optionally
/// forcing recreation of the containers.
pub open spec fn compose_up_tail(force_recreate: bool) -> Seq<Seq<char>> {
    if force_recreate {
        seq!["up"@, "-d"@, "--force-recreate"@]
    } else {
        seq!["up"@, "-d"@]
    }
}

/// Arguments for the container orchestrator: the compose-file path then the
/// up verb.
pub fn docker_up_args(compose_path: &str, force_recreate: bool) -> (r: Vec<String>)
    ensures
        views_of(r@) == seq!["-f"@, compose_path@] + compose_up_tail(force_recreate),
{
    let mut args: Vec<String> = Vec::new();
    args.push("-f".to_owned());
    args.push(compose_path.to_owned());
    args.push("up".to_owned());
    args.push("-d".to_owned());
    if force_recreate {
        args.push("--force-recreate".to_owned());
        proof {
            assert(views_of(args@) =~= seq!["-f"@, compose_path@] + compose_up_tail(true));
        }
    } else {
        proof {
            assert(views_of(args@) =~= seq!["-f"@, compose_path@] + compose_up_tail(false));
        }
    }
    args
}

/// Arguments for the container orchestrator with a single verb after the
/// compose-file path (`down` or `ps`).
pub fn docker_verb_args(compose_path: &str, verb: &str) -> (r: Vec<String>)
    ensures
        views_of(r@) == seq!["-f"@, compose_path@, verb@],
{
    let mut args: Vec<String> = Vec::new();
    args.push("-f".to_owned());
    args.push(compose_path.to_owned());
    args.push(verb.to_owned());
    proof {
        assert(views_of(args@) =~= seq!["-f"@, compose_path@, verb@]);
    }
    args
}

/// Arguments for rebuilding the container images without cache.
pub fn docker_build_args(compose_path: &str) -> (r: Vec<String>)
    ensures
        views_of(r@) == seq!["-f"@, compose_path@, "build"@, "--no-cache"@],
{
    let mut args: Vec<String> = Vec::new();
    args.push("-f".to_owned());
    args.push(compose_path.to_owned());
    args.push("build".to_owned());
    args.push("--no-cache".to_owned());
    proof {
        assert(views_of(args@) =~= seq!["-f"@, compose_path@, "build"@, "--no-cache"@]);
    }
    args
}

/// Arguments for cloning a target into the workspace: the fixed remote URL
/// template and the destination under the workspace root.
pub fn git_clone_args(name: &str, repo_path: &str) -> (r: Vec<String>)
    ensures
        views_of(r@) == seq![
            "clone"@,
            "--recurse-submodules"@,
            "git@github.com:PrecisionNutrition/"@ + name@ + ".git"@,
            path_join(repo_path@, name@),
        ],
{
    let mut args: Vec<String> = Vec::new();
    args.push("clone".to_owned());
    args.push("--recurse-submodules".to_owned());
    args.push(clone_url(name));
    args.push(crate::config::path_concat(repo_path, name));
    proof {
        assert(views_of(args@) =~= seq![
            "clone"@,
            "--recurse-submodules"@,
            "git@github.com:PrecisionNutrition/"@ + name@ + ".git"@,
            path_join(repo_path@, name@),
        ]);
    }
    args
}

/// Arguments for fast-forwarding the current clone.
pub fn git_pull_args() -> (r: Vec<String>)
    ensures
        views_of(r@) == seq!["pull"@, "--ff"@],
{
    let mut args: Vec<String> = Vec::new();
    args.push("pull".to_owned());
    args.push("--ff".to_owned());
    proof {
        assert(views_of(args@) =~= seq!["pull"@, "--ff"@]);
    }
    args
}

/// Arguments for fetching the current clone's remotes.
pub fn git_fetch_args() -> (r: Vec<String>)
    ensures
        views_of(r@) == seq!["fetch"@],
{
    let mut args: Vec<String> = Vec::new();
    args.push("fetch".to_owned());
    proof {
        assert(views_of(args@) =~= seq!["fetch"@]);
    }
    args
}

/// Arguments for probing whether a remote branch exists.
pub fn git_ls_remote_args(pr: &str) -> (r: Vec<String>)
    ensures
        views_of(r@) == seq!["ls-remote"@, "--exit-code"@, "origin"@, pr@],
{
    let mut args: Vec<String> = Vec::new();
    args.push("ls-remote".to_owned());
    args.push("--exit-code".to_owned());
    args.push("origin".to_owned());
    args.push(pr.to_owned());
    proof {
        assert(views_of(args@) =~= seq!["ls-remote"@, "--exit-code"@, "origin"@, pr@]);
    }
    args
}

/// Arguments for checking a remote branch out locally.
pub fn git_checkout_args(pr: &str) -> (r: Vec<String>)
    ensures
        views_of(r@) == seq!["checkout"@, "-b"@, pr@, "origin/"@ + pr@],
{
    let mut args: Vec<String> = Vec::new();
    args.push("checkout".to_owned());
    args.push("-b".to_owned());
    args.push(pr.to_owned());
    args.push(crate::strutil::str_concat("origin/", pr));
    proof {
        assert(views_of(args@) =~= seq!["checkout"@, "-b"@, pr@, "origin/"@ + pr@]);
    }
    args
}

/// Arguments for reading the URL of the `origin` remote.
pub fn git_remote_url_args() -> (r: Vec<String>)
    ensures
        views_of(r@) == seq!["remote"@, "get-url"@, "origin"@],
{
    let mut args: Vec<String> = Vec::new();
    args.push("remote".to_owned());
    args.push("get-url".to_owned());
    args.push("origin".to_owned());
    proof {
        assert(views_of(args@) =~= seq!["remote"@, "get-url"@, "origin"@]);
    }
    args
}

/// Arguments for locating the enclosing version-control root.
pub fn git_toplevel_args() -> (r: Vec<String>)
    ensures
        views_of(r@) == seq!["rev-parse"@, "--show-toplevel"@],
{
    let mut args: Vec<String> = Vec::new();
    args.push("rev-parse".to_owned());
    args.push("--show-toplevel".to_owned());
    proof {
        assert(views_of(args@) =~= seq!["rev-parse"@, "--show-toplevel"@]);
    }
    args
}

/// Arguments for purging the locally cached dependency stores.
pub fn purge_caches_args() -> (r: Vec<String>)
    ensures
        views_of(r@) == seq!["-rf"@, ".nix-gems"@, "vendor/cache"@, "node_modules"@, ".nix-node"@],
{
    let mut args: Vec<String> = Vec::new();
    args.push("-rf".to_owned());
    args.push(".nix-gems".to_owned());
    args.push("vendor/cache".to_owned());
    args.push("node_modules".to_owned());
    args.push(".nix-node".to_owned());
    proof {
        assert(views_of(args@) =~= seq![
            "-rf"@,
            ".nix-gems"@,
            "vendor/cache"@,
            "node_modules"@,
            ".nix-node"@,
        ]);
    }
    args
}

} // verus!
