//! The command pipeline, as an explicit state machine.
//!
//! A pipeline run is a strict sequence of blocking outside effects:
//! subprocess launches, filesystem probes, a DNS lookup, an interactive
//! confirmation. The machine holds every decision of that sequence; each
//! effect it wants performed is exposed as an [`Action`], and the driver
//! answers with an [`Event`]. The machine then moves on, short-circuiting
//! to a terminal failure the moment any step fails. Once terminal, it
//! requests nothing further, so no later step can run.
//!
//! The step sequences mirror the command surface: every command but the
//! repository-page one first verifies the environment (each required tool
//! probed in order, then the organizational hostname resolved), and every
//! invocation that shells into the provisioned environment first ensures
//! the shared control repository is present, cloning it on first use.

use vstd::prelude::*;
use crate::command::Command;
use crate::command::CommandV;
use crate::command::ResetType;
use crate::command::Setup;
use crate::command::SetupV;
use crate::config::path_join;
use crate::error::PnError;
use crate::error::PnErrorV;
use crate::exitcode::is_success_code;
use crate::strutil::join_spec;
use crate::table::resolve_spec;
use crate::table::ResolveError;
use crate::urlparse::repo_name_split;

verus! {

/// One step of a pipeline's configured sequence.
#[derive(Debug, Clone, Copy, PartialEq, Eq, Structural)]
pub enum Step {
    /// Bring the container stack up.
    Up,
    /// Bring the container stack up, forcing recreation.
    UpRecreate,
    /// Bring the container stack down.
    Down,
    /// Print the container stack status.
    Ps,
    /// Rebuild the container images without cache.
    Build,
    /// Fast-forward the control repository clone.
    UpdatePndev,
    /// Open a provisioned shell, optionally running the pass-through
    /// arguments in it.
    Nix,
    /// Start the application by the first applicable convention.
    Start,
    /// Require the credentials file the prepare step needs.
    HasCreds,
    /// Run the project's prepare override script.
    Prepare,
    /// Run the project's scratch action.
    Scratch,
    /// Clone one target or the whole fixed list.
    CloneRepos,
    /// Check a pull request out in one target or the whole fixed list.
    ReviewPrs,
    /// Run a named action: override script, else table entry.
    RunNamed,
    /// Purge the locally cached dependency stores.
    PurgeDeps,
    /// Open the repository page for the current remote.
    GhStep,
}

/// What a shell invocation runs once the control repository is ensured.
#[derive(Debug, Clone, Copy, PartialEq, Eq, Structural)]
pub enum Job {
    ComposeUp,
    ComposeUpRecreate,
    ComposeDown,
    ComposePs,
    ComposeBuild,
    /// Provisioned shell running a composed command string.
    NixRun,
    /// Bare interactive provisioned shell.
    NixBare,
    /// The framework-convention dev server.
    EmberStart,
    /// Removal of the cached dependency stores.
    PurgeCaches,
}

/// The position inside the step currently executing.
#[derive(Debug)]
pub enum Sub {
    /// Probing for a provisioner config file in the current directory.
    ConfigProbe { job: Job, command: Option<String> },
    /// Awaiting the version-control root lookup for the config file.
    ConfigRoot { job: Job, command: Option<String> },
    /// Probing whether the control repository clone exists.
    SetupProbe { job: Job, command: Option<String>, path: Option<String> },
    /// Awaiting creation of the workspace root before the first clone.
    SetupDir { job: Job, command: Option<String>, path: Option<String> },
    /// Awaiting the clone of the control repository.
    SetupClone { job: Job, command: Option<String>, path: Option<String> },
    /// Awaiting the shell invocation itself.
    Exec { job: Job, command: Option<String>, path: Option<String> },
    /// Awaiting the directory change into the control repository.
    UpdateCd,
    /// Awaiting the fast-forward pull of the control repository.
    UpdatePull,
    /// Probing for the start override script.
    StartScriptProbe,
    /// Probing for a command table on the start path.
    StartTomlProbe,
    /// Probing for the framework convention file.
    StartEmberProbe,
    /// Probing for the named override script on the run path.
    RunScriptProbe,
    /// Probing for a command table on the run path.
    RunTomlProbe,
    /// Probing for the scratch override script.
    ScratchProbe,
    /// Probing for the command table inside the table flow.
    TableProbe,
    /// Awaiting the command table's contents.
    TableRead,
    /// Probing for the credentials file.
    CredsProbe,
    /// Awaiting creation of the workspace root before cloning target `i`.
    CloneDir { i: usize },
    /// Awaiting the clone of target `i`.
    CloneRun { i: usize },
    /// Awaiting the directory change into target `i`.
    ReviewCd { i: usize },
    /// Awaiting the fetch for target `i`.
    ReviewFetch { i: usize },
    /// Awaiting the remote-branch probe for target `i`.
    ReviewLs { i: usize },
    /// Awaiting the branch checkout for target `i`.
    ReviewCheckout { i: usize },
    /// Awaiting the remote URL of the current repository.
    GhRemote,
    /// Awaiting the browser open of the repository page.
    GhOpen { url: String },
}

/// The mathematical shape of a [`Sub`].
pub ghost enum SubV {
    ConfigProbe { job: Job, command: Option<Seq<char>> },
    ConfigRoot { job: Job, command: Option<Seq<char>> },
    SetupProbe { job: Job, command: Option<Seq<char>>, path: Option<Seq<char>> },
    SetupDir { job: Job, command: Option<Seq<char>>, path: Option<Seq<char>> },
    SetupClone { job: Job, command: Option<Seq<char>>, path: Option<Seq<char>> },
    Exec { job: Job, command: Option<Seq<char>>, path: Option<Seq<char>> },
    UpdateCd,
    UpdatePull,
    StartScriptProbe,
    StartTomlProbe,
    StartEmberProbe,
    RunScriptProbe,
    RunTomlProbe,
    ScratchProbe,
    TableProbe,
    TableRead,
    CredsProbe,
    CloneDir { i: int },
    CloneRun { i: int },
    ReviewCd { i: int },
    ReviewFetch { i: int },
    ReviewLs { i: int },
    ReviewCheckout { i: int },
    GhRemote,
    GhOpen { url: Seq<char> },
}

/// The view of an optional string.
pub open spec fn opt_view(o: Option<String>) -> Option<Seq<char>> {
    match o {
        Some(s) => Some(s@),
        None => None,
    }
}

impl View for Sub {
    type V = SubV;

    open spec fn view(&self) -> SubV {
        match self {
            Sub::ConfigProbe { job, command } => SubV::ConfigProbe {
                job: *job,
                command: opt_view(*command),
            },
            Sub::ConfigRoot { job, command } => SubV::ConfigRoot {
                job: *job,
                command: opt_view(*command),
            },
            Sub::SetupProbe { job, command, path } => SubV::SetupProbe {
                job: *job,
                command: opt_view(*command),
                path: opt_view(*path),
            },
            Sub::SetupDir { job, command, path } => SubV::SetupDir {
                job: *job,
                command: opt_view(*command),
                path: opt_view(*path),
            },
            Sub::SetupClone { job, command, path } => SubV::SetupClone {
                job: *job,
                command: opt_view(*command),
                path: opt_view(*path),
            },
            Sub::Exec { job, command, path } => SubV::Exec {
                job: *job,
                command: opt_view(*command),
                path: opt_view(*path),
            },
            Sub::UpdateCd => SubV::UpdateCd,
            Sub::UpdatePull => SubV::UpdatePull,
            Sub::StartScriptProbe => SubV::StartScriptProbe,
            Sub::StartTomlProbe => SubV::StartTomlProbe,
            Sub::StartEmberProbe => SubV::StartEmberProbe,
            Sub::RunScriptProbe => SubV::RunScriptProbe,
            Sub::RunTomlProbe => SubV::RunTomlProbe,
            Sub::ScratchProbe => SubV::ScratchProbe,
            Sub::TableProbe => SubV::TableProbe,
            Sub::TableRead => SubV::TableRead,
            Sub::CredsProbe => SubV::CredsProbe,
            Sub::CloneDir { i } => SubV::CloneDir { i: *i as int },
            Sub::CloneRun { i } => SubV::CloneRun { i: *i as int },
            Sub::ReviewCd { i } => SubV::ReviewCd { i: *i as int },
            Sub::ReviewFetch { i } => SubV::ReviewFetch { i: *i as int },
            Sub::ReviewLs { i } => SubV::ReviewLs { i: *i as int },
            Sub::ReviewCheckout { i } => SubV::ReviewCheckout { i: *i as int },
            Sub::GhRemote => SubV::GhRemote,
            Sub::GhOpen { url } => SubV::GhOpen { url: url@ },
        }
    }
}

/// Where the pipeline stands.
#[derive(Debug)]
pub enum Phase {
    /// Awaiting the destructive-reset confirmation, before anything runs.
    AwaitConfirm,
    /// Probing required tool `i`.
    CheckTool { i: usize },
    /// Resolving the organizational hostname.
    CheckHost,
    /// Executing step `step` of the configured sequence.
    Running { step: usize, sub: Sub },
    /// Terminal: completed, or failed with the first error.
    Done { result: Result<(), PnError> },
}

/// The mathematical shape of a [`Phase`].
pub ghost enum PhaseV {
    AwaitConfirm,
    CheckTool { i: int },
    CheckHost,
    Running { step: int, sub: SubV },
    Done { result: Result<(), PnErrorV> },
}

impl View for Phase {
    type V = PhaseV;

    open spec fn view(&self) -> PhaseV {
        match self {
            Phase::AwaitConfirm => PhaseV::AwaitConfirm,
            Phase::CheckTool { i } => PhaseV::CheckTool { i: *i as int },
            Phase::CheckHost => PhaseV::CheckHost,
            Phase::Running { step, sub } => PhaseV::Running { step: *step as int, sub: sub@ },
            Phase::Done { result } => PhaseV::Done {
                result: match result {
                    Ok(()) => Ok(()),
                    Err(e) => Err(e@),
                },
            },
        }
    }
}

/// How one subprocess run ended.
#[derive(Debug, Clone, PartialEq, Eq)]
pub enum RunOutcome {
    /// The process exited with a code; captured output accompanies it
    /// (empty for runs whose streams were inherited).
    Exited { code: i32, stdout: String, stderr: String },
    /// The process was killed abnormally, leaving no exit code.
    NoCode,
    /// The process could not be launched at all.
    NotLaunched { detail: String },
}

/// The mathematical shape of a [`RunOutcome`].
pub ghost enum RunOutcomeV {
    Exited { code: int, stdout: Seq<char>, stderr: Seq<char> },
    NoCode,
    NotLaunched { detail: Seq<char> },
}

impl View for RunOutcome {
    type V = RunOutcomeV;

    open spec fn view(&self) -> RunOutcomeV {
        match self {
            RunOutcome::Exited { code, stdout, stderr } => RunOutcomeV::Exited {
                code: *code as int,
                stdout: stdout@,
                stderr: stderr@,
            },
            RunOutcome::NoCode => RunOutcomeV::NoCode,
            RunOutcome::NotLaunched { detail } => RunOutcomeV::NotLaunched { detail: detail@ },
        }
    }
}

/// The driver's answer to the pending [`Action`].
#[derive(Debug)]
pub enum Event {
    /// Whether the probed tool could be launched at all.
    ToolProbed { present: bool },
    /// Whether the hostname resolved.
    HostChecked { resolves: bool },
    /// The confirmation answer; declining aborts the pipeline.
    ConfirmAnswered { yes: bool },
    /// Whether the probed path exists.
    FileChecked { exists: bool },
    /// Whether the directory could be created, with the failure text.
    DirEnsured { outcome: Result<(), String> },
    /// Whether the working directory could be changed, with the failure
    /// text.
    DirChanged { outcome: Result<(), String> },
    /// How the launched process ended.
    Ran { outcome: RunOutcome },
    /// The table file's contents, or the read failure text.
    TableLoaded { outcome: Result<String, String> },
    /// The repository page was handed to the system opener.
    Opened,
}

/// The mathematical shape of an [`Event`].
pub ghost enum EventV {
    ToolProbed { present: bool },
    HostChecked { resolves: bool },
    ConfirmAnswered { yes: bool },
    FileChecked { exists: bool },
    DirEnsured { outcome: Result<(), Seq<char>> },
    DirChanged { outcome: Result<(), Seq<char>> },
    Ran { outcome: RunOutcomeV },
    TableLoaded { outcome: Result<Seq<char>, Seq<char>> },
    Opened,
}

impl View for Event {
    type V = EventV;

    open spec fn view(&self) -> EventV {
        match self {
            Event::ToolProbed { present } => EventV::ToolProbed { present: *present },
            Event::HostChecked { resolves } => EventV::HostChecked { resolves: *resolves },
            Event::ConfirmAnswered { yes } => EventV::ConfirmAnswered { yes: *yes },
            Event::FileChecked { exists } => EventV::FileChecked { exists: *exists },
            Event::DirEnsured { outcome } => EventV::DirEnsured {
                outcome: match outcome {
                    Ok(()) => Ok(()),
                    Err(t) => Err(t@),
                },
            },
            Event::DirChanged { outcome } => EventV::DirChanged {
                outcome: match outcome {
                    Ok(()) => Ok(()),
                    Err(t) => Err(t@),
                },
            },
            Event::Ran { outcome } => EventV::Ran { outcome: outcome@ },
            Event::TableLoaded { outcome } => EventV::TableLoaded {
                outcome: match outcome {
                    Ok(t) => Ok(t@),
                    Err(t) => Err(t@),
                },
            },
            Event::Opened => EventV::Opened,
        }
    }
}

/// One outside effect the driver is asked to perform.
#[derive(Debug)]
pub enum Action {
    /// Launch the tool with a trivial version argument, reporting only
    /// whether it launched.
    ProbeTool { tool: String },
    /// Resolve the hostname.
    ResolveHost { host: String },
    /// Ask the destructive-reset confirmation, defaulting to decline.
    ConfirmReset,
    /// Report whether the path exists.
    ProbeFile { path: String },
    /// Create the directory and its parents.
    EnsureDir { path: String },
    /// Change the working directory.
    ChangeDir { path: String },
    /// Launch the program with the arguments, inheriting the streams when
    /// `capture` is false and capturing them when it is true.
    Launch { program: String, args: Vec<String>, capture: bool },
    /// Read the table file's contents.
    LoadTable { path: String },
    /// Open the URL with the system opener.
    OpenUrl { url: String },
}

/// The mathematical shape of an [`Action`].
pub ghost enum ActionV {
    ProbeTool { tool: Seq<char> },
    ResolveHost { host: Seq<char> },
    ConfirmReset,
    ProbeFile { path: Seq<char> },
    EnsureDir { path: Seq<char> },
    ChangeDir { path: Seq<char> },
    Launch { program: Seq<char>, args: Seq<Seq<char>>, capture: bool },
    LoadTable { path: Seq<char> },
    OpenUrl { url: Seq<char> },
}

impl View for Action {
    type V = ActionV;

    open spec fn view(&self) -> ActionV {
        match self {
            Action::ProbeTool { tool } => ActionV::ProbeTool { tool: tool@ },
            Action::ResolveHost { host } => ActionV::ResolveHost { host: host@ },
            Action::ConfirmReset => ActionV::ConfirmReset,
            Action::ProbeFile { path } => ActionV::ProbeFile { path: path@ },
            Action::EnsureDir { path } => ActionV::EnsureDir { path: path@ },
            Action::ChangeDir { path } => ActionV::ChangeDir { path: path@ },
            Action::Launch { program, args, capture } => ActionV::Launch {
                program: program@,
                args: crate::strutil::views_of(args@),
                capture: *capture,
            },
            Action::LoadTable { path } => ActionV::LoadTable { path: path@ },
            Action::OpenUrl { url } => ActionV::OpenUrl { url: url@ },
        }
    }
}

/// One pipeline run: the read-only request and orchestration data, the
/// configured step sequence, and the current phase.
#[derive(Debug)]
pub struct Machine {
    /// The request the run was configured with.
    pub cmd: Command,
    /// The orchestration data the run works against.
    pub setup: Setup,
    /// The configured step sequence.
    pub steps: Vec<Step>,
    /// Where the run stands.
    pub phase: Phase,
}

/// The mathematical shape of a [`Machine`].
pub ghost struct MachineV {
    pub cmd: CommandV,
    pub setup: SetupV,
    pub steps: Seq<Step>,
    pub phase: PhaseV,
}

impl View for Machine {
    type V = MachineV;

    open spec fn view(&self) -> MachineV {
        MachineV { cmd: self.cmd@, setup: self.setup@, steps: self.steps@, phase: self.phase@ }
    }
}

/// The targets a clone step walks: the fixed list under the all flag, else
/// the single selected name.
pub open spec fn clone_targets(cmd: CommandV, setup: SetupV) -> Seq<Seq<char>> {
    if cmd.all {
        setup.repos
    } else {
        match cmd.name {
            Some(n) => seq![n],
            None => Seq::empty(),
        }
    }
}

/// The targets a review step walks: the single selected name, else the
/// fixed application list.
pub open spec fn review_targets(cmd: CommandV, setup: SetupV) -> Seq<Seq<char>> {
    match cmd.name {
        Some(n) => seq![n],
        None => setup.apps,
    }
}

/// The command line that runs a project override script: the script path
/// with the pass-through arguments appended after a space.
pub open spec fn script_cmd_spec(name: Seq<char>, args: Seq<Seq<char>>) -> Seq<char> {
    "./.pndev/"@ + name + seq![' '] + join_spec(args)
}

/// The action name the table flow of step `k` resolves.
pub open spec fn table_action(cmd: CommandV, steps: Seq<Step>, k: int) -> Seq<char> {
    table_action_of(steps[k], cmd.name)
}

/// The failure message of each shell job's call site.
pub open spec fn job_error_msg(job: Job) -> Seq<char> {
    match job {
        Job::ComposeUp => "Docker up failed"@,
        Job::ComposeUpRecreate => "Docker up failed"@,
        Job::ComposeDown => "Docker down failed"@,
        Job::ComposePs => "Docker ps failed"@,
        Job::ComposeBuild => "Docker rebuild failed"@,
        Job::NixRun => "nix-shell --run failed"@,
        Job::NixBare => "Shell command failed"@,
        Job::EmberStart => "Shell command failed"@,
        Job::PurgeCaches => "Shell command failed"@,
    }
}

/// The program each shell job launches.
pub open spec fn job_program(job: Job) -> Seq<char> {
    match job {
        Job::ComposeUp => "docker-compose"@,
        Job::ComposeUpRecreate => "docker-compose"@,
        Job::ComposeDown => "docker-compose"@,
        Job::ComposePs => "docker-compose"@,
        Job::ComposeBuild => "docker-compose"@,
        Job::NixRun => "nix-shell"@,
        Job::NixBare => "nix-shell"@,
        Job::EmberStart => "nix-shell"@,
        Job::PurgeCaches => "rm"@,
    }
}

/// The argument list of each shell job.
pub open spec fn job_args(
    job: Job,
    command: Option<Seq<char>>,
    path: Option<Seq<char>>,
    compose_path: Seq<char>,
) -> Seq<Seq<char>> {
    match job {
        Job::ComposeUp => seq!["-f"@, compose_path] + crate::shell::compose_up_tail(false),
        Job::ComposeUpRecreate => seq!["-f"@, compose_path] + crate::shell::compose_up_tail(true),
        Job::ComposeDown => seq!["-f"@, compose_path, "down"@],
        Job::ComposePs => seq!["-f"@, compose_path, "ps"@],
        Job::ComposeBuild => seq!["-f"@, compose_path, "build"@, "--no-cache"@],
        Job::NixRun => seq!["--run"@, command->Some_0, path->Some_0],
        Job::NixBare => seq![path->Some_0],
        Job::EmberStart => seq!["--run"@, "yarn && yarn exec ember server"@],
        Job::PurgeCaches => seq!["-rf"@, ".nix-gems"@, "vendor/cache"@, "node_modules"@, ".nix-node"@],
    }
}

/// The arguments that clone target `name` into the workspace.
pub open spec fn git_clone_args_spec(name: Seq<char>, repo_path: Seq<char>) -> Seq<Seq<char>> {
    seq![
        "clone"@,
        "--recurse-submodules"@,
        "git@github.com:PrecisionNutrition/"@ + name + ".git"@,
        path_join(repo_path, name),
    ]
}

/// The provisioner config path derived from a version-control root lookup:
/// the captured output with its trailing newline removed, then the config
/// file name.
pub open spec fn root_config_path(stdout: Seq<char>) -> Seq<char> {
    (if stdout.len() > 0 {
        stdout.subrange(0, stdout.len() - 1)
    } else {
        stdout
    }) + "/shell.nix"@
}

/// Whether the shell job runs through the provisioner config flow.
pub open spec fn job_uses_config(job: Job) -> bool {
    job is NixRun || job is NixBare
}

/// Consistency of a sub-position with its step and the request.
pub open spec fn sub_wf(cmd: CommandV, setup: SetupV, step: Step, sub: SubV) -> bool {
    match sub {
        SubV::ConfigProbe { job, command } => job_uses_config(job) && (job is NixRun
            <==> command is Some),
        SubV::ConfigRoot { job, command } => job_uses_config(job) && (job is NixRun
            <==> command is Some),
        SubV::SetupProbe { job, command, path } => (job is NixRun <==> command is Some) && (
        job_uses_config(job) <==> path is Some),
        SubV::SetupDir { job, command, path } => (job is NixRun <==> command is Some) && (
        job_uses_config(job) <==> path is Some),
        SubV::SetupClone { job, command, path } => (job is NixRun <==> command is Some) && (
        job_uses_config(job) <==> path is Some),
        SubV::Exec { job, command, path } => (job is NixRun <==> command is Some) && (
        job_uses_config(job) <==> path is Some),
        SubV::UpdateCd => true,
        SubV::UpdatePull => true,
        SubV::StartScriptProbe => step is Start,
        SubV::StartTomlProbe => step is Start,
        SubV::StartEmberProbe => step is Start,
        SubV::RunScriptProbe => step is RunNamed && cmd.name is Some,
        SubV::RunTomlProbe => step is RunNamed && cmd.name is Some,
        SubV::ScratchProbe => step is Scratch,
        SubV::TableProbe => (step is Start || step is Scratch || step is RunNamed) && (step
            is RunNamed ==> cmd.name is Some),
        SubV::TableRead => (step is Start || step is Scratch || step is RunNamed) && (step
            is RunNamed ==> cmd.name is Some),
        SubV::CredsProbe => true,
        SubV::CloneDir { i } => 0 <= i < clone_targets(cmd, setup).len(),
        SubV::CloneRun { i } => 0 <= i < clone_targets(cmd, setup).len(),
        SubV::ReviewCd { i } => 0 <= i < review_targets(cmd, setup).len() && cmd.pr is Some,
        SubV::ReviewFetch { i } => 0 <= i < review_targets(cmd, setup).len() && cmd.pr is Some,
        SubV::ReviewLs { i } => 0 <= i < review_targets(cmd, setup).len() && cmd.pr is Some,
        SubV::ReviewCheckout { i } => 0 <= i < review_targets(cmd, setup).len() && cmd.pr is Some,
        SubV::GhRemote => true,
        SubV::GhOpen { url } => true,
    }
}

/// Well-formedness of a machine: every stored position is in range and
/// carries the data its pending action needs.
pub open spec fn wf(mv: MachineV) -> bool {
    match mv.phase {
        PhaseV::AwaitConfirm => true,
        PhaseV::CheckTool { i } => 0 <= i < mv.setup.tools.len(),
        PhaseV::CheckHost => true,
        PhaseV::Running { step, sub } => 0 <= step < mv.steps.len() && sub_wf(
            mv.cmd,
            mv.setup,
            mv.steps[step],
            sub,
        ),
        PhaseV::Done { result } => true,
    }
}

/// The phase that begins the prerequisite check: the first tool probe, or
/// the hostname check when the tool list is empty.
pub open spec fn enter_check(setup: SetupV) -> PhaseV {
    if setup.tools.len() > 0 {
        PhaseV::CheckTool { i: 0 }
    } else {
        PhaseV::CheckHost
    }
}

/// The phase that begins step `k` of the sequence, skipping steps with
/// nothing to do and completing the run past the last step.
pub open spec fn enter_steps(cmd: CommandV, setup: SetupV, steps: Seq<Step>, k: int) -> PhaseV
    decreases steps.len() - k,
{
    if k < 0 || k >= steps.len() {
        PhaseV::Done { result: Ok(()) }
    } else {
        match steps[k] {
            Step::Up => PhaseV::Running {
                step: k,
                sub: SubV::SetupProbe { job: Job::ComposeUp, command: None, path: None },
            },
            Step::UpRecreate => PhaseV::Running {
                step: k,
                sub: SubV::SetupProbe { job: Job::ComposeUpRecreate, command: None, path: None },
            },
            Step::Down => PhaseV::Running {
                step: k,
                sub: SubV::SetupProbe { job: Job::ComposeDown, command: None, path: None },
            },
            Step::Ps => PhaseV::Running {
                step: k,
                sub: SubV::SetupProbe { job: Job::ComposePs, command: None, path: None },
            },
            Step::Build => PhaseV::Running {
                step: k,
                sub: SubV::SetupProbe { job: Job::ComposeBuild, command: None, path: None },
            },
            Step::UpdatePndev => PhaseV::Running { step: k, sub: SubV::UpdateCd },
            Step::Nix => if join_spec(cmd.arguments).len() == 0 {
                PhaseV::Running {
                    step: k,
                    sub: SubV::ConfigProbe { job: Job::NixBare, command: None },
                }
            } else {
                PhaseV::Running {
                    step: k,
                    sub: SubV::ConfigProbe {
                        job: Job::NixRun,
                        command: Some(join_spec(cmd.arguments)),
                    },
                }
            },
            Step::Start => if cmd.docker_only {
                enter_steps(cmd, setup, steps, k + 1)
            } else {
                PhaseV::Running { step: k, sub: SubV::StartScriptProbe }
            },
            Step::HasCreds => PhaseV::Running { step: k, sub: SubV::CredsProbe },
            Step::Prepare => PhaseV::Running {
                step: k,
                sub: SubV::ConfigProbe {
                    job: Job::NixRun,
                    command: Some(script_cmd_spec("prepare"@, cmd.arguments)),
                },
            },
            Step::Scratch => PhaseV::Running { step: k, sub: SubV::ScratchProbe },
            Step::CloneRepos => if cmd.all {
                if clone_targets(cmd, setup).len() > 0 {
                    PhaseV::Running { step: k, sub: SubV::CloneDir { i: 0 } }
                } else {
                    enter_steps(cmd, setup, steps, k + 1)
                }
            } else {
                match cmd.name {
                    Some(n) => PhaseV::Running { step: k, sub: SubV::CloneDir { i: 0 } },
                    None => PhaseV::Done { result: Err(PnErrorV::AppUnspecified) },
                }
            },
            Step::ReviewPrs => match cmd.pr {
                None => PhaseV::Done { result: Err(PnErrorV::PrUnspecified) },
                Some(pr) => if review_targets(cmd, setup).len() > 0 {
                    PhaseV::Running { step: k, sub: SubV::ReviewCd { i: 0 } }
                } else {
                    enter_steps(cmd, setup, steps, k + 1)
                },
            },
            Step::RunNamed => match cmd.name {
                None => PhaseV::Done { result: Err(PnErrorV::CommandUnspecified) },
                Some(n) => PhaseV::Running { step: k, sub: SubV::RunScriptProbe },
            },
            Step::PurgeDeps => PhaseV::Running {
                step: k,
                sub: SubV::SetupProbe { job: Job::PurgeCaches, command: None, path: None },
            },
            Step::GhStep => PhaseV::Running { step: k, sub: SubV::GhRemote },
        }
    }
}

/// Whether the event is the answer the pending action expects.
pub open spec fn accepts(mv: MachineV, ev: EventV) -> bool {
    match mv.phase {
        PhaseV::AwaitConfirm => ev is ConfirmAnswered,
        PhaseV::CheckTool { i } => ev is ToolProbed,
        PhaseV::CheckHost => ev is HostChecked,
        PhaseV::Running { step, sub } => match sub {
            SubV::ConfigProbe { .. } => ev is FileChecked,
            SubV::ConfigRoot { .. } => ev is Ran,
            SubV::SetupProbe { .. } => ev is FileChecked,
            SubV::SetupDir { .. } => ev is DirEnsured,
            SubV::SetupClone { .. } => ev is Ran,
            SubV::Exec { .. } => ev is Ran,
            SubV::UpdateCd => ev is DirChanged,
            SubV::UpdatePull => ev is Ran,
            SubV::StartScriptProbe => ev is FileChecked,
            SubV::StartTomlProbe => ev is FileChecked,
            SubV::StartEmberProbe => ev is FileChecked,
            SubV::RunScriptProbe => ev is FileChecked,
            SubV::RunTomlProbe => ev is FileChecked,
            SubV::ScratchProbe => ev is FileChecked,
            SubV::TableProbe => ev is FileChecked,
            SubV::TableRead => ev is TableLoaded,
            SubV::CredsProbe => ev is FileChecked,
            SubV::CloneDir { .. } => ev is DirEnsured,
            SubV::CloneRun { .. } => ev is Ran,
            SubV::ReviewCd { .. } => ev is DirChanged,
            SubV::ReviewFetch { .. } => ev is Ran,
            SubV::ReviewLs { .. } => ev is Ran,
            SubV::ReviewCheckout { .. } => ev is Ran,
            SubV::GhRemote => ev is Ran,
            SubV::GhOpen { .. } => ev is Opened,
        },
        PhaseV::Done { .. } => false,
    }
}

/// The phase after a review target finishes: the next target, or the next
/// step past the last target.
pub open spec fn next_review_target(mv: MachineV, k: int, i: int) -> PhaseV {
    if i + 1 < review_targets(mv.cmd, mv.setup).len() {
        PhaseV::Running { step: k, sub: SubV::ReviewCd { i: i + 1 } }
    } else {
        enter_steps(mv.cmd, mv.setup, mv.steps, k + 1)
    }
}

/// The terminal failure for a run that ended without an exit code, named
/// after the program that was launched.
pub open spec fn no_code_failure(program: Seq<char>) -> PhaseV {
    PhaseV::Done { result: Err(PnErrorV::NoExitCode { message: program }) }
}

/// The transition relation of the pipeline: the phase after absorbing one
/// event, the machine's data being unchanged.
pub open spec fn step_view(mv: MachineV, ev: EventV) -> PhaseV {
    match mv.phase {
        PhaseV::AwaitConfirm => match ev {
            EventV::ConfirmAnswered { yes } => if yes {
                enter_check(mv.setup)
            } else {
                PhaseV::Done { result: Err(PnErrorV::UserAbort) }
            },
            _ => mv.phase,
        },
        PhaseV::CheckTool { i } => match ev {
            EventV::ToolProbed { present } => if !present {
                PhaseV::Done {
                    result: Err(PnErrorV::ToolMissing { tool: mv.setup.tools[i] }),
                }
            } else if i + 1 < mv.setup.tools.len() {
                PhaseV::CheckTool { i: i + 1 }
            } else {
                PhaseV::CheckHost
            },
            _ => mv.phase,
        },
        PhaseV::CheckHost => match ev {
            EventV::HostChecked { resolves } => if resolves {
                enter_steps(mv.cmd, mv.setup, mv.steps, 0)
            } else {
                PhaseV::Done { result: Err(PnErrorV::HostUnresolved) }
            },
            _ => mv.phase,
        },
        PhaseV::Running { step: k, sub } => step_sub_view(mv, k, sub, ev),
        PhaseV::Done { .. } => mv.phase,
    }
}

/// The transition of the position inside step `k`.
pub open spec fn step_sub_view(mv: MachineV, k: int, sub: SubV, ev: EventV) -> PhaseV {
    match sub {
        SubV::ConfigProbe { job, command } => match ev {
            EventV::FileChecked { exists } => if exists {
                PhaseV::Running {
                    step: k,
                    sub: SubV::SetupProbe { job, command, path: Some("shell.nix"@) },
                }
            } else {
                PhaseV::Running { step: k, sub: SubV::ConfigRoot { job, command } }
            },
            _ => mv.phase,
        },
        SubV::ConfigRoot { job, command } => match ev {
            EventV::Ran { outcome } => match outcome {
                RunOutcomeV::Exited { code, stdout, stderr } => if code % 255 == 0 {
                    PhaseV::Running {
                        step: k,
                        sub: SubV::SetupProbe {
                            job,
                            command,
                            path: Some(root_config_path(stdout)),
                        },
                    }
                } else {
                    PhaseV::Done { result: Err(PnErrorV::ToolOutput { detail: stderr }) }
                },
                RunOutcomeV::NoCode => no_code_failure("git"@),
                RunOutcomeV::NotLaunched { detail } => PhaseV::Done {
                    result: Err(PnErrorV::LaunchFailed { detail }),
                },
            },
            _ => mv.phase,
        },
        SubV::SetupProbe { job, command, path } => match ev {
            EventV::FileChecked { exists } => if exists {
                PhaseV::Running { step: k, sub: SubV::Exec { job, command, path } }
            } else {
                PhaseV::Running { step: k, sub: SubV::SetupDir { job, command, path } }
            },
            _ => mv.phase,
        },
        SubV::SetupDir { job, command, path } => match ev {
            EventV::DirEnsured { outcome } => match outcome {
                Ok(()) => PhaseV::Running { step: k, sub: SubV::SetupClone { job, command, path } },
                Err(detail) => PhaseV::Done { result: Err(PnErrorV::SystemError { detail }) },
            },
            _ => mv.phase,
        },
        SubV::SetupClone { job, command, path } => match ev {
            EventV::Ran { outcome } => match outcome {
                RunOutcomeV::Exited { code, stdout, stderr } => if code % 255 == 0 {
                    PhaseV::Running { step: k, sub: SubV::Exec { job, command, path } }
                } else {
                    PhaseV::Done { result: Err(PnErrorV::ToolOutput { detail: stderr }) }
                },
                RunOutcomeV::NoCode => no_code_failure("git"@),
                RunOutcomeV::NotLaunched { detail } => PhaseV::Done {
                    result: Err(PnErrorV::LaunchFailed { detail }),
                },
            },
            _ => mv.phase,
        },
        SubV::Exec { job, command, path } => match ev {
            EventV::Ran { outcome } => match outcome {
                RunOutcomeV::Exited { code, stdout, stderr } => if is_success_code(code) {
                    enter_steps(mv.cmd, mv.setup, mv.steps, k + 1)
                } else {
                    PhaseV::Done {
                        result: Err(PnErrorV::ExecutionFailure {
                            message: job_error_msg(job),
                            code,
                        }),
                    }
                },
                RunOutcomeV::NoCode => no_code_failure(job_error_msg(job)),
                RunOutcomeV::NotLaunched { detail } => PhaseV::Done {
                    result: Err(PnErrorV::SystemError { detail }),
                },
            },
            _ => mv.phase,
        },
        SubV::UpdateCd => match ev {
            EventV::DirChanged { outcome } => match outcome {
                Ok(()) => PhaseV::Running { step: k, sub: SubV::UpdatePull },
                Err(detail) => PhaseV::Done { result: Err(PnErrorV::SystemError { detail }) },
            },
            _ => mv.phase,
        },
        SubV::UpdatePull => match ev {
            EventV::Ran { outcome } => match outcome {
                RunOutcomeV::Exited { code, stdout, stderr } => if code % 255 == 0 {
                    enter_steps(mv.cmd, mv.setup, mv.steps, k + 1)
                } else {
                    PhaseV::Done { result: Err(PnErrorV::ToolOutput { detail: stderr }) }
                },
                RunOutcomeV::NoCode => no_code_failure("git"@),
                RunOutcomeV::NotLaunched { detail } => PhaseV::Done {
                    result: Err(PnErrorV::LaunchFailed { detail }),
                },
            },
            _ => mv.phase,
        },
        SubV::StartScriptProbe => match ev {
            EventV::FileChecked { exists } => if exists {
                PhaseV::Running {
                    step: k,
                    sub: SubV::ConfigProbe {
                        job: Job::NixRun,
                        command: Some(script_cmd_spec("start"@, mv.cmd.arguments)),
                    },
                }
            } else {
                PhaseV::Running { step: k, sub: SubV::StartTomlProbe }
            },
            _ => mv.phase,
        },
        SubV::StartTomlProbe => match ev {
            EventV::FileChecked { exists } => if exists {
                PhaseV::Running { step: k, sub: SubV::TableProbe }
            } else {
                PhaseV::Running { step: k, sub: SubV::StartEmberProbe }
            },
            _ => mv.phase,
        },
        SubV::StartEmberProbe => match ev {
            EventV::FileChecked { exists } => if exists {
                PhaseV::Running {
                    step: k,
                    sub: SubV::SetupProbe { job: Job::EmberStart, command: None, path: None },
                }
            } else {
                PhaseV::Done { result: Err(PnErrorV::NoRunnableTarget) }
            },
            _ => mv.phase,
        },
        SubV::RunScriptProbe => match ev {
            EventV::FileChecked { exists } => if exists {
                PhaseV::Running {
                    step: k,
                    sub: SubV::ConfigProbe {
                        job: Job::NixRun,
                        command: Some(script_cmd_spec(table_action(mv.cmd, mv.steps, k), mv.cmd.arguments)),
                    },
                }
            } else {
                PhaseV::Running { step: k, sub: SubV::RunTomlProbe }
            },
            _ => mv.phase,
        },
        SubV::RunTomlProbe => match ev {
            EventV::FileChecked { exists } => if exists {
                PhaseV::Running { step: k, sub: SubV::TableProbe }
            } else {
                PhaseV::Done {
                    result: Err(PnErrorV::ActionNotFound { action: table_action(mv.cmd, mv.steps, k) }),
                }
            },
            _ => mv.phase,
        },
        SubV::ScratchProbe => match ev {
            EventV::FileChecked { exists } => if exists {
                PhaseV::Running {
                    step: k,
                    sub: SubV::ConfigProbe {
                        job: Job::NixRun,
                        command: Some(script_cmd_spec("scratch"@, mv.cmd.arguments)),
                    },
                }
            } else {
                PhaseV::Running { step: k, sub: SubV::TableProbe }
            },
            _ => mv.phase,
        },
        SubV::TableProbe => match ev {
            EventV::FileChecked { exists } => if exists {
                PhaseV::Running { step: k, sub: SubV::TableRead }
            } else {
                PhaseV::Done { result: Err(PnErrorV::TableNotFound) }
            },
            _ => mv.phase,
        },
        SubV::TableRead => match ev {
            EventV::TableLoaded { outcome } => match outcome {
                Err(detail) => PhaseV::Done { result: Err(PnErrorV::SystemError { detail }) },
                Ok(content) => match resolve_spec(Some(content), table_action(mv.cmd, mv.steps, k)) {
                    Ok(resolved) => PhaseV::Running {
                        step: k,
                        sub: SubV::ConfigProbe {
                            job: Job::NixRun,
                            command: Some(
                                resolved + seq![' '] + join_spec(mv.cmd.arguments),
                            ),
                        },
                    },
                    Err(ResolveError::TableNotFound) => PhaseV::Done {
                        result: Err(PnErrorV::TableNotFound),
                    },
                    Err(ResolveError::TableInvalid) => PhaseV::Done {
                        result: Err(PnErrorV::TableInvalid),
                    },
                    Err(ResolveError::ActionNotFound) => PhaseV::Done {
                        result: Err(PnErrorV::ActionNotFound { action: table_action(mv.cmd, mv.steps, k) }),
                    },
                    Err(ResolveError::ActionMalformed) => PhaseV::Done {
                        result: Err(PnErrorV::ActionMalformed { action: table_action(mv.cmd, mv.steps, k) }),
                    },
                },
            },
            _ => mv.phase,
        },
        SubV::CredsProbe => match ev {
            EventV::FileChecked { exists } => if exists {
                enter_steps(mv.cmd, mv.setup, mv.steps, k + 1)
            } else {
                PhaseV::Done { result: Err(PnErrorV::CredsMissing) }
            },
            _ => mv.phase,
        },
        SubV::CloneDir { i } => match ev {
            EventV::DirEnsured { outcome } => match outcome {
                Ok(()) => PhaseV::Running { step: k, sub: SubV::CloneRun { i } },
                Err(detail) => PhaseV::Done { result: Err(PnErrorV::SystemError { detail }) },
            },
            _ => mv.phase,
        },
        SubV::CloneRun { i } => match ev {
            EventV::Ran { outcome } => match outcome {
                RunOutcomeV::Exited { code, stdout, stderr } => if code % 255 == 0 {
                    if i + 1 < clone_targets(mv.cmd, mv.setup).len() {
                        PhaseV::Running { step: k, sub: SubV::CloneDir { i: i + 1 } }
                    } else {
                        enter_steps(mv.cmd, mv.setup, mv.steps, k + 1)
                    }
                } else {
                    PhaseV::Done { result: Err(PnErrorV::ToolOutput { detail: stderr }) }
                },
                RunOutcomeV::NoCode => no_code_failure("git"@),
                RunOutcomeV::NotLaunched { detail } => PhaseV::Done {
                    result: Err(PnErrorV::LaunchFailed { detail }),
                },
            },
            _ => mv.phase,
        },
        SubV::ReviewCd { i } => match ev {
            EventV::DirChanged { outcome } => match outcome {
                Ok(()) => PhaseV::Running { step: k, sub: SubV::ReviewFetch { i } },
                Err(detail) => PhaseV::Done { result: Err(PnErrorV::SystemError { detail }) },
            },
            _ => mv.phase,
        },
        SubV::ReviewFetch { i } => match ev {
            EventV::Ran { outcome } => match outcome {
                RunOutcomeV::Exited { code, stdout, stderr } => if code % 255 == 0 {
                    PhaseV::Running { step: k, sub: SubV::ReviewLs { i } }
                } else {
                    PhaseV::Done { result: Err(PnErrorV::ToolOutput { detail: stderr }) }
                },
                RunOutcomeV::NoCode => no_code_failure("git"@),
                RunOutcomeV::NotLaunched { detail } => PhaseV::Done {
                    result: Err(PnErrorV::LaunchFailed { detail }),
                },
            },
            _ => mv.phase,
        },
        SubV::ReviewLs { i } => match ev {
            EventV::Ran { outcome } => match outcome {
                RunOutcomeV::Exited { code, stdout, stderr } => if code % 255 == 0 {
                    PhaseV::Running { step: k, sub: SubV::ReviewCheckout { i } }
                } else {
                    next_review_target(mv, k, i)
                },
                RunOutcomeV::NoCode => no_code_failure("git"@),
                RunOutcomeV::NotLaunched { detail } => next_review_target(mv, k, i),
            },
            _ => mv.phase,
        },
        SubV::ReviewCheckout { i } => match ev {
            EventV::Ran { outcome } => match outcome {
                RunOutcomeV::Exited { .. } => next_review_target(mv, k, i),
                RunOutcomeV::NoCode => no_code_failure("git"@),
                RunOutcomeV::NotLaunched { .. } => next_review_target(mv, k, i),
            },
            _ => mv.phase,
        },
        SubV::GhRemote => match ev {
            EventV::Ran { outcome } => match outcome {
                RunOutcomeV::Exited { code, stdout, stderr } => if code % 255 == 0 {
                    match repo_name_split(stdout) {
                        Some(cut) => PhaseV::Running {
                            step: k,
                            sub: SubV::GhOpen {
                                url: "https://github.com/"@ + cut.0 + seq!['/'] + cut.1,
                            },
                        },
                        None => PhaseV::Done { result: Err(PnErrorV::RepoUrlUnknown) },
                    }
                } else {
                    PhaseV::Done { result: Err(PnErrorV::ToolOutput { detail: stderr }) }
                },
                RunOutcomeV::NoCode => no_code_failure("git"@),
                RunOutcomeV::NotLaunched { detail } => PhaseV::Done {
                    result: Err(PnErrorV::LaunchFailed { detail }),
                },
            },
            _ => mv.phase,
        },
        SubV::GhOpen { url } => match ev {
            EventV::Opened => enter_steps(mv.cmd, mv.setup, mv.steps, k + 1),
            _ => mv.phase,
        },
    }
}

/// The action name the table flow resolves for a step.
pub open spec fn table_action_of(step: Step, name: Option<Seq<char>>) -> Seq<char> {
    match step {
        Step::Start => "start"@,
        Step::Scratch => "scratch"@,
        Step::RunNamed => match name {
            Some(n) => n,
            None => ""@,
        },
        _ => ""@,
    }
}

/// The effect pending in a sub-position of step `k`.
pub open spec fn sub_action_spec(mv: MachineV, k: int, sub: SubV) -> ActionV {
    match sub {
        SubV::ConfigProbe { .. } => ActionV::ProbeFile { path: "shell.nix"@ },
        SubV::ConfigRoot { .. } => ActionV::Launch {
            program: "git"@,
            args: seq!["rev-parse"@, "--show-toplevel"@],
            capture: true,
        },
        SubV::SetupProbe { .. } => ActionV::ProbeFile {
            path: path_join(mv.setup.repo_path, "pndev"@),
        },
        SubV::SetupDir { .. } => ActionV::EnsureDir { path: mv.setup.repo_path },
        SubV::SetupClone { .. } => ActionV::Launch {
            program: "git"@,
            args: git_clone_args_spec("pndev"@, mv.setup.repo_path),
            capture: true,
        },
        SubV::Exec { job, command, path } => ActionV::Launch {
            program: job_program(job),
            args: job_args(job, command, path, mv.setup.compose_path),
            capture: false,
        },
        SubV::UpdateCd => ActionV::ChangeDir { path: path_join(mv.setup.repo_path, "pndev"@) },
        SubV::UpdatePull => ActionV::Launch {
            program: "git"@,
            args: seq!["pull"@, "--ff"@],
            capture: true,
        },
        SubV::StartScriptProbe => ActionV::ProbeFile { path: ".pndev/start"@ },
        SubV::StartTomlProbe => ActionV::ProbeFile { path: "pndev.toml"@ },
        SubV::StartEmberProbe => ActionV::ProbeFile { path: "ember-cli-build.js"@ },
        SubV::RunScriptProbe => ActionV::ProbeFile {
            path: "./.pndev/"@ + (match mv.cmd.name {
                Some(n) => n,
                None => ""@,
            }),
        },
        SubV::RunTomlProbe => ActionV::ProbeFile { path: "pndev.toml"@ },
        SubV::ScratchProbe => ActionV::ProbeFile { path: ".pndev/scratch"@ },
        SubV::TableProbe => ActionV::ProbeFile { path: "pndev.toml"@ },
        SubV::TableRead => ActionV::LoadTable { path: "pndev.toml"@ },
        SubV::CredsProbe => ActionV::ProbeFile {
            path: path_join(mv.setup.home, ".pn_anonymize_creds"@),
        },
        SubV::CloneDir { .. } => ActionV::EnsureDir { path: mv.setup.repo_path },
        SubV::CloneRun { i } => ActionV::Launch {
            program: "git"@,
            args: git_clone_args_spec(clone_targets(mv.cmd, mv.setup)[i], mv.setup.repo_path),
            capture: true,
        },
        SubV::ReviewCd { i } => ActionV::ChangeDir {
            path: path_join(mv.setup.repo_path, review_targets(mv.cmd, mv.setup)[i]),
        },
        SubV::ReviewFetch { .. } => ActionV::Launch {
            program: "git"@,
            args: seq!["fetch"@],
            capture: true,
        },
        SubV::ReviewLs { .. } => ActionV::Launch {
            program: "git"@,
            args: ({
                let pr = match mv.cmd.pr {
                    Some(pr) => pr,
                    None => ""@,
                };
                seq!["ls-remote"@, "--exit-code"@, "origin"@, pr]
            }),
            capture: true,
        },
        SubV::ReviewCheckout { .. } => ActionV::Launch {
            program: "git"@,
            args: ({
                let pr = match mv.cmd.pr {
                    Some(pr) => pr,
                    None => ""@,
                };
                seq!["checkout"@, "-b"@, pr, "origin/"@ + pr]
            }),
            capture: true,
        },
        SubV::GhRemote => ActionV::Launch {
            program: "git"@,
            args: seq!["remote"@, "get-url"@, "origin"@],
            capture: true,
        },
        SubV::GhOpen { url } => ActionV::OpenUrl { url },
    }
}

/// The effect the machine asks for in a non-terminal phase.
pub open spec fn action_spec(mv: MachineV) -> ActionV {
    match mv.phase {
        PhaseV::AwaitConfirm => ActionV::ConfirmReset,
        PhaseV::CheckTool { i } => ActionV::ProbeTool { tool: mv.setup.tools[i] },
        PhaseV::CheckHost => ActionV::ResolveHost { host: mv.setup.host },
        PhaseV::Running { step, sub } => sub_action_spec(mv, step, sub),
        PhaseV::Done { .. } => ActionV::ConfirmReset,
    }
}

/// Clones an optional string, keeping its contents.
fn clone_opt(o: &Option<String>) -> (r: Option<String>)
    ensures
        opt_view(r) == opt_view(*o),
{
    match o {
        Some(s) => Some(s.clone()),
        None => None,
    }
}

/// Copies a failure, keeping its contents.
fn dup_error(e: &PnError) -> (r: PnError)
    ensures
        r@ == e@,
{
    match e {
        PnError::ToolMissing { tool } => PnError::ToolMissing { tool: tool.clone() },
        PnError::HostUnresolved => PnError::HostUnresolved,
        PnError::UserAbort => PnError::UserAbort,
        PnError::CommandUnspecified => PnError::CommandUnspecified,
        PnError::AppUnspecified => PnError::AppUnspecified,
        PnError::PrUnspecified => PnError::PrUnspecified,
        PnError::NoRunnableTarget => PnError::NoRunnableTarget,
        PnError::CredsMissing => PnError::CredsMissing,
        PnError::TableNotFound => PnError::TableNotFound,
        PnError::TableInvalid => PnError::TableInvalid,
        PnError::ActionNotFound { action } => PnError::ActionNotFound { action: action.clone() },
        PnError::ActionMalformed { action } => PnError::ActionMalformed {
            action: action.clone(),
        },
        PnError::MissingProgram => PnError::MissingProgram,
        PnError::ExecutionFailure { message, code } => PnError::ExecutionFailure {
            message: message.clone(),
            code: *code,
        },
        PnError::NoExitCode { message } => PnError::NoExitCode { message: message.clone() },
        PnError::LaunchFailed { detail } => PnError::LaunchFailed { detail: detail.clone() },
        PnError::ToolOutput { detail } => PnError::ToolOutput { detail: detail.clone() },
        PnError::SystemError { detail } => PnError::SystemError { detail: detail.clone() },
        PnError::RepoUrlUnknown => PnError::RepoUrlUnknown,
    }
}

/// The command line that runs a project override script.
pub fn script_cmd(name: &str, args: &Vec<String>) -> (r: String)
    ensures
        r@ == script_cmd_spec(name@, crate::strutil::views_of(args@)),
{
    let s = crate::strutil::str_concat("./.pndev/", name);
    let s = crate::strutil::push_str(s, " ");
    proof {
        reveal_strlit(" ");
        assert(" "@ =~= seq![' ']);
    }
    let joined = crate::strutil::join_with_spaces(args);
    crate::strutil::push_str(s, joined.as_str())
}

/// The action name the table flow of a step resolves.
fn action_name(step: Step, name: &Option<String>) -> (r: String)
    ensures
        r@ == table_action_of(step, opt_view(*name)),
{
    match step {
        Step::Start => "start".to_owned(),
        Step::Scratch => "scratch".to_owned(),
        Step::RunNamed => match name {
            Some(n) => n.clone(),
            None => "".to_owned(),
        },
        _ => "".to_owned(),
    }
}

/// The provisioner config path derived from a version-control root lookup.
fn root_path(stdout: &str) -> (r: String)
    ensures
        r@ == root_config_path(stdout@),
{
    let n = stdout.unicode_len();
    let base: String = if n > 0 {
        stdout.substring_char(0, n - 1).to_owned()
    } else {
        stdout.to_owned()
    };
    crate::strutil::push_str(base, "/shell.nix")
}

/// Whether a captured tool run's exit code counts as plain success.
fn div255(code: i32) -> (r: bool)
    ensures
        r == ((code as int) % 255 == 0),
{
    code % 255 == 0
}

/// Converts an assembled invocation into its launch effect; one assembled
/// without a program is the "missing cmd" failure.
pub fn shell_action(sh: crate::shell::Shell, capture: bool) -> (r: Result<Action, PnError>)
    ensures
        match sh@.cmd {
            Some(p) => r matches Ok(a) && a@ == (ActionV::Launch {
                program: p,
                args: sh@.args,
                capture,
            }),
            None => r matches Err(e) && e@ == PnErrorV::MissingProgram,
        },
{
    match sh.cmd {
        Some(program) => Ok(Action::Launch { program, args: sh.args, capture }),
        None => Err(PnError::MissingProgram),
    }
}

/// The launch of a shell job, assembled exactly as its call site assembles
/// it.
fn job_action(
    job: Job,
    command: &Option<String>,
    path: &Option<String>,
    compose_path: &str,
) -> (r: Action)
    requires
        job is NixRun <==> opt_view(*command) is Some,
        job_uses_config(job) <==> opt_view(*path) is Some,
    ensures
        r@ == (ActionV::Launch {
            program: job_program(job),
            args: job_args(job, opt_view(*command), opt_view(*path), compose_path@),
            capture: false,
        }),
{
    let sh = match job {
        Job::ComposeUp => crate::shell::Shell::new().cmd("docker-compose").args(
            crate::shell::docker_up_args(compose_path, false),
        ).error_msg("Docker up failed"),
        Job::ComposeUpRecreate => crate::shell::Shell::new().cmd("docker-compose").args(
            crate::shell::docker_up_args(compose_path, true),
        ).error_msg("Docker up failed"),
        Job::ComposeDown => crate::shell::Shell::new().cmd("docker-compose").args(
            crate::shell::docker_verb_args(compose_path, "down"),
        ).error_msg("Docker down failed"),
        Job::ComposePs => crate::shell::Shell::new().cmd("docker-compose").args(
            crate::shell::docker_verb_args(compose_path, "ps"),
        ).error_msg("Docker ps failed"),
        Job::ComposeBuild => crate::shell::Shell::new().cmd("docker-compose").args(
            crate::shell::docker_build_args(compose_path),
        ).error_msg("Docker rebuild failed"),
        Job::NixRun => {
            let mut args: Vec<String> = Vec::new();
            args.push("--run".to_owned());
            match command {
                Some(c) => args.push(c.clone()),
                None => {
                    proof {
                        assert(false);
                    }
                },
            }
            match path {
                Some(p) => args.push(p.clone()),
                None => {
                    proof {
                        assert(false);
                    }
                },
            }
            proof {
                assert(crate::strutil::views_of(args@) =~= job_args(
                    Job::NixRun,
                    opt_view(*command),
                    opt_view(*path),
                    compose_path@,
                ));
            }
            crate::shell::Shell::new().cmd("nix-shell").args(args).error_msg(
                "nix-shell --run failed",
            )
        },
        Job::NixBare => {
            let mut args: Vec<String> = Vec::new();
            match path {
                Some(p) => args.push(p.clone()),
                None => {
                    proof {
                        assert(false);
                    }
                },
            }
            proof {
                assert(crate::strutil::views_of(args@) =~= job_args(
                    Job::NixBare,
                    opt_view(*command),
                    opt_view(*path),
                    compose_path@,
                ));
            }
            crate::shell::Shell::new().cmd("nix-shell").args(args)
        },
        Job::EmberStart => {
            let mut args: Vec<String> = Vec::new();
            args.push("--run".to_owned());
            args.push("yarn && yarn exec ember server".to_owned());
            proof {
                assert(crate::strutil::views_of(args@) =~= job_args(
                    Job::EmberStart,
                    opt_view(*command),
                    opt_view(*path),
                    compose_path@,
                ));
            }
            crate::shell::Shell::new().cmd("nix-shell").args(args)
        },
        Job::PurgeCaches => crate::shell::Shell::new().cmd("rm").args(
            crate::shell::purge_caches_args(),
        ),
    };
    match shell_action(sh, false) {
        Ok(a) => a,
        Err(_) => {
            proof {
                assert(false);
            }
            Action::ConfirmReset
        },
    }
}

impl Machine {
    /// Whether the run has reached a terminal phase.
    pub fn is_done(&self) -> (r: bool)
        ensures
            r == (self@.phase is Done),
    {
        match &self.phase {
            Phase::Done { .. } => true,
            _ => false,
        }
    }

    /// The terminal result, once the run is done.
    pub fn outcome(&self) -> (r: Option<Result<(), PnError>>)
        ensures
            match self@.phase {
                PhaseV::Done { result } => r matches Some(res) && (match (res, result) {
                    (Ok(()), Ok(())) => true,
                    (Err(e), Err(ev)) => e@ == ev,
                    _ => false,
                }),
                _ => r is None,
            },
    {
        match &self.phase {
            Phase::Done { result } => match result {
                Ok(()) => Some(Ok(())),
                Err(e) => Some(Err(dup_error(e))),
            },
            _ => None,
        }
    }

    /// The phase that begins the prerequisite check.
    fn begin_check(&self) -> (p: Phase)
        ensures
            p@ == enter_check(self@.setup),
            wf(MachineV { phase: p@, ..self@ }),
    {
        if self.setup.tools.len() > 0 {
            Phase::CheckTool { i: 0 }
        } else {
            Phase::CheckHost
        }
    }

    /// The phase that begins step `k`, skipping steps with nothing to do
    /// and completing the run past the last step.
    fn begin_steps(&self, k: usize) -> (p: Phase)
        requires
            k <= self.steps@.len(),
        ensures
            p@ == enter_steps(self@.cmd, self@.setup, self@.steps, k as int),
            wf(MachineV { phase: p@, ..self@ }),
        decreases self.steps@.len() - k,
    {
        if k >= self.steps.len() {
            Phase::Done { result: Ok(()) }
        } else {
            match self.steps[k] {
                Step::Up => Phase::Running {
                    step: k,
                    sub: Sub::SetupProbe { job: Job::ComposeUp, command: None, path: None },
                },
                Step::UpRecreate => Phase::Running {
                    step: k,
                    sub: Sub::SetupProbe {
                        job: Job::ComposeUpRecreate,
                        command: None,
                        path: None,
                    },
                },
                Step::Down => Phase::Running {
                    step: k,
                    sub: Sub::SetupProbe { job: Job::ComposeDown, command: None, path: None },
                },
                Step::Ps => Phase::Running {
                    step: k,
                    sub: Sub::SetupProbe { job: Job::ComposePs, command: None, path: None },
                },
                Step::Build => Phase::Running {
                    step: k,
                    sub: Sub::SetupProbe { job: Job::ComposeBuild, command: None, path: None },
                },
                Step::UpdatePndev => Phase::Running { step: k, sub: Sub::UpdateCd },
                Step::Nix => {
                    let joined = crate::strutil::join_with_spaces(&self.cmd.arguments);
                    if joined.as_str().is_empty() {
                        Phase::Running {
                            step: k,
                            sub: Sub::ConfigProbe { job: Job::NixBare, command: None },
                        }
                    } else {
                        Phase::Running {
                            step: k,
                            sub: Sub::ConfigProbe { job: Job::NixRun, command: Some(joined) },
                        }
                    }
                },
                Step::Start => if self.cmd.docker_only {
                    self.begin_steps(k + 1)
                } else {
                    Phase::Running { step: k, sub: Sub::StartScriptProbe }
                },
                Step::HasCreds => Phase::Running { step: k, sub: Sub::CredsProbe },
                Step::Prepare => Phase::Running {
                    step: k,
                    sub: Sub::ConfigProbe {
                        job: Job::NixRun,
                        command: Some(script_cmd("prepare", &self.cmd.arguments)),
                    },
                },
                Step::Scratch => Phase::Running { step: k, sub: Sub::ScratchProbe },
                Step::CloneRepos => if self.cmd.all {
                    if self.setup.repos.len() > 0 {
                        Phase::Running { step: k, sub: Sub::CloneDir { i: 0 } }
                    } else {
                        self.begin_steps(k + 1)
                    }
                } else {
                    match &self.cmd.name {
                        Some(_) => Phase::Running { step: k, sub: Sub::CloneDir { i: 0 } },
                        None => Phase::Done { result: Err(PnError::AppUnspecified) },
                    }
                },
                Step::ReviewPrs => match &self.cmd.pr {
                    None => Phase::Done { result: Err(PnError::PrUnspecified) },
                    Some(_) => match &self.cmd.name {
                        Some(_) => Phase::Running { step: k, sub: Sub::ReviewCd { i: 0 } },
                        None => if self.setup.apps.len() > 0 {
                            Phase::Running { step: k, sub: Sub::ReviewCd { i: 0 } }
                        } else {
                            self.begin_steps(k + 1)
                        },
                    },
                },
                Step::RunNamed => match &self.cmd.name {
                    None => Phase::Done { result: Err(PnError::CommandUnspecified) },
                    Some(_) => Phase::Running { step: k, sub: Sub::RunScriptProbe },
                },
                Step::PurgeDeps => Phase::Running {
                    step: k,
                    sub: Sub::SetupProbe { job: Job::PurgeCaches, command: None, path: None },
                },
                Step::GhStep => Phase::Running { step: k, sub: Sub::GhRemote },
            }
        }
    }

    /// The effect the machine wants performed next; `None` once the run is
    /// terminal, so a failed check or step leaves nothing further to do.
    pub fn next_action(&self) -> (r: Option<Action>)
        requires
            wf(self@),
        ensures
            (r is None) == (self@.phase is Done),
            r matches Some(a) ==> a@ == action_spec(self@),
    {
        match &self.phase {
            Phase::AwaitConfirm => Some(Action::ConfirmReset),
            Phase::CheckTool { i } => Some(
                Action::ProbeTool { tool: self.setup.tools[*i].clone() },
            ),
            Phase::CheckHost => Some(Action::ResolveHost { host: self.setup.host.clone() }),
            Phase::Running { step, sub } => Some(self.sub_action(*step, sub)),
            Phase::Done { .. } => None,
        }
    }

    /// The target a clone iteration is at.
    fn clone_target(&self, i: usize) -> (r: &String)
        requires
            wf(self@),
            i < clone_targets(self@.cmd, self@.setup).len(),
        ensures
            r@ == clone_targets(self@.cmd, self@.setup)[i as int],
    {
        if self.cmd.all {
            &self.setup.repos[i]
        } else {
            match &self.cmd.name {
                Some(n) => n,
                None => {
                    proof {
                        assert(false);
                    }
                    &self.setup.host
                },
            }
        }
    }

    /// The target a review iteration is at.
    fn review_target(&self, i: usize) -> (r: &String)
        requires
            wf(self@),
            i < review_targets(self@.cmd, self@.setup).len(),
        ensures
            r@ == review_targets(self@.cmd, self@.setup)[i as int],
    {
        match &self.cmd.name {
            Some(n) => n,
            None => &self.setup.apps[i],
        }
    }

    /// The pull-request selector, in a phase whose invariant guarantees it.
    fn pr_value(&self) -> (r: &String)
        requires
            self.cmd.pr is Some,
        ensures
            Some(r@) == self@.cmd.pr,
    {
        match &self.cmd.pr {
            Some(pr) => pr,
            None => {
                proof {
                    assert(false);
                }
                &self.setup.host
            },
        }
    }

    /// The effect pending in a sub-position of step `k`.
    fn sub_action(&self, k: usize, sub: &Sub) -> (r: Action)
        requires
            wf(self@),
            self@.phase matches PhaseV::Running { step, sub: s } && step == k as int && s == sub@,
        ensures
            r@ == sub_action_spec(self@, k as int, sub@),
    {
        match sub {
            Sub::ConfigProbe { .. } => Action::ProbeFile { path: "shell.nix".to_owned() },
            Sub::ConfigRoot { .. } => Action::Launch {
                program: "git".to_owned(),
                args: crate::shell::git_toplevel_args(),
                capture: true,
            },
            Sub::SetupProbe { .. } => Action::ProbeFile {
                path: crate::config::path_concat(self.setup.repo_path.as_str(), "pndev"),
            },
            Sub::SetupDir { .. } => Action::EnsureDir { path: self.setup.repo_path.clone() },
            Sub::SetupClone { .. } => Action::Launch {
                program: "git".to_owned(),
                args: crate::shell::git_clone_args("pndev", self.setup.repo_path.as_str()),
                capture: true,
            },
            Sub::Exec { job, command, path } => job_action(
                *job,
                command,
                path,
                self.setup.compose_path.as_str(),
            ),
            Sub::UpdateCd => Action::ChangeDir {
                path: crate::config::path_concat(self.setup.repo_path.as_str(), "pndev"),
            },
            Sub::UpdatePull => Action::Launch {
                program: "git".to_owned(),
                args: crate::shell::git_pull_args(),
                capture: true,
            },
            Sub::StartScriptProbe => Action::ProbeFile { path: ".pndev/start".to_owned() },
            Sub::StartTomlProbe => Action::ProbeFile { path: "pndev.toml".to_owned() },
            Sub::StartEmberProbe => Action::ProbeFile { path: "ember-cli-build.js".to_owned() },
            Sub::RunScriptProbe => {
                let name: &String = match &self.cmd.name {
                    Some(n) => n,
                    None => {
                        proof {
                            assert(false);
                        }
                        &self.setup.host
                    },
                };
                Action::ProbeFile {
                    path: crate::strutil::str_concat("./.pndev/", name.as_str()),
                }
            },
            Sub::RunTomlProbe => Action::ProbeFile { path: "pndev.toml".to_owned() },
            Sub::ScratchProbe => Action::ProbeFile { path: ".pndev/scratch".to_owned() },
            Sub::TableProbe => Action::ProbeFile { path: "pndev.toml".to_owned() },
            Sub::TableRead => Action::LoadTable { path: "pndev.toml".to_owned() },
            Sub::CredsProbe => Action::ProbeFile {
                path: crate::config::path_concat(self.setup.home.as_str(), ".pn_anonymize_creds"),
            },
            Sub::CloneDir { .. } => Action::EnsureDir { path: self.setup.repo_path.clone() },
            Sub::CloneRun { i } => {
                let target = self.clone_target(*i).clone();
                Action::Launch {
                    program: "git".to_owned(),
                    args: crate::shell::git_clone_args(
                        target.as_str(),
                        self.setup.repo_path.as_str(),
                    ),
                    capture: true,
                }
            },
            Sub::ReviewCd { i } => {
                let target = self.review_target(*i).clone();
                Action::ChangeDir {
                    path: crate::config::path_concat(
                        self.setup.repo_path.as_str(),
                        target.as_str(),
                    ),
                }
            },
            Sub::ReviewFetch { .. } => Action::Launch {
                program: "git".to_owned(),
                args: crate::shell::git_fetch_args(),
                capture: true,
            },
            Sub::ReviewLs { .. } => Action::Launch {
                program: "git".to_owned(),
                args: crate::shell::git_ls_remote_args(self.pr_value().as_str()),
                capture: true,
            },
            Sub::ReviewCheckout { .. } => Action::Launch {
                program: "git".to_owned(),
                args: crate::shell::git_checkout_args(self.pr_value().as_str()),
                capture: true,
            },
            Sub::GhRemote => Action::Launch {
                program: "git".to_owned(),
                args: crate::shell::git_remote_url_args(),
                capture: true,
            },
            Sub::GhOpen { url } => Action::OpenUrl { url: url.clone() },
        }
    }
}

impl Machine {
    /// The phase after absorbing one event, leaving the machine unchanged.
    fn compute_next(&self, ev: Event) -> (p: Phase)
        requires
            wf(self@),
            accepts(self@, ev@),
        ensures
            p@ == step_view(self@, ev@),
            wf(MachineV { phase: p@, ..self@ }),
    {
        match &self.phase {
            Phase::AwaitConfirm => match ev {
                Event::ConfirmAnswered { yes } => if yes {
                    self.begin_check()
                } else {
                    Phase::Done { result: Err(PnError::UserAbort) }
                },
                _ => {
                    proof {
                        assert(false);
                    }
                    Phase::Done { result: Ok(()) }
                },
            },
            Phase::CheckTool { i } => match ev {
                Event::ToolProbed { present } => if !present {
                    Phase::Done {
                        result: Err(
                            PnError::ToolMissing { tool: self.setup.tools[*i].clone() },
                        ),
                    }
                } else if *i < self.setup.tools.len() - 1 {
                    Phase::CheckTool { i: *i + 1 }
                } else {
                    Phase::CheckHost
                },
                _ => {
                    proof {
                        assert(false);
                    }
                    Phase::Done { result: Ok(()) }
                },
            },
            Phase::CheckHost => match ev {
                Event::HostChecked { resolves } => if resolves {
                    self.begin_steps(0)
                } else {
                    Phase::Done { result: Err(PnError::HostUnresolved) }
                },
                _ => {
                    proof {
                        assert(false);
                    }
                    Phase::Done { result: Ok(()) }
                },
            },
            Phase::Running { step, sub } => self.next_in_step(*step, sub, ev),
            Phase::Done { .. } => {
                proof {
                    assert(false);
                }
                Phase::Done { result: Ok(()) }
            },
        }
    }

    /// The phase after the position inside step `k` absorbs one event.
    #[verifier::rlimit(100)]
    fn next_in_step(&self, k: usize, sub: &Sub, ev: Event) -> (p: Phase)
        requires
            wf(self@),
            self@.phase matches PhaseV::Running { step, sub: s } && step == k as int && s == sub@,
            accepts(self@, ev@),
        ensures
            p@ == step_sub_view(self@, k as int, sub@, ev@),
            wf(MachineV { phase: p@, ..self@ }),
    {
        let nsteps = self.steps.len();
        proof {
            assert(k < nsteps);
        }
        match sub {
            Sub::ConfigProbe { job, command } => match ev {
                Event::FileChecked { exists } => if exists {
                    Phase::Running {
                        step: k,
                        sub: Sub::SetupProbe {
                            job: *job,
                            command: clone_opt(command),
                            path: Some("shell.nix".to_owned()),
                        },
                    }
                } else {
                    Phase::Running {
                        step: k,
                        sub: Sub::ConfigRoot { job: *job, command: clone_opt(command) },
                    }
                },
                _ => {
                    proof {
                        assert(false);
                    }
                    Phase::Done { result: Ok(()) }
                },
            },
            Sub::ConfigRoot { job, command } => match ev {
                Event::Ran { outcome } => match outcome {
                    RunOutcome::Exited { code, stdout, stderr } => if div255(code) {
                        Phase::Running {
                            step: k,
                            sub: Sub::SetupProbe {
                                job: *job,
                                command: clone_opt(command),
                                path: Some(root_path(stdout.as_str())),
                            },
                        }
                    } else {
                        Phase::Done { result: Err(PnError::ToolOutput { detail: stderr }) }
                    },
                    RunOutcome::NoCode => Phase::Done {
                        result: Err(PnError::NoExitCode { message: "git".to_owned() }),
                    },
                    RunOutcome::NotLaunched { detail } => Phase::Done {
                        result: Err(PnError::LaunchFailed { detail }),
                    },
                },
                _ => {
                    proof {
                        assert(false);
                    }
                    Phase::Done { result: Ok(()) }
                },
            },
            Sub::SetupProbe { job, command, path } => match ev {
                Event::FileChecked { exists } => if exists {
                    Phase::Running {
                        step: k,
                        sub: Sub::Exec {
                            job: *job,
                            command: clone_opt(command),
                            path: clone_opt(path),
                        },
                    }
                } else {
                    Phase::Running {
                        step: k,
                        sub: Sub::SetupDir {
                            job: *job,
                            command: clone_opt(command),
                            path: clone_opt(path),
                        },
                    }
                },
                _ => {
                    proof {
                        assert(false);
                    }
                    Phase::Done { result: Ok(()) }
                },
            },
            Sub::SetupDir { job, command, path } => match ev {
                Event::DirEnsured { outcome } => match outcome {
                    Ok(()) => Phase::Running {
                        step: k,
                        sub: Sub::SetupClone {
                            job: *job,
                            command: clone_opt(command),
                            path: clone_opt(path),
                        },
                    },
                    Err(detail) => Phase::Done {
                        result: Err(PnError::SystemError { detail }),
                    },
                },
                _ => {
                    proof {
                        assert(false);
                    }
                    Phase::Done { result: Ok(()) }
                },
            },
            Sub::SetupClone { job, command, path } => match ev {
                Event::Ran { outcome } => match outcome {
                    RunOutcome::Exited { code, stdout, stderr } => if div255(code) {
                        Phase::Running {
                            step: k,
                            sub: Sub::Exec {
                                job: *job,
                                command: clone_opt(command),
                                path: clone_opt(path),
                            },
                        }
                    } else {
                        Phase::Done { result: Err(PnError::ToolOutput { detail: stderr }) }
                    },
                    RunOutcome::NoCode => Phase::Done {
                        result: Err(PnError::NoExitCode { message: "git".to_owned() }),
                    },
                    RunOutcome::NotLaunched { detail } => Phase::Done {
                        result: Err(PnError::LaunchFailed { detail }),
                    },
                },
                _ => {
                    proof {
                        assert(false);
                    }
                    Phase::Done { result: Ok(()) }
                },
            },
            Sub::Exec { job, command, path } => match ev {
                Event::Ran { outcome } => match outcome {
                    RunOutcome::Exited { code, stdout, stderr } => if crate::exitcode::is_success(
                        code,
                    ) {
                        self.begin_steps(k + 1)
                    } else {
                        Phase::Done {
                            result: Err(
                                PnError::ExecutionFailure {
                                    message: job_error_text(*job),
                                    code,
                                },
                            ),
                        }
                    },
                    RunOutcome::NoCode => Phase::Done {
                        result: Err(PnError::NoExitCode { message: job_error_text(*job) }),
                    },
                    RunOutcome::NotLaunched { detail } => Phase::Done {
                        result: Err(PnError::SystemError { detail }),
                    },
                },
                _ => {
                    proof {
                        assert(false);
                    }
                    Phase::Done { result: Ok(()) }
                },
            },
            Sub::UpdateCd => match ev {
                Event::DirChanged { outcome } => match outcome {
                    Ok(()) => Phase::Running { step: k, sub: Sub::UpdatePull },
                    Err(detail) => Phase::Done {
                        result: Err(PnError::SystemError { detail }),
                    },
                },
                _ => {
                    proof {
                        assert(false);
                    }
                    Phase::Done { result: Ok(()) }
                },
            },
            Sub::UpdatePull => match ev {
                Event::Ran { outcome } => match outcome {
                    RunOutcome::Exited { code, stdout, stderr } => if div255(code) {
                        self.begin_steps(k + 1)
                    } else {
                        Phase::Done { result: Err(PnError::ToolOutput { detail: stderr }) }
                    },
                    RunOutcome::NoCode => Phase::Done {
                        result: Err(PnError::NoExitCode { message: "git".to_owned() }),
                    },
                    RunOutcome::NotLaunched { detail } => Phase::Done {
                        result: Err(PnError::LaunchFailed { detail }),
                    },
                },
                _ => {
                    proof {
                        assert(false);
                    }
                    Phase::Done { result: Ok(()) }
                },
            },
            Sub::StartScriptProbe => match ev {
                Event::FileChecked { exists } => if exists {
                    Phase::Running {
                        step: k,
                        sub: Sub::ConfigProbe {
                            job: Job::NixRun,
                            command: Some(script_cmd("start", &self.cmd.arguments)),
                        },
                    }
                } else {
                    Phase::Running { step: k, sub: Sub::StartTomlProbe }
                },
                _ => {
                    proof {
                        assert(false);
                    }
                    Phase::Done { result: Ok(()) }
                },
            },
            Sub::StartTomlProbe => match ev {
                Event::FileChecked { exists } => if exists {
                    Phase::Running { step: k, sub: Sub::TableProbe }
                } else {
                    Phase::Running { step: k, sub: Sub::StartEmberProbe }
                },
                _ => {
                    proof {
                        assert(false);
                    }
                    Phase::Done { result: Ok(()) }
                },
            },
            Sub::StartEmberProbe => match ev {
                Event::FileChecked { exists } => if exists {
                    Phase::Running {
                        step: k,
                        sub: Sub::SetupProbe {
                            job: Job::EmberStart,
                            command: None,
                            path: None,
                        },
                    }
                } else {
                    Phase::Done { result: Err(PnError::NoRunnableTarget) }
                },
                _ => {
                    proof {
                        assert(false);
                    }
                    Phase::Done { result: Ok(()) }
                },
            },
            Sub::RunScriptProbe => match ev {
                Event::FileChecked { exists } => if exists {
                    let action = action_name(self.steps[k], &self.cmd.name);
                    Phase::Running {
                        step: k,
                        sub: Sub::ConfigProbe {
                            job: Job::NixRun,
                            command: Some(script_cmd(action.as_str(), &self.cmd.arguments)),
                        },
                    }
                } else {
                    Phase::Running { step: k, sub: Sub::RunTomlProbe }
                },
                _ => {
                    proof {
                        assert(false);
                    }
                    Phase::Done { result: Ok(()) }
                },
            },
            Sub::RunTomlProbe => match ev {
                Event::FileChecked { exists } => if exists {
                    Phase::Running { step: k, sub: Sub::TableProbe }
                } else {
                    Phase::Done {
                        result: Err(
                            PnError::ActionNotFound {
                                action: action_name(self.steps[k], &self.cmd.name),
                            },
                        ),
                    }
                },
                _ => {
                    proof {
                        assert(false);
                    }
                    Phase::Done { result: Ok(()) }
                },
            },
            Sub::ScratchProbe => match ev {
                Event::FileChecked { exists } => if exists {
                    Phase::Running {
                        step: k,
                        sub: Sub::ConfigProbe {
                            job: Job::NixRun,
                            command: Some(script_cmd("scratch", &self.cmd.arguments)),
                        },
                    }
                } else {
                    Phase::Running { step: k, sub: Sub::TableProbe }
                },
                _ => {
                    proof {
                        assert(false);
                    }
                    Phase::Done { result: Ok(()) }
                },
            },
            Sub::TableProbe => match ev {
                Event::FileChecked { exists } => if exists {
                    Phase::Running { step: k, sub: Sub::TableRead }
                } else {
                    Phase::Done { result: Err(PnError::TableNotFound) }
                },
                _ => {
                    proof {
                        assert(false);
                    }
                    Phase::Done { result: Ok(()) }
                },
            },
            Sub::TableRead => match ev {
                Event::TableLoaded { outcome } => match outcome {
                    Err(detail) => Phase::Done {
                        result: Err(PnError::SystemError { detail }),
                    },
                    Ok(content) => {
                        let action = action_name(self.steps[k], &self.cmd.name);
                        match crate::table::resolve(Some(content.as_str()), action.as_str()) {
                            Ok(resolved) => {
                                let with_space = crate::strutil::push_str(resolved, " ");
                                proof {
                                    reveal_strlit(" ");
                                    assert(" "@ =~= seq![' ']);
                                }
                                let joined = crate::strutil::join_with_spaces(
                                    &self.cmd.arguments,
                                );
                                let line = crate::strutil::push_str(
                                    with_space,
                                    joined.as_str(),
                                );
                                Phase::Running {
                                    step: k,
                                    sub: Sub::ConfigProbe {
                                        job: Job::NixRun,
                                        command: Some(line),
                                    },
                                }
                            },
                            Err(ResolveError::TableNotFound) => Phase::Done {
                                result: Err(PnError::TableNotFound),
                            },
                            Err(ResolveError::TableInvalid) => Phase::Done {
                                result: Err(PnError::TableInvalid),
                            },
                            Err(ResolveError::ActionNotFound) => Phase::Done {
                                result: Err(PnError::ActionNotFound { action }),
                            },
                            Err(ResolveError::ActionMalformed) => Phase::Done {
                                result: Err(PnError::ActionMalformed { action }),
                            },
                        }
                    },
                },
                _ => {
                    proof {
                        assert(false);
                    }
                    Phase::Done { result: Ok(()) }
                },
            },
            Sub::CredsProbe => match ev {
                Event::FileChecked { exists } => if exists {
                    self.begin_steps(k + 1)
                } else {
                    Phase::Done { result: Err(PnError::CredsMissing) }
                },
                _ => {
                    proof {
                        assert(false);
                    }
                    Phase::Done { result: Ok(()) }
                },
            },
            Sub::CloneDir { i } => match ev {
                Event::DirEnsured { outcome } => match outcome {
                    Ok(()) => Phase::Running { step: k, sub: Sub::CloneRun { i: *i } },
                    Err(detail) => Phase::Done {
                        result: Err(PnError::SystemError { detail }),
                    },
                },
                _ => {
                    proof {
                        assert(false);
                    }
                    Phase::Done { result: Ok(()) }
                },
            },
            Sub::CloneRun { i } => match ev {
                Event::Ran { outcome } => match outcome {
                    RunOutcome::Exited { code, stdout, stderr } => if div255(code) {
                        let total = if self.cmd.all {
                            self.setup.repos.len()
                        } else {
                            1
                        };
                        if *i + 1 < total {
                            Phase::Running { step: k, sub: Sub::CloneDir { i: *i + 1 } }
                        } else {
                            self.begin_steps(k + 1)
                        }
                    } else {
                        Phase::Done { result: Err(PnError::ToolOutput { detail: stderr }) }
                    },
                    RunOutcome::NoCode => Phase::Done {
                        result: Err(PnError::NoExitCode { message: "git".to_owned() }),
                    },
                    RunOutcome::NotLaunched { detail } => Phase::Done {
                        result: Err(PnError::LaunchFailed { detail }),
                    },
                },
                _ => {
                    proof {
                        assert(false);
                    }
                    Phase::Done { result: Ok(()) }
                },
            },
            Sub::ReviewCd { i } => match ev {
                Event::DirChanged { outcome } => match outcome {
                    Ok(()) => Phase::Running { step: k, sub: Sub::ReviewFetch { i: *i } },
                    Err(detail) => Phase::Done {
                        result: Err(PnError::SystemError { detail }),
                    },
                },
                _ => {
                    proof {
                        assert(false);
                    }
                    Phase::Done { result: Ok(()) }
                },
            },
            Sub::ReviewFetch { i } => match ev {
                Event::Ran { outcome } => match outcome {
                    RunOutcome::Exited { code, stdout, stderr } => if div255(code) {
                        Phase::Running { step: k, sub: Sub::ReviewLs { i: *i } }
                    } else {
                        Phase::Done { result: Err(PnError::ToolOutput { detail: stderr }) }
                    },
                    RunOutcome::NoCode => Phase::Done {
                        result: Err(PnError::NoExitCode { message: "git".to_owned() }),
                    },
                    RunOutcome::NotLaunched { detail } => Phase::Done {
                        result: Err(PnError::LaunchFailed { detail }),
                    },
                },
                _ => {
                    proof {
                        assert(false);
                    }
                    Phase::Done { result: Ok(()) }
                },
            },
            Sub::ReviewLs { i } => match ev {
                Event::Ran { outcome } => match outcome {
                    RunOutcome::Exited { code, stdout, stderr } => if div255(code) {
                        Phase::Running { step: k, sub: Sub::ReviewCheckout { i: *i } }
                    } else {
                        self.next_target(k, *i)
                    },
                    RunOutcome::NoCode => Phase::Done {
                        result: Err(PnError::NoExitCode { message: "git".to_owned() }),
                    },
                    RunOutcome::NotLaunched { detail } => self.next_target(k, *i),
                },
                _ => {
                    proof {
                        assert(false);
                    }
                    Phase::Done { result: Ok(()) }
                },
            },
            Sub::ReviewCheckout { i } => match ev {
                Event::Ran { outcome } => match outcome {
                    RunOutcome::Exited { .. } => self.next_target(k, *i),
                    RunOutcome::NoCode => Phase::Done {
                        result: Err(PnError::NoExitCode { message: "git".to_owned() }),
                    },
                    RunOutcome::NotLaunched { .. } => self.next_target(k, *i),
                },
                _ => {
                    proof {
                        assert(false);
                    }
                    Phase::Done { result: Ok(()) }
                },
            },
            Sub::GhRemote => match ev {
                Event::Ran { outcome } => match outcome {
                    RunOutcome::Exited { code, stdout, stderr } => if div255(code) {
                        match crate::urlparse::extract_repo_name(stdout.as_str()) {
                            Some((org, repo)) => Phase::Running {
                                step: k,
                                sub: Sub::GhOpen {
                                    url: crate::urlparse::github_page_url(
                                        org.as_str(),
                                        repo.as_str(),
                                    ),
                                },
                            },
                            None => Phase::Done { result: Err(PnError::RepoUrlUnknown) },
                        }
                    } else {
                        Phase::Done { result: Err(PnError::ToolOutput { detail: stderr }) }
                    },
                    RunOutcome::NoCode => Phase::Done {
                        result: Err(PnError::NoExitCode { message: "git".to_owned() }),
                    },
                    RunOutcome::NotLaunched { detail } => Phase::Done {
                        result: Err(PnError::LaunchFailed { detail }),
                    },
                },
                _ => {
                    proof {
                        assert(false);
                    }
                    Phase::Done { result: Ok(()) }
                },
            },
            Sub::GhOpen { .. } => match ev {
                Event::Opened => self.begin_steps(k + 1),
                _ => {
                    proof {
                        assert(false);
                    }
                    Phase::Done { result: Ok(()) }
                },
            },
        }
    }

    /// The phase after a review target finishes: the next target, or the
    /// next step past the last target.
    fn next_target(&self, k: usize, i: usize) -> (p: Phase)
        requires
            wf(self@),
            k < self.steps@.len(),
            i < review_targets(self@.cmd, self@.setup).len(),
            self@.cmd.pr is Some,
        ensures
            p@ == next_review_target(self@, k as int, i as int),
            wf(MachineV { phase: p@, ..self@ }),
    {
        let nsteps = self.steps.len();
        let total = match &self.cmd.name {
            Some(_) => 1,
            None => self.setup.apps.len(),
        };
        if i + 1 < total {
            Phase::Running { step: k, sub: Sub::ReviewCd { i: i + 1 } }
        } else {
            self.begin_steps(k + 1)
        }
    }

    /// Absorbs the answer to the pending action, moving the pipeline one
    /// transition forward. The request, orchestration data, and step
    /// sequence never change.
    pub fn absorb(&mut self, ev: Event)
        requires
            wf(old(self)@),
            accepts(old(self)@, ev@),
        ensures
            final(self)@ == (MachineV { phase: step_view(old(self)@, ev@), ..old(self)@ }),
            wf(final(self)@),
    {
        let p = self.compute_next(ev);
        self.phase = p;
    }
}

/// The failure message of a shell job's call site.
fn job_error_text(job: Job) -> (r: String)
    ensures
        r@ == job_error_msg(job),
{
    match job {
        Job::ComposeUp => "Docker up failed".to_owned(),
        Job::ComposeUpRecreate => "Docker up failed".to_owned(),
        Job::ComposeDown => "Docker down failed".to_owned(),
        Job::ComposePs => "Docker ps failed".to_owned(),
        Job::ComposeBuild => "Docker rebuild failed".to_owned(),
        Job::NixRun => "nix-shell --run failed".to_owned(),
        Job::NixBare => "Shell command failed".to_owned(),
        Job::EmberStart => "Shell command failed".to_owned(),
        Job::PurgeCaches => "Shell command failed".to_owned(),
    }
}

impl Command {
    /// Arms the configured request as a pipeline: the prerequisite check —
    /// every required tool, then the hostname — runs first, and the given
    /// steps only after it has passed.
    pub fn check(self, setup: Setup, steps: Vec<Step>) -> (m: Machine)
        ensures
            m@.cmd == self@,
            m@.setup == setup@,
            m@.steps == steps@,
            m@.phase == enter_check(setup@),
            wf(m@),
    {
        let phase = if setup.tools.len() > 0 {
            Phase::CheckTool { i: 0 }
        } else {
            Phase::CheckHost
        };
        Machine { cmd: self, setup, steps, phase }
    }

    /// The shell command: check, bring the stack up, then open a
    /// provisioned shell, running the pass-through arguments when any are
    /// given.
    pub fn shell(setup: Setup, arguments: Vec<String>) -> (m: Machine)
        ensures
            m@.cmd == (CommandV {
                name: None,
                arguments: crate::strutil::views_of(arguments@),
                pr: None,
                all: false,
                docker_only: false,
            }),
            m@.setup == setup@,
            m@.steps == seq![Step::Up, Step::Nix],
            m@.phase == enter_check(setup@),
            wf(m@),
    {
        let cmd = Command::new().arguments(arguments);
        let mut steps: Vec<Step> = Vec::new();
        steps.push(Step::Up);
        steps.push(Step::Nix);
        proof {
            assert(steps@ =~= seq![Step::Up, Step::Nix]);
        }
        cmd.check(setup, steps)
    }

    /// The start command: check, bring the stack up, then start the
    /// application — unless only the container stack was asked for.
    pub fn start(setup: Setup, docker_only: bool) -> (m: Machine)
        ensures
            m@.cmd == (CommandV {
                name: None,
                arguments: Seq::empty(),
                pr: None,
                all: false,
                docker_only,
            }),
            m@.setup == setup@,
            m@.steps == seq![Step::Up, Step::Start],
            m@.phase == enter_check(setup@),
            wf(m@),
    {
        let cmd = Command::new().docker_only(docker_only);
        proof {
            assert(cmd@.arguments =~= Seq::<Seq<char>>::empty());
        }
        let mut steps: Vec<Step> = Vec::new();
        steps.push(Step::Up);
        steps.push(Step::Start);
        proof {
            assert(steps@ =~= seq![Step::Up, Step::Start]);
        }
        cmd.check(setup, steps)
    }

    /// The up command: check, then bring the container stack up.
    pub fn up(setup: Setup) -> (m: Machine)
        ensures
            m@.setup == setup@,
            m@.steps == seq![Step::Up],
            m@.phase == enter_check(setup@),
            wf(m@),
    {
        let mut steps: Vec<Step> = Vec::new();
        steps.push(Step::Up);
        proof {
            assert(steps@ =~= seq![Step::Up]);
        }
        Command::new().check(setup, steps)
    }

    /// The down command: check, then bring the container stack down.
    pub fn down(setup: Setup) -> (m: Machine)
        ensures
            m@.setup == setup@,
            m@.steps == seq![Step::Down],
            m@.phase == enter_check(setup@),
            wf(m@),
    {
        let mut steps: Vec<Step> = Vec::new();
        steps.push(Step::Down);
        proof {
            assert(steps@ =~= seq![Step::Down]);
        }
        Command::new().check(setup, steps)
    }

    /// The ps command: check, then print the container stack status.
    pub fn ps(setup: Setup) -> (m: Machine)
        ensures
            m@.setup == setup@,
            m@.steps == seq![Step::Ps],
            m@.phase == enter_check(setup@),
            wf(m@),
    {
        let mut steps: Vec<Step> = Vec::new();
        steps.push(Step::Ps);
        proof {
            assert(steps@ =~= seq![Step::Ps]);
        }
        Command::new().check(setup, steps)
    }

    /// The reset command. The docker scope refreshes the container
    /// configuration and rebuilds the stack; the deps scope purges the
    /// cached dependency stores; the scratch scope does everything, and
    /// asks for confirmation before anything at all runs.
    pub fn reset(setup: Setup, docker_or_local: ResetType) -> (m: Machine)
        ensures
            m@.setup == setup@,
            m@.steps == match docker_or_local {
                ResetType::Docker => seq![
                    Step::UpdatePndev,
                    Step::Down,
                    Step::Build,
                    Step::UpRecreate,
                ],
                ResetType::Deps => seq![Step::PurgeDeps],
                ResetType::Scratch => seq![
                    Step::Scratch,
                    Step::UpdatePndev,
                    Step::Down,
                    Step::Build,
                    Step::UpRecreate,
                    Step::PurgeDeps,
                ],
            },
            m@.phase == match docker_or_local {
                ResetType::Scratch => PhaseV::AwaitConfirm,
                _ => enter_check(setup@),
            },
            wf(m@),
    {
        match docker_or_local {
            ResetType::Docker => {
                let mut steps: Vec<Step> = Vec::new();
                steps.push(Step::UpdatePndev);
                steps.push(Step::Down);
                steps.push(Step::Build);
                steps.push(Step::UpRecreate);
                proof {
                    assert(steps@ =~= seq![
                        Step::UpdatePndev,
                        Step::Down,
                        Step::Build,
                        Step::UpRecreate,
                    ]);
                }
                Command::new().check(setup, steps)
            },
            ResetType::Deps => {
                let mut steps: Vec<Step> = Vec::new();
                steps.push(Step::PurgeDeps);
                proof {
                    assert(steps@ =~= seq![Step::PurgeDeps]);
                }
                Command::new().check(setup, steps)
            },
            ResetType::Scratch => {
                let mut steps: Vec<Step> = Vec::new();
                steps.push(Step::Scratch);
                steps.push(Step::UpdatePndev);
                steps.push(Step::Down);
                steps.push(Step::Build);
                steps.push(Step::UpRecreate);
                steps.push(Step::PurgeDeps);
                proof {
                    assert(steps@ =~= seq![
                        Step::Scratch,
                        Step::UpdatePndev,
                        Step::Down,
                        Step::Build,
                        Step::UpRecreate,
                        Step::PurgeDeps,
                    ]);
                }
                Machine {
                    cmd: Command::new(),
                    setup,
                    steps,
                    phase: Phase::AwaitConfirm,
                }
            },
        }
    }

    /// The prepare command: check, bring the stack up, require the
    /// credentials file, then run the prepare override script, passing the
    /// big flag through.
    pub fn prepare(setup: Setup, big: bool) -> (m: Machine)
        ensures
            m@.cmd == (CommandV {
                name: None,
                arguments: if big {
                    seq!["--big"@]
                } else {
                    Seq::empty()
                },
                pr: None,
                all: false,
                docker_only: false,
            }),
            m@.setup == setup@,
            m@.steps == seq![Step::Up, Step::HasCreds, Step::Prepare],
            m@.phase == enter_check(setup@),
            wf(m@),
    {
        let mut arguments: Vec<String> = Vec::new();
        if big {
            arguments.push("--big".to_owned());
            proof {
                assert(crate::strutil::views_of(arguments@) =~= seq!["--big"@]);
            }
        } else {
            proof {
                assert(crate::strutil::views_of(arguments@) =~= Seq::<Seq<char>>::empty());
            }
        }
        let cmd = Command::new().arguments(arguments);
        let mut steps: Vec<Step> = Vec::new();
        steps.push(Step::Up);
        steps.push(Step::HasCreds);
        steps.push(Step::Prepare);
        proof {
            assert(steps@ =~= seq![Step::Up, Step::HasCreds, Step::Prepare]);
        }
        cmd.check(setup, steps)
    }

    /// The clone command: check, bring the stack up, then clone the named
    /// target, or the whole fixed list under the all flag.
    pub fn clone(setup: Setup, name: Option<String>, all: bool) -> (m: Machine)
        ensures
            m@.cmd == (CommandV {
                name: match name {
                    Some(n) => Some(n@),
                    None => None,
                },
                arguments: Seq::empty(),
                pr: None,
                all,
                docker_only: false,
            }),
            m@.setup == setup@,
            m@.steps == seq![Step::Up, Step::CloneRepos],
            m@.phase == enter_check(setup@),
            wf(m@),
    {
        let cmd = Command::new().name(name).all(all);
        proof {
            assert(cmd@.arguments =~= Seq::<Seq<char>>::empty());
        }
        let mut steps: Vec<Step> = Vec::new();
        steps.push(Step::Up);
        steps.push(Step::CloneRepos);
        proof {
            assert(steps@ =~= seq![Step::Up, Step::CloneRepos]);
        }
        cmd.check(setup, steps)
    }

    /// The review command: check, bring the stack up, then check the pull
    /// request out in the named target, or in every application of the
    /// fixed list.
    pub fn review(setup: Setup, pr: Option<String>, name: Option<String>) -> (m: Machine)
        ensures
            m@.cmd == (CommandV {
                name: match name {
                    Some(n) => Some(n@),
                    None => None,
                },
                arguments: Seq::empty(),
                pr: match pr {
                    Some(p) => Some(p@),
                    None => None,
                },
                all: false,
                docker_only: false,
            }),
            m@.setup == setup@,
            m@.steps == seq![Step::Up, Step::ReviewPrs],
            m@.phase == enter_check(setup@),
            wf(m@),
    {
        let cmd = Command::new().name(name).pr(pr);
        proof {
            assert(cmd@.arguments =~= Seq::<Seq<char>>::empty());
        }
        let mut steps: Vec<Step> = Vec::new();
        steps.push(Step::Up);
        steps.push(Step::ReviewPrs);
        proof {
            assert(steps@ =~= seq![Step::Up, Step::ReviewPrs]);
        }
        cmd.check(setup, steps)
    }

    /// The run command, also the fallback for unrecognized subcommands:
    /// check, bring the stack up, then run the named action with the
    /// pass-through arguments.
    pub fn run(setup: Setup, name: Option<String>, arguments: Vec<String>) -> (m: Machine)
        ensures
            m@.cmd == (CommandV {
                name: match name {
                    Some(n) => Some(n@),
                    None => None,
                },
                arguments: crate::strutil::views_of(arguments@),
                pr: None,
                all: false,
                docker_only: false,
            }),
            m@.setup == setup@,
            m@.steps == seq![Step::Up, Step::RunNamed],
            m@.phase == enter_check(setup@),
            wf(m@),
    {
        let cmd = Command::new().name(name).arguments(arguments);
        let mut steps: Vec<Step> = Vec::new();
        steps.push(Step::Up);
        steps.push(Step::RunNamed);
        proof {
            assert(steps@ =~= seq![Step::Up, Step::RunNamed]);
        }
        cmd.check(setup, steps)
    }

    /// The gh command: read the current remote and open the repository
    /// page. It runs no prerequisite check.
    pub fn gh(setup: Setup) -> (m: Machine)
        ensures
            m@.setup == setup@,
            m@.steps == seq![Step::GhStep],
            m@.phase == (PhaseV::Running { step: 0, sub: SubV::GhRemote }),
            wf(m@),
    {
        let mut steps: Vec<Step> = Vec::new();
        steps.push(Step::GhStep);
        proof {
            assert(steps@ =~= seq![Step::GhStep]);
        }
        let mut m = Machine {
            cmd: Command::new(),
            setup,
            steps,
            phase: Phase::CheckHost,
        };
        let p = m.begin_steps(0);
        m.phase = p;
        m
    }
}

} // verus!
