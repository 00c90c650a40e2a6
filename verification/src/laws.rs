//! The behavioural laws of the pipeline core, stated and proved once over
//! the transition specification that every executable function is pinned
//! to.

use vstd::prelude::*;
use crate::command::CommandV;
use crate::command::SetupV;
use crate::error::PnErrorV;
use crate::exitcode::is_success_code;
use crate::machine::accepts;
use crate::machine::clone_targets;
use crate::machine::enter_steps;
use crate::machine::step_view;
use crate::machine::wf;
use crate::machine::EventV;
use crate::machine::Job;
use crate::machine::MachineV;
use crate::machine::PhaseV;
use crate::machine::RunOutcomeV;
use crate::machine::Step;
use crate::machine::SubV;
use crate::table::resolve_spec;
use crate::table::toml_table;
use crate::table::ResolveError;

verus! {

/// The exit-code classification law: for every exit code, success is
/// divisibility by 255 or by 130, and nothing else.
pub proof fn exit_code_policy(c: int)
    ensures
        is_success_code(c) == (c % 255 == 0 || c % 130 == 0),
{
}

/// Resolving any action against an absent table always reports that the
/// table is missing — never that the action is missing.
pub proof fn absent_table_reports_table_not_found(action: Seq<char>)
    ensures
        resolve_spec(None, action) == Err::<Seq<char>, ResolveError>(ResolveError::TableNotFound),
        resolve_spec(None, action) != Err::<Seq<char>, ResolveError>(ResolveError::ActionNotFound),
{
}

/// Resolving a present table whose entry for the action is not a plain
/// string reports the entry as malformed, never as a success.
pub proof fn malformed_entry_reports_action_malformed(text: Seq<char>, action: Seq<char>)
    requires
        toml_table(text) matches Some(actions) && actions.contains_key(action)
            && actions[action] is None,
    ensures
        resolve_spec(Some(text), action) == Err::<Seq<char>, ResolveError>(
            ResolveError::ActionMalformed,
        ),
        resolve_spec(Some(text), action) !is Ok,
{
}

/// A terminal pipeline accepts no further event, so no step can run after
/// it: completion and failure are both absorbing.
pub proof fn terminal_is_absorbing(mv: MachineV, ev: EventV)
    requires
        mv.phase is Done,
    ensures
        !accepts(mv, ev),
{
}

/// A failing prerequisite check — a tool that cannot be launched, or an
/// unresolvable hostname — moves the pipeline straight to a terminal
/// failure, before any configured step begins; being terminal, it then
/// accepts no further event, so no step is ever executed.
pub proof fn failed_check_halts_pipeline(mv: MachineV, ev: EventV)
    requires
        wf(mv),
        (mv.phase is CheckTool && ev == (EventV::ToolProbed { present: false })) || (mv.phase
            is CheckHost && ev == (EventV::HostChecked { resolves: false })),
    ensures
        step_view(mv, ev) is Done,
        step_view(mv, ev)->Done_result is Err,
        forall|later: EventV| !accepts(MachineV { phase: step_view(mv, ev), ..mv }, later),
{
}

/// A failing clone in a clone-all iteration ends the pipeline with that
/// very target's error output; being terminal, the machine accepts no
/// further event, so the remaining targets are never attempted.
pub proof fn clone_failure_stops_iteration(
    mv: MachineV,
    k: int,
    i: int,
    code: int,
    stdout: Seq<char>,
    stderr: Seq<char>,
)
    requires
        wf(mv),
        mv.phase == (PhaseV::Running { step: k, sub: SubV::CloneRun { i } }),
        code % 255 != 0,
    ensures
        step_view(mv, EventV::Ran { outcome: RunOutcomeV::Exited { code, stdout, stderr } })
            == (PhaseV::Done { result: Err(PnErrorV::ToolOutput { detail: stderr }) }),
        forall|later: EventV|
            !accepts(
                MachineV {
                    phase: step_view(
                        mv,
                        EventV::Ran { outcome: RunOutcomeV::Exited { code, stdout, stderr } },
                    ),
                    ..mv
                },
                later,
            ),
{
}

/// A successful clone in an iteration with targets left moves to exactly
/// the next target: the walk is strictly sequential and in order.
pub proof fn clone_success_advances_in_order(
    mv: MachineV,
    k: int,
    i: int,
    code: int,
    stdout: Seq<char>,
    stderr: Seq<char>,
)
    requires
        wf(mv),
        mv.phase == (PhaseV::Running { step: k, sub: SubV::CloneRun { i } }),
        code % 255 == 0,
        i + 1 < clone_targets(mv.cmd, mv.setup).len(),
    ensures
        step_view(mv, EventV::Ran { outcome: RunOutcomeV::Exited { code, stdout, stderr } })
            == (PhaseV::Running { step: k, sub: SubV::CloneDir { i: i + 1 } }),
{
}

/// Declining the destructive-reset confirmation ends the pipeline with the
/// user-abort failure. The confirmation phase is the initial phase of a
/// destructive reset, so nothing — not even the prerequisite check — has
/// run when the decline arrives, and the terminal machine accepts nothing
/// further.
pub proof fn declined_confirmation_aborts(mv: MachineV)
    ensures
        step_view(mv, EventV::ConfirmAnswered { yes: false }) == if mv.phase is AwaitConfirm {
            PhaseV::Done { result: Err(PnErrorV::UserAbort) }
        } else {
            mv.phase
        },
        forall|later: EventV|
            mv.phase is AwaitConfirm ==> !accepts(
                MachineV { phase: step_view(mv, EventV::ConfirmAnswered { yes: false }), ..mv },
                later,
            ),
{
}

/// Under the container-stack-only flag, entering the start step does not
/// run it: the pipeline moves straight past it, so no start action is
/// resolved from any source.
pub proof fn docker_only_skips_start(cmd: CommandV, setup: SetupV, steps: Seq<Step>, k: int)
    requires
        0 <= k < steps.len(),
        steps[k] is Start,
        cmd.docker_only,
    ensures
        enter_steps(cmd, setup, steps, k) == enter_steps(cmd, setup, steps, k + 1),
{
}

/// In a start pipeline under the container-stack-only flag, the moment the
/// container stack is up the run is complete: the start step never probes
/// for an override script, a command table, or a framework convention.
pub proof fn docker_only_start_completes_after_up(
    mv: MachineV,
    job: Job,
    command: Option<Seq<char>>,
    path: Option<Seq<char>>,
    code: int,
    stdout: Seq<char>,
    stderr: Seq<char>,
)
    requires
        wf(mv),
        mv.cmd.docker_only,
        mv.steps == seq![Step::Up, Step::Start],
        mv.phase == (PhaseV::Running { step: 0, sub: SubV::Exec { job, command, path } }),
        is_success_code(code),
    ensures
        step_view(mv, EventV::Ran { outcome: RunOutcomeV::Exited { code, stdout, stderr } })
            == (PhaseV::Done { result: Ok(()) }),
{
    assert(mv.steps[1] is Start);
    assert(enter_steps(mv.cmd, mv.setup, mv.steps, 2) == (PhaseV::Done {
        result: Ok(()),
    }));
    assert(enter_steps(mv.cmd, mv.setup, mv.steps, 1) == enter_steps(
        mv.cmd,
        mv.setup,
        mv.steps,
        2,
    ));
}

} // verus!
