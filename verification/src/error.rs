//! The error taxonomy of the pipeline core.
//!
//! Every failure a pipeline run can report is one of these values. There is
//! no local recovery anywhere in the core: a single failure at any step
//! aborts the whole pipeline, and the caller's only responsibility is to
//! print the message and exit non-zero.

use vstd::prelude::*;
use crate::numfmt::signed_dec_str;
use crate::numfmt::code_to_string;
use crate::strutil::push_str;
use crate::strutil::str_concat;

verus! {

/// A pipeline failure.
#[derive(Debug, Clone, PartialEq, Eq)]
pub enum PnError {
    /// A required tool is not installed.
    ToolMissing { tool: String },
    /// The required organizational hostname does not resolve.
    HostUnresolved,
    /// The user declined the destructive-reset confirmation.
    UserAbort,
    /// `run` was invoked without a command name.
    CommandUnspecified,
    /// `clone` was invoked with neither a name nor the all flag.
    AppUnspecified,
    /// `review` was invoked without a pull-request branch name.
    PrUnspecified,
    /// `start` found neither an override script, a table entry, nor a
    /// recognized framework convention.
    NoRunnableTarget,
    /// The credentials file the prepare step needs is absent.
    CredsMissing,
    /// No command table file is present where one is required.
    TableNotFound,
    /// The command table is present but is not valid TOML.
    TableInvalid,
    /// The command table has no entry under the requested name.
    ActionNotFound { action: String },
    /// The table entry exists but its value is not a plain string.
    ActionMalformed { action: String },
    /// A shell invocation was assembled without a program name.
    MissingProgram,
    /// A launched subprocess exited with a non-success code.
    ExecutionFailure { message: String, code: i32 },
    /// A subprocess was killed abnormally, leaving no exit code.
    NoExitCode { message: String },
    /// A subprocess could not be launched at all.
    LaunchFailed { detail: String },
    /// A captured tool run failed; its error output is reported verbatim.
    ToolOutput { detail: String },
    /// A filesystem or directory-change operation failed.
    SystemError { detail: String },
    /// The repository remote does not follow the recognized URL shape.
    RepoUrlUnknown,
}

/// The mathematical shape of a [`PnError`], with every string a `Seq<char>`.
pub ghost enum PnErrorV {
    ToolMissing { tool: Seq<char> },
    HostUnresolved,
    UserAbort,
    CommandUnspecified,
    AppUnspecified,
    PrUnspecified,
    NoRunnableTarget,
    CredsMissing,
    TableNotFound,
    TableInvalid,
    ActionNotFound { action: Seq<char> },
    ActionMalformed { action: Seq<char> },
    MissingProgram,
    ExecutionFailure { message: Seq<char>, code: int },
    NoExitCode { message: Seq<char> },
    LaunchFailed { detail: Seq<char> },
    ToolOutput { detail: Seq<char> },
    SystemError { detail: Seq<char> },
    RepoUrlUnknown,
}

impl View for PnError {
    type V = PnErrorV;

    open spec fn view(&self) -> PnErrorV {
        match self {
            PnError::ToolMissing { tool } => PnErrorV::ToolMissing { tool: tool@ },
            PnError::HostUnresolved => PnErrorV::HostUnresolved,
            PnError::UserAbort => PnErrorV::UserAbort,
            PnError::CommandUnspecified => PnErrorV::CommandUnspecified,
            PnError::AppUnspecified => PnErrorV::AppUnspecified,
            PnError::PrUnspecified => PnErrorV::PrUnspecified,
            PnError::NoRunnableTarget => PnErrorV::NoRunnableTarget,
            PnError::CredsMissing => PnErrorV::CredsMissing,
            PnError::TableNotFound => PnErrorV::TableNotFound,
            PnError::TableInvalid => PnErrorV::TableInvalid,
            PnError::ActionNotFound { action } => PnErrorV::ActionNotFound { action: action@ },
            PnError::ActionMalformed { action } => PnErrorV::ActionMalformed { action: action@ },
            PnError::MissingProgram => PnErrorV::MissingProgram,
            PnError::ExecutionFailure { message, code } => PnErrorV::ExecutionFailure {
                message: message@,
                code: *code as int,
            },
            PnError::NoExitCode { message } => PnErrorV::NoExitCode { message: message@ },
            PnError::LaunchFailed { detail } => PnErrorV::LaunchFailed { detail: detail@ },
            PnError::ToolOutput { detail } => PnErrorV::ToolOutput { detail: detail@ },
            PnError::SystemError { detail } => PnErrorV::SystemError { detail: detail@ },
            PnError::RepoUrlUnknown => PnErrorV::RepoUrlUnknown,
        }
    }
}

/// The human-readable message of each failure.
pub open spec fn message_spec(e: PnErrorV) -> Seq<char> {
    match e {
        PnErrorV::ToolMissing { tool } => tool + " not installed, run pndev doctor for help"@,
        PnErrorV::HostUnresolved => "es-dev not configured, run pndev doctor for help"@,
        PnErrorV::UserAbort => "User abort"@,
        PnErrorV::CommandUnspecified => "Please specify a command to run"@,
        PnErrorV::AppUnspecified => "Please specify an app name or --all"@,
        PnErrorV::PrUnspecified => "Please specify a Pull Request (branch name)"@,
        PnErrorV::NoRunnableTarget => "No Ruby or Ember app found"@,
        PnErrorV::CredsMissing => "Please create ~/.pn_anonymize_creds"@,
        PnErrorV::TableNotFound => "pndev.toml not found"@,
        PnErrorV::TableInvalid => "pndev.toml is not a valid command table"@,
        PnErrorV::ActionNotFound { action } => "Command "@ + action + " not found"@,
        PnErrorV::ActionMalformed { action } => "Invalid "@ + action + " command"@,
        PnErrorV::MissingProgram => "missing cmd"@,
        PnErrorV::ExecutionFailure { message, code } => message + " (exit code: "@
            + signed_dec_str(code) + ")"@,
        PnErrorV::NoExitCode { message } => message + " (no exit code)"@,
        PnErrorV::LaunchFailed { detail } => detail + " error"@,
        PnErrorV::ToolOutput { detail } => detail,
        PnErrorV::SystemError { detail } => detail,
        PnErrorV::RepoUrlUnknown => "Could not determine repo url"@,
    }
}

impl PnError {
    /// Renders the failure as the message the program reports.
    pub fn message(&self) -> (r: String)
        ensures
            r@ == message_spec(self@),
    {
        match self {
            PnError::ToolMissing { tool } => str_concat(
                tool.as_str(),
                " not installed, run pndev doctor for help",
            ),
            PnError::HostUnresolved => "es-dev not configured, run pndev doctor for help"
                .to_owned(),
            PnError::UserAbort => "User abort".to_owned(),
            PnError::CommandUnspecified => "Please specify a command to run".to_owned(),
            PnError::AppUnspecified => "Please specify an app name or --all".to_owned(),
            PnError::PrUnspecified => "Please specify a Pull Request (branch name)".to_owned(),
            PnError::NoRunnableTarget => "No Ruby or Ember app found".to_owned(),
            PnError::CredsMissing => "Please create ~/.pn_anonymize_creds".to_owned(),
            PnError::TableNotFound => "pndev.toml not found".to_owned(),
            PnError::TableInvalid => "pndev.toml is not a valid command table".to_owned(),
            PnError::ActionNotFound { action } => push_str(
                str_concat("Command ", action.as_str()),
                " not found",
            ),
            PnError::ActionMalformed { action } => push_str(
                str_concat("Invalid ", action.as_str()),
                " command",
            ),
            PnError::MissingProgram => "missing cmd".to_owned(),
            PnError::ExecutionFailure { message, code } => push_str(
                push_str(
                    str_concat(message.as_str(), " (exit code: "),
                    code_to_string(*code).as_str(),
                ),
                ")",
            ),
            PnError::NoExitCode { message } => str_concat(message.as_str(), " (no exit code)"),
            PnError::LaunchFailed { detail } => str_concat(detail.as_str(), " error"),
            PnError::ToolOutput { detail } => detail.clone(),
            PnError::SystemError { detail } => detail.clone(),
            PnError::RepoUrlUnknown => "Could not determine repo url".to_owned(),
        }
    }
}

} // verus!
