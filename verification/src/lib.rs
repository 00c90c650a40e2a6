//! Developer-workstation orchestration core: a command pipeline that sequences
//! prerequisite checks and side-effecting steps, a subprocess invocation
//! abstraction with its exit-code classification policy, and a resolver that
//! maps logical action names to shell command strings from a project-local
//! command table.
//!
//! The library contains only decisions and data: every subprocess launch,
//! filesystem probe, prompt and DNS lookup is described as an [`machine::Action`]
//! value that a thin driver performs, answering with an [`machine::Event`].

pub mod command;
pub mod config;
pub mod doctor;
pub mod error;
pub mod exitcode;
pub mod laws;
pub mod machine;
pub mod numfmt;
pub mod shell;
pub mod strutil;
pub mod table;
pub mod urlparse;
