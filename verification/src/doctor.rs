//! The standalone diagnostic report.
//!
//! Unlike the strict pipeline precondition, the diagnostic command runs
//! every check unconditionally and reports a per-check verdict, never
//! aborting early. The probes themselves are edge effects; this module
//! holds the verdict logic, notably the quirk of the hosting service's SSH
//! probe, which answers with exit code 1 even when authentication works.

use vstd::prelude::*;

verus! {

/// Whether an SSH authentication probe against the hosting service
/// succeeded: the probe exits with code 1 when access is granted, so a
/// nonnegative code leaving remainder 1 by 255 — and no other — is the
/// passing verdict.
pub open spec fn github_auth_code_ok(c: int) -> bool {
    c >= 0 && c % 255 == 1
}

/// Classifies the SSH probe's exit code; `None` stands for a probe that
/// could not run at all.
pub fn github_auth_ok(probe: Option<i32>) -> (r: bool)
    ensures
        r == match probe {
            Some(code) => github_auth_code_ok(code as int),
            None => false,
        },
{
    match probe {
        Some(code) => code >= 0 && code % 255 == 1,
        None => false,
    }
}

/// The per-check verdicts of one diagnostic run.
#[derive(Debug, Clone, PartialEq, Eq)]
pub struct DoctorReport {
    /// For each required tool, in order, whether it could be launched.
    pub tools_present: Vec<bool>,
    /// Whether the organizational hostname resolves.
    pub host_resolves: bool,
    /// Whether the SSH authentication probe passed.
    pub github_ssh_allowed: bool,
    /// Whether the credentials file is present.
    pub creds_present: bool,
}

impl DoctorReport {
    /// Whether every check passed.
    pub fn all_ok(&self) -> (r: bool)
        ensures
            r == (self.host_resolves && self.github_ssh_allowed && self.creds_present && forall|
                i: int,
            | 0 <= i < self.tools_present@.len() ==> self.tools_present@[i]),
    {
        let mut i: usize = 0;
        let mut tools_ok = true;
        while i < self.tools_present.len()
            invariant
                i <= self.tools_present@.len(),
                tools_ok == forall|j: int| 0 <= j < i ==> self.tools_present@[j],
            decreases self.tools_present@.len() - i,
        {
            if !self.tools_present[i] {
                tools_ok = false;
            }
            i += 1;
        }
        tools_ok && self.host_resolves && self.github_ssh_allowed && self.creds_present
    }
}

/// Assembles the diagnostic verdicts from the raw probe results, applying
/// the SSH probe's exit-code rule.
pub fn doctor(
    tools_present: Vec<bool>,
    host_resolves: bool,
    github_probe: Option<i32>,
    creds_present: bool,
) -> (r: DoctorReport)
    ensures
        r.tools_present@ == tools_present@,
        r.host_resolves == host_resolves,
        r.github_ssh_allowed == match github_probe {
            Some(code) => github_auth_code_ok(code as int),
            None => false,
        },
        r.creds_present == creds_present,
{
    DoctorReport {
        tools_present,
        host_resolves,
        github_ssh_allowed: github_auth_ok(github_probe),
        creds_present,
    }
}

} // verus!
