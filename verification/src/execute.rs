//! The `exec` command's decision: run the command with the binary that is
//! already active, or install the requested version into a scratch
//! directory first.

use vstd::prelude::*;

use crate::version::spec_req_matches;
use crate::version::Constraint;
use crate::version::Version;

verus! {

/// Where `exec` takes its binary from.
pub enum ExecPlan {
    /// Run with the active installation as it stands.
    UseCurrent,
    /// Resolve the constraint, install the matching release into a scratch
    /// directory, and run from there.
    InstallTemporary,
}

/// Decide where `exec` takes its binary from: the active installation
/// serves when no version was requested, or when the active binary's
/// version already satisfies the request; anything else is installed into a
/// scratch directory first.
pub fn setup_exec(version: &Option<Constraint>, current: &Option<Version>) -> (r: ExecPlan)
    ensures
        r is UseCurrent <==> match version {
            None => true,
            Some(c) => current matches Some(cv) && spec_req_matches(c@, cv@),
        },
        r is UseCurrent || r is InstallTemporary,
{
    match version {
        None => ExecPlan::UseCurrent,
        Some(c) => match current {
            Some(cv) => if c.matches(cv) {
                ExecPlan::UseCurrent
            } else {
                ExecPlan::InstallTemporary
            },
            None => ExecPlan::InstallTemporary,
        },
    }
}

} // verus!
