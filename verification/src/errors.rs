use vstd::prelude::*;
use vstd::string::StringExecFns;

use crate::numbers::{i32_to_dec, spec_dec_int};

verus! {

/// Everything that can go wrong during one resolve-and-spawn cycle. Each
/// failure is local to a single call and is surfaced synchronously; the
/// caller shows `message()` verbatim to the user.
#[derive(Debug)]
pub enum LaunchError {
    /// No candidate path existed during sidecar resolution; `name` is the
    /// file name that was searched for.
    ResourceNotFound { name: String },
    /// The OS refused or could not perform process creation; `reason` is
    /// the underlying OS error rendered as text.
    SpawnFailed { reason: String },
    /// The direct-executable path waits for the child and reports a
    /// failure when its exit status is non-success; `code` is the child's
    /// exit code when the OS reported one.
    NonZeroExit { code: Option<i32> },
}

/// The human-readable failure reason owed for each error: the searched
/// file name followed by " not found"; the OS error text verbatim; or the
/// child's exit code rendered in decimal.
pub open spec fn spec_message(e: LaunchError) -> Seq<char> {
    match e {
        LaunchError::ResourceNotFound { name } => name@ + " not found"@,
        LaunchError::SpawnFailed { reason } => reason@,
        LaunchError::NonZeroExit { code } => match code {
            Some(c) => "failed to open app: exit code "@ + spec_dec_int(c as int),
            None => "failed to open app: exit code unknown"@,
        },
    }
}

impl LaunchError {
    /// Renders the failure reason that the caller surfaces verbatim to the
    /// end user.
    pub fn message(&self) -> (r: String)
        ensures
            r@ == spec_message(*self),
    {
        match self {
            LaunchError::ResourceNotFound { name } => {
                let mut s = name.clone();
                s.append(" not found");
                s
            },
            LaunchError::SpawnFailed { reason } => reason.clone(),
            LaunchError::NonZeroExit { code } => match code {
                Some(c) => {
                    let mut s: String = "failed to open app: exit code ".to_owned();
                    s.append(i32_to_dec(*c).as_str());
                    s
                },
                None => "failed to open app: exit code unknown".to_owned(),
            },
        }
    }
}

/// View equality for launch errors: same variant, same text content.
pub open spec fn same_error(e1: LaunchError, e2: LaunchError) -> bool {
    match (e1, e2) {
        (
            LaunchError::ResourceNotFound { name: n1 },
            LaunchError::ResourceNotFound { name: n2 },
        ) => n1@ == n2@,
        (LaunchError::SpawnFailed { reason: r1 }, LaunchError::SpawnFailed { reason: r2 }) => r1@
            == r2@,
        (LaunchError::NonZeroExit { code: c1 }, LaunchError::NonZeroExit { code: c2 }) => c1 == c2,
        _ => false,
    }
}

} // verus!
