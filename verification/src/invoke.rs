use vstd::prelude::*;

use crate::args::{spec_split_ws, split_whitespace_args};
use crate::codec::{b64_of, encoded_payload};
use crate::errors::LaunchError;
use crate::host::HostOs;
use crate::resolve::{
    env_overrides_of, resolve, same_env_views, spec_binary_candidates, spec_script_candidates,
    EnvVar, ResolvedCommand,
};
use crate::strategy::{
    classify, installer_binary_name, is_binary_case, is_direct_case, is_script_case,
    lemma_classification_total, script_name_for, LaunchStrategy,
};

verus! {

/// A fully assembled launch: the program to start, its argument list, the
/// environment overrides, and whether the caller waits for the child's
/// exit status (direct launches) or fires and forgets (sidecar launches).
#[derive(Debug)]
pub struct Invocation {
    pub program: String,
    pub args: Vec<String>,
    pub env: Vec<EnvVar>,
    pub wait_for_exit: bool,
}

/// Name of the script interpreter that runs sidecar scripts.
pub open spec fn interpreter_name() -> Seq<char> {
    "node"@
}

/// Exact statement of the invocation the invoker assembles from a
/// strategy, a resolved command, and a payload.
pub open spec fn invocation_of(
    strategy: LaunchStrategy,
    resolved: ResolvedCommand,
    payload: Seq<char>,
    inv: Invocation,
) -> bool {
    &&& same_env_views(inv.env@, resolved.environment_overrides@)
    &&& match strategy {
        LaunchStrategy::DirectExecutable { .. } => {
            &&& inv.program@ == resolved.executable_path@
            &&& inv.args.deep_view() == spec_split_ws(payload)
            &&& inv.wait_for_exit
        },
        LaunchStrategy::SidecarScript { .. } => {
            &&& inv.program@ == interpreter_name()
            &&& inv.args.deep_view() == seq![resolved.executable_path@, b64_of(payload)]
            &&& !inv.wait_for_exit
        },
        LaunchStrategy::SidecarBinary { .. } => {
            &&& inv.program@ == resolved.executable_path@
            &&& inv.args.deep_view() == seq![b64_of(payload)]
            &&& !inv.wait_for_exit
        },
    }
}

/// Assembles the command line for a resolved launch. A sidecar payload is
/// base64-encoded into a single argument to avoid quoting and
/// delimiter-injection hazards; a script launch prepends the interpreter;
/// a direct launch receives the raw payload split on whitespace and is
/// waited for.
pub fn build_invocation(
    strategy: &LaunchStrategy,
    resolved: ResolvedCommand,
    payload: &String,
) -> (inv: Invocation)
    ensures
        invocation_of(*strategy, resolved, payload@, inv),
{
    match strategy {
        LaunchStrategy::DirectExecutable { .. } => Invocation {
            program: resolved.executable_path,
            args: split_whitespace_args(payload.as_str()),
            env: resolved.environment_overrides,
            wait_for_exit: true,
        },
        LaunchStrategy::SidecarScript { .. } => {
            let encoded = encoded_payload(payload);
            let mut args: Vec<String> = Vec::new();
            args.push(resolved.executable_path);
            args.push(encoded);
            proof {
                assert(args.deep_view() =~~= seq![resolved.executable_path@, b64_of(payload@)]);
            }
            Invocation {
                program: "node".to_owned(),
                args,
                env: resolved.environment_overrides,
                wait_for_exit: false,
            }
        },
        LaunchStrategy::SidecarBinary { .. } => {
            let encoded = encoded_payload(payload);
            let mut args: Vec<String> = Vec::new();
            args.push(encoded);
            proof {
                assert(args.deep_view() =~~= seq![b64_of(payload@)]);
            }
            Invocation {
                program: resolved.executable_path,
                args,
                env: resolved.environment_overrides,
                wait_for_exit: false,
            }
        },
    }
}

/// Exact statement of a successful launch plan for a request: which
/// program runs, with which arguments and environment, and whether the
/// caller waits, as a function of the request and the host OS, up to the
/// filesystem-dependent choice among the strategy's candidates.
pub open spec fn plan_of(
    target: Seq<char>,
    payload: Seq<char>,
    host: HostOs,
    cwd: Seq<char>,
    exe_dir: Seq<char>,
    inv: Invocation,
) -> bool {
    if is_direct_case(target) {
        &&& inv.program@ == target
        &&& inv.args.deep_view() == spec_split_ws(payload)
        &&& inv.env@.len() == 0
        &&& inv.wait_for_exit
    } else if is_script_case(target, host) {
        let cands = spec_script_candidates(cwd, script_name_for(host));
        &&& inv.program@ == interpreter_name()
        &&& inv.args.deep_view().len() == 2
        &&& (exists|k: int| 0 <= k < cands.len() && inv.args.deep_view()[0] == cands[k])
        &&& inv.args.deep_view()[1] == b64_of(payload)
        &&& inv.env@.len() == 0
        &&& !inv.wait_for_exit
    } else {
        let cands = spec_binary_candidates(exe_dir, installer_binary_name());
        &&& (exists|k: int| 0 <= k < cands.len() && inv.program@ == cands[k])
        &&& inv.args.deep_view() == seq![b64_of(payload)]
        &&& (env_overrides_of(inv.env@, exe_dir, false) || env_overrides_of(
            inv.env@,
            exe_dir,
            true,
        ))
        &&& !inv.wait_for_exit
    }
}

/// The compute side of the single entry point: classifies the target,
/// resolves it against the filesystem, and assembles the invocation plan.
/// The host layer performs the spawn. A failure is always
/// `ResourceNotFound` for the sidecar file of the host's strategy; a
/// direct launch never fails to plan.
pub fn plan_launch(
    target: &String,
    payload: &String,
    host: HostOs,
    cwd: &String,
    exe_dir: &String,
) -> (r: Result<Invocation, LaunchError>)
    ensures
        match r {
            Ok(inv) => plan_of(target@, payload@, host, cwd@, exe_dir@, inv),
            Err(e) => {
                &&& !is_direct_case(target@)
                &&& e matches LaunchError::ResourceNotFound { name }
                &&& (is_script_case(target@, host) ==> name@ == script_name_for(host))
                &&& (is_binary_case(target@, host) ==> name@ == installer_binary_name())
            },
        },
{
    let strategy = classify(target, host);
    proof {
        lemma_classification_total(target@, host);
    }
    let resolved = match resolve(&strategy, cwd, exe_dir) {
        Ok(c) => c,
        Err(e) => {
            return Err(e);
        },
    };
    Ok(build_invocation(&strategy, resolved, payload))
}

/// Maps the awaited exit status of a direct launch to the call's outcome:
/// success exactly on a successful exit, and otherwise the non-zero exit
/// failure carrying the child's exit code.
pub fn interpret_exit(success: bool, code: Option<i32>) -> (r: Result<(), LaunchError>)
    ensures
        r is Ok <==> success,
        !success ==> (r matches Err(e) && e matches LaunchError::NonZeroExit { code: c } && c
            == code),
{
    if success {
        Ok(())
    } else {
        Err(LaunchError::NonZeroExit { code })
    }
}

} // verus!
