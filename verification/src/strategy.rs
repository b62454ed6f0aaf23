use vstd::prelude::*;

use crate::host::HostOs;

verus! {

/// How a launch request is to be carried out, derived purely from the
/// target identifier and the host operating system.
#[derive(Debug)]
pub enum LaunchStrategy {
    /// The target identifier is itself the executable path or name and is
    /// passed through verbatim; the platform's own search rules resolve it.
    DirectExecutable { program: String },
    /// The sidecar tool runs as a script under the script interpreter;
    /// `script_name` is the file name searched for under the candidate
    /// script directories.
    SidecarScript { script_name: String },
    /// The sidecar tool is a standalone compiled binary searched for under
    /// the candidate bundle directories.
    SidecarBinary { binary_name: String },
}

/// The reserved target identifier that selects the sidecar tool.
pub open spec fn sidecar_keyword() -> Seq<char> {
    "playwright"@
}

/// Script file name used on the app-bundle OS.
pub open spec fn bundle_script_name() -> Seq<char> {
    "launch_playwright.js"@
}

/// Script file name used on all other script-interpreter OS families.
pub open spec fn portable_script_name() -> Seq<char> {
    "launch_playwright.cjs"@
}

/// Binary file name used on the installer-bundle OS.
pub open spec fn installer_binary_name() -> Seq<char> {
    "launch_playwright.exe"@
}

/// Holds when the target is not the sidecar keyword: it is launched directly.
pub open spec fn is_direct_case(target: Seq<char>) -> bool {
    target != sidecar_keyword()
}

/// Holds when the sidecar is launched as an interpreted script.
pub open spec fn is_script_case(target: Seq<char>, host: HostOs) -> bool {
    target == sidecar_keyword() && (host is AppBundle || host is Other)
}

/// Holds when the sidecar is launched as a standalone binary.
pub open spec fn is_binary_case(target: Seq<char>, host: HostOs) -> bool {
    target == sidecar_keyword() && host is Installer
}

/// The script file name that belongs to a script-case host.
pub open spec fn script_name_for(host: HostOs) -> Seq<char> {
    if host is AppBundle {
        bundle_script_name()
    } else {
        portable_script_name()
    }
}

/// Exact statement of what `classify` returns for each input.
pub open spec fn classification_of(target: Seq<char>, host: HostOs, s: LaunchStrategy) -> bool {
    &&& (is_direct_case(target) ==> (s matches LaunchStrategy::DirectExecutable { program }
        && program@ == target))
    &&& (is_script_case(target, host) ==> (s matches LaunchStrategy::SidecarScript { script_name }
        && script_name@ == script_name_for(host)))
    &&& (is_binary_case(target, host) ==> (s matches LaunchStrategy::SidecarBinary { binary_name }
        && binary_name@ == installer_binary_name()))
}

/// Maps a target identifier and the host OS to a launch strategy.
///
/// Classification is total: it never fails, and every input pair selects
/// exactly one strategy (see `lemma_classification_total`).
pub fn classify(target: &String, host: HostOs) -> (s: LaunchStrategy)
    ensures
        classification_of(target@, host, s),
{
    let keyword: String = "playwright".to_owned();
    if target.eq(&keyword) {
        match host {
            HostOs::AppBundle => LaunchStrategy::SidecarScript {
                script_name: "launch_playwright.js".to_owned(),
            },
            HostOs::Installer => LaunchStrategy::SidecarBinary {
                binary_name: "launch_playwright.exe".to_owned(),
            },
            HostOs::Other => LaunchStrategy::SidecarScript {
                script_name: "launch_playwright.cjs".to_owned(),
            },
        }
    } else {
        LaunchStrategy::DirectExecutable { program: target.clone() }
    }
}

/// Classification totality: for every (target, host) pair exactly one of
/// the three strategy cases applies, so `classify` always has exactly one
/// strategy to return and never fails.
pub proof fn lemma_classification_total(target: Seq<char>, host: HostOs)
    ensures
        is_direct_case(target) || is_script_case(target, host) || is_binary_case(target, host),
        !(is_direct_case(target) && is_script_case(target, host)),
        !(is_direct_case(target) && is_binary_case(target, host)),
        !(is_script_case(target, host) && is_binary_case(target, host)),
{
}

} // verus!
