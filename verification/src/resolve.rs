use vstd::prelude::*;

use crate::errors::{same_error, LaunchError};
use crate::paths::{join_path, parent_dir, spec_join, spec_parent_of};
use crate::strategy::LaunchStrategy;

verus! {

/// One environment variable handed to the child process.
#[derive(Debug)]
pub struct EnvVar {
    pub name: String,
    pub value: String,
}

/// The resolver's output: the executable to run and the environment
/// overrides it needs. The arguments are assembled later by the invoker.
#[derive(Debug)]
pub struct ResolvedCommand {
    pub executable_path: String,
    pub environment_overrides: Vec<EnvVar>,
}

/// Name of the environment variable through which the sidecar binary is
/// told where its runtime browser assets live.
pub open spec fn browsers_env_name() -> Seq<char> {
    "PLAYWRIGHT_BROWSERS_PATH"@
}

/// Name of the optional assets directory adjacent to the sidecar binary.
pub open spec fn browsers_dir_name() -> Seq<char> {
    "playwright-browsers"@
}

/// Ordered candidate locations for a sidecar script: the working
/// directory's `scripts` folder first (source checkout), then the parent
/// directory's `scripts` folder (nested build output), when a parent exists.
pub open spec fn spec_script_candidates(cwd: Seq<char>, name: Seq<char>) -> Seq<Seq<char>> {
    let first = spec_join(spec_join(cwd, "scripts"@), name);
    match spec_parent_of(cwd) {
        Some(par) => seq![first, spec_join(spec_join(par, "scripts"@), name)],
        None => seq![first],
    }
}

/// Ordered candidate locations for the sidecar binary inside the installed
/// bundle: beside the executable, then under `binaries`, then under
/// `resources`.
pub open spec fn spec_binary_candidates(exe_dir: Seq<char>, name: Seq<char>) -> Seq<Seq<char>> {
    seq![
        spec_join(exe_dir, name),
        spec_join(spec_join(exe_dir, "binaries"@), name),
        spec_join(spec_join(exe_dir, "resources"@), name),
    ]
}

/// All candidate paths of a strategy, in probe order. A direct executable
/// has none: its existence is never checked, the OS spawn call decides.
pub open spec fn spec_candidates(
    strategy: LaunchStrategy,
    cwd: Seq<char>,
    exe_dir: Seq<char>,
) -> Seq<Seq<char>> {
    match strategy {
        LaunchStrategy::DirectExecutable { .. } => seq![],
        LaunchStrategy::SidecarScript { script_name } => spec_script_candidates(
            cwd,
            script_name@,
        ),
        LaunchStrategy::SidecarBinary { binary_name } => spec_binary_candidates(
            exe_dir,
            binary_name@,
        ),
    }
}

/// Builds the candidate paths of a strategy, in probe order.
pub fn candidate_paths(strategy: &LaunchStrategy, cwd: &String, exe_dir: &String) -> (r: Vec<
    String,
>)
    ensures
        r.deep_view() == spec_candidates(*strategy, cwd@, exe_dir@),
{
    let mut v: Vec<String> = Vec::new();
    match strategy {
        LaunchStrategy::DirectExecutable { .. } => {
            proof {
                assert(v.deep_view() =~~= spec_candidates(*strategy, cwd@, exe_dir@));
            }
        },
        LaunchStrategy::SidecarScript { script_name } => {
            let scripts_dir = join_path(cwd.as_str(), "scripts");
            v.push(join_path(scripts_dir.as_str(), script_name.as_str()));
            match parent_dir(cwd.as_str()) {
                Some(par) => {
                    let parent_scripts = join_path(par.as_str(), "scripts");
                    v.push(join_path(parent_scripts.as_str(), script_name.as_str()));
                },
                None => {},
            }
            proof {
                assert(v.deep_view() =~~= spec_candidates(*strategy, cwd@, exe_dir@));
            }
        },
        LaunchStrategy::SidecarBinary { binary_name } => {
            v.push(join_path(exe_dir.as_str(), binary_name.as_str()));
            let bin_dir = join_path(exe_dir.as_str(), "binaries");
            v.push(join_path(bin_dir.as_str(), binary_name.as_str()));
            let res_dir = join_path(exe_dir.as_str(), "resources");
            v.push(join_path(res_dir.as_str(), binary_name.as_str()));
            proof {
                assert(v.deep_view() =~~= spec_candidates(*strategy, cwd@, exe_dir@));
            }
        },
    }
    v
}

/// Index of the first present candidate, scanning in order.
pub open spec fn spec_first_present(present: Seq<bool>) -> Option<int>
    decreases present.len(),
{
    if present.len() == 0 {
        None
    } else if present[0] {
        Some(0int)
    } else {
        match spec_first_present(present.drop_first()) {
            Some(i) => Some(i + 1),
            None => None,
        }
    }
}

/// A present candidate with nothing present before it is the one selected.
proof fn lemma_first_present_witness(present: Seq<bool>, k: int)
    requires
        0 <= k < present.len(),
        present[k],
        forall|j: int| 0 <= j < k ==> !present[j],
    ensures
        spec_first_present(present) == Some(k),
    decreases present.len(),
{
    if k > 0 {
        let tail = present.drop_first();
        assert forall|j: int| 0 <= j < k - 1 implies !tail[j] by {
            assert(!present[j + 1]);
        }
        lemma_first_present_witness(tail, k - 1);
    }
}

/// When no candidate is present, none is selected.
proof fn lemma_first_present_none(present: Seq<bool>)
    requires
        forall|j: int| 0 <= j < present.len() ==> !present[j],
    ensures
        spec_first_present(present) is None,
    decreases present.len(),
{
    if present.len() > 0 {
        let tail = present.drop_first();
        assert forall|j: int| 0 <= j < tail.len() implies !tail[j] by {
            assert(!present[j + 1]);
        }
        lemma_first_present_none(tail);
    }
}

/// What selection returns: the index of the first present candidate, and
/// `None` exactly when no candidate is present.
pub proof fn lemma_first_present_characterizes(present: Seq<bool>)
    ensures
        match spec_first_present(present) {
            Some(i) => 0 <= i < present.len() && present[i] && (forall|j: int|
                0 <= j < i ==> !present[j]),
            None => forall|j: int| 0 <= j < present.len() ==> !present[j],
        },
    decreases present.len(),
{
    if present.len() == 0 {
    } else if present[0] {
    } else {
        let tail = present.drop_first();
        lemma_first_present_characterizes(tail);
        match spec_first_present(tail) {
            Some(i) => {
                assert forall|j: int| 0 <= j < i + 1 implies !present[j] by {
                    if j > 0 {
                        assert(!tail[j - 1]);
                    }
                }
            },
            None => {
                assert forall|j: int| 0 <= j < present.len() implies !present[j] by {
                    if j > 0 {
                        assert(!tail[j - 1]);
                    }
                }
            },
        }
    }
}

/// Scans the snapshot in order and returns the first present index.
pub fn first_present(present: &Vec<bool>) -> (r: Option<usize>)
    ensures
        match r {
            Some(k) => spec_first_present(present@) == Some(k as int),
            None => spec_first_present(present@) is None,
        },
{
    let n = present.len();
    let mut i: usize = 0;
    while i < n
        invariant
            i <= n,
            n == present@.len(),
            forall|j: int| 0 <= j < i ==> !present@[j],
        decreases n - i,
    {
        if present[i] {
            proof {
                lemma_first_present_witness(present@, i as int);
            }
            return Some(i);
        }
        i = i + 1;
    }
    proof {
        lemma_first_present_none(present@);
    }
    None
}

/// The environment overrides owed by a resolution: exactly the browser
/// assets variable when the adjacent assets directory is present, nothing
/// otherwise.
pub open spec fn env_overrides_of(
    env: Seq<EnvVar>,
    exe_dir: Seq<char>,
    assets_present: bool,
) -> bool {
    if assets_present {
        &&& env.len() == 1
        &&& env[0].name@ == browsers_env_name()
        &&& env[0].value@ == spec_join(exe_dir, browsers_dir_name())
    } else {
        env.len() == 0
    }
}

/// Exact statement of what resolution returns for a strategy, a filesystem
/// snapshot of its candidates, and the presence of the assets directory.
pub open spec fn resolution_of(
    strategy: LaunchStrategy,
    cwd: Seq<char>,
    exe_dir: Seq<char>,
    present: Seq<bool>,
    assets_present: bool,
    r: Result<ResolvedCommand, LaunchError>,
) -> bool {
    match strategy {
        LaunchStrategy::DirectExecutable { program } => r matches Ok(c) && c.executable_path@
            == program@ && c.environment_overrides@.len() == 0,
        LaunchStrategy::SidecarScript { script_name } => match spec_first_present(present) {
            Some(i) => r matches Ok(c) && c.executable_path@ == spec_script_candidates(
                cwd,
                script_name@,
            )[i] && c.environment_overrides@.len() == 0,
            None => r matches Err(e) && e matches LaunchError::ResourceNotFound { name } && name@
                == script_name@,
        },
        LaunchStrategy::SidecarBinary { binary_name } => match spec_first_present(present) {
            Some(i) => r matches Ok(c) && c.executable_path@ == spec_binary_candidates(
                exe_dir,
                binary_name@,
            )[i] && env_overrides_of(c.environment_overrides@, exe_dir, assets_present),
            None => r matches Err(e) && e matches LaunchError::ResourceNotFound { name } && name@
                == binary_name@,
        },
    }
}

/// Resolves a strategy against an explicit filesystem snapshot: `present`
/// records, per candidate in probe order, whether it exists on disk, and
/// `assets_present` whether the adjacent assets directory does. The first
/// present candidate wins; with none, resolution fails with the searched
/// name. Resolution is a pure function of these inputs.
pub fn resolve_from_snapshot(
    strategy: &LaunchStrategy,
    cwd: &String,
    exe_dir: &String,
    present: &Vec<bool>,
    assets_present: bool,
) -> (r: Result<ResolvedCommand, LaunchError>)
    requires
        present@.len() == spec_candidates(*strategy, cwd@, exe_dir@).len(),
    ensures
        resolution_of(*strategy, cwd@, exe_dir@, present@, assets_present, r),
{
    match strategy {
        LaunchStrategy::DirectExecutable { program } => Ok(
            ResolvedCommand {
                executable_path: program.clone(),
                environment_overrides: Vec::new(),
            },
        ),
        LaunchStrategy::SidecarScript { script_name } => {
            let cands = candidate_paths(strategy, cwd, exe_dir);
            match first_present(present) {
                Some(k) => {
                    proof {
                        lemma_first_present_characterizes(present@);
                        assert(cands@[k as int]@ == cands.deep_view()[k as int]);
                    }
                    Ok(
                        ResolvedCommand {
                            executable_path: cands[k].clone(),
                            environment_overrides: Vec::new(),
                        },
                    )
                },
                None => Err(LaunchError::ResourceNotFound { name: script_name.clone() }),
            }
        },
        LaunchStrategy::SidecarBinary { binary_name } => {
            let cands = candidate_paths(strategy, cwd, exe_dir);
            match first_present(present) {
                Some(k) => {
                    proof {
                        lemma_first_present_characterizes(present@);
                        assert(cands@[k as int]@ == cands.deep_view()[k as int]);
                    }
                    let mut env: Vec<EnvVar> = Vec::new();
                    if assets_present {
                        env.push(
                            EnvVar {
                                name: "PLAYWRIGHT_BROWSERS_PATH".to_owned(),
                                value: join_path(exe_dir.as_str(), "playwright-browsers"),
                            },
                        );
                    }
                    Ok(
                        ResolvedCommand {
                            executable_path: cands[k].clone(),
                            environment_overrides: env,
                        },
                    )
                },
                None => Err(LaunchError::ResourceNotFound { name: binary_name.clone() }),
            }
        },
    }
}

/// Relies on std::path::Path::exists: reports whether the path exists on
/// disk at the moment of the probe. The answer depends on the state of the
/// filesystem, so nothing is promised of it.
#[verifier::external_body]
fn path_exists(p: &String) -> bool {
    std::path::Path::new(p.as_str()).exists()
}

/// Resolves a strategy by probing the filesystem: each candidate is probed
/// in order and the first that exists wins. Whatever the disk held, the
/// selected executable is one of the strategy's candidates, the
/// environment overrides are exactly those owed, and a failure is always
/// `ResourceNotFound` naming the searched file.
pub fn resolve(strategy: &LaunchStrategy, cwd: &String, exe_dir: &String) -> (r: Result<
    ResolvedCommand,
    LaunchError,
>)
    ensures
        (strategy matches LaunchStrategy::DirectExecutable { program } ==> (r matches Ok(c)
            && c.executable_path@ == program@ && c.environment_overrides@.len() == 0)),
        (strategy matches LaunchStrategy::SidecarScript { script_name } ==> match r {
            Ok(c) => ({
                let cands = spec_script_candidates(cwd@, script_name@);
                (exists|k: int| 0 <= k < cands.len() && c.executable_path@ == cands[k])
                    && c.environment_overrides@.len() == 0
            }),
            Err(e) => e matches LaunchError::ResourceNotFound { name } && name@ == script_name@,
        }),
        (strategy matches LaunchStrategy::SidecarBinary { binary_name } ==> match r {
            Ok(c) => ({
                let cands = spec_binary_candidates(exe_dir@, binary_name@);
                (exists|k: int| 0 <= k < cands.len() && c.executable_path@ == cands[k]) && (
                env_overrides_of(c.environment_overrides@, exe_dir@, false) || env_overrides_of(
                    c.environment_overrides@,
                    exe_dir@,
                    true,
                ))
            }),
            Err(e) => e matches LaunchError::ResourceNotFound { name } && name@ == binary_name@,
        }),
{
    let cands = candidate_paths(strategy, cwd, exe_dir);
    let n = cands.len();
    let mut present: Vec<bool> = Vec::new();
    let mut i: usize = 0;
    while i < n
        invariant
            i <= n,
            n == cands@.len(),
            present@.len() == i,
        decreases n - i,
    {
        present.push(path_exists(&cands[i]));
        i = i + 1;
    }
    let assets_present = match strategy {
        LaunchStrategy::SidecarBinary { .. } => {
            let assets_dir = join_path(exe_dir.as_str(), "playwright-browsers");
            path_exists(&assets_dir)
        },
        _ => false,
    };
    let r = resolve_from_snapshot(strategy, cwd, exe_dir, &present, assets_present);
    proof {
        lemma_first_present_characterizes(present@);
    }
    r
}

/// Resolver ordering: when candidate `k` is present and every other
/// candidate is absent, resolution selects exactly candidate `k`, never an
/// earlier absent one.
pub proof fn lemma_resolver_ordering(present: Seq<bool>, k: int)
    requires
        0 <= k < present.len(),
        present[k],
        forall|j: int| 0 <= j < present.len() && j != k ==> !present[j],
    ensures
        spec_first_present(present) == Some(k),
{
    lemma_first_present_witness(present, k);
}

/// Resolution fails exactly when no candidate is present on disk.
pub proof fn lemma_resolver_exhausted(present: Seq<bool>)
    ensures
        spec_first_present(present) is None <==> (forall|j: int|
            0 <= j < present.len() ==> !present[j]),
{
    lemma_first_present_characterizes(present);
    if forall|j: int| 0 <= j < present.len() ==> !present[j] {
        lemma_first_present_none(present);
    }
}

/// Resolver ordering at the command level: when exactly candidate `k` of
/// a sidecar strategy exists on disk, the resolved executable is that
/// candidate — an earlier, absent candidate is never chosen.
pub proof fn lemma_resolution_selects_sole_candidate(
    strategy: LaunchStrategy,
    cwd: Seq<char>,
    exe_dir: Seq<char>,
    present: Seq<bool>,
    assets_present: bool,
    r: Result<ResolvedCommand, LaunchError>,
    k: int,
)
    requires
        resolution_of(strategy, cwd, exe_dir, present, assets_present, r),
        !(strategy matches LaunchStrategy::DirectExecutable { .. }),
        0 <= k < present.len(),
        present[k],
        forall|j: int| 0 <= j < present.len() && j != k ==> !present[j],
    ensures
        r matches Ok(c) && c.executable_path@ == spec_candidates(strategy, cwd, exe_dir)[k],
{
    lemma_first_present_witness(present, k);
}

/// Resolution of a sidecar strategy fails if and only if no candidate
/// exists on disk.
pub proof fn lemma_resolution_fails_only_when_none_exist(
    strategy: LaunchStrategy,
    cwd: Seq<char>,
    exe_dir: Seq<char>,
    present: Seq<bool>,
    assets_present: bool,
    r: Result<ResolvedCommand, LaunchError>,
)
    requires
        resolution_of(strategy, cwd, exe_dir, present, assets_present, r),
        !(strategy matches LaunchStrategy::DirectExecutable { .. }),
    ensures
        r is Err <==> (forall|j: int| 0 <= j < present.len() ==> !present[j]),
{
    lemma_first_present_characterizes(present);
    if forall|j: int| 0 <= j < present.len() ==> !present[j] {
        lemma_first_present_none(present);
    }
}

/// View equality for environment override lists: same length, same names
/// and values.
pub open spec fn same_env_views(a: Seq<EnvVar>, b: Seq<EnvVar>) -> bool {
    &&& a.len() == b.len()
    &&& forall|i: int|
        0 <= i < a.len() ==> a[i].name@ == b[i].name@ && a[i].value@ == b[i].value@
}

/// View equality for resolved commands: same executable, same overrides.
pub open spec fn same_command(c1: ResolvedCommand, c2: ResolvedCommand) -> bool {
    &&& c1.executable_path@ == c2.executable_path@
    &&& same_env_views(c1.environment_overrides@, c2.environment_overrides@)
}

/// Idempotent resolution: resolution is a pure function of the strategy,
/// the two configured directories, and the filesystem snapshot, so two
/// resolutions of identical inputs over an unchanged snapshot return
/// identical commands (or the same failure).
pub proof fn lemma_resolution_idempotent(
    strategy: LaunchStrategy,
    cwd: Seq<char>,
    exe_dir: Seq<char>,
    present: Seq<bool>,
    assets_present: bool,
    r1: Result<ResolvedCommand, LaunchError>,
    r2: Result<ResolvedCommand, LaunchError>,
)
    requires
        resolution_of(strategy, cwd, exe_dir, present, assets_present, r1),
        resolution_of(strategy, cwd, exe_dir, present, assets_present, r2),
    ensures
        match (r1, r2) {
            (Ok(c1), Ok(c2)) => same_command(c1, c2),
            (Err(e1), Err(e2)) => same_error(e1, e2),
            _ => false,
        },
{
}

} // verus!
