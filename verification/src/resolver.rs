//! Resolution of the engine launch target, and assembly of the full
//! invocation.
//!
//! The deployment is probed by the boundary layer, which records each
//! candidate location together with whether it exists on disk; the decision
//! itself is a fixed priority search over those plain values: the bundled
//! resource directory first, then the local build-output directory, then the
//! interpreted fallback, whose runtime is searched in its own fixed order
//! with a bare command name as last resort. Resolution fails hard when no
//! candidate matches.

use vstd::prelude::*;
use crate::args::with_format;
use crate::error::FriedmanError;

verus! {

/// How the engine is launched: a standalone binary, or a secondary runtime
/// applied to an entry script inside a project directory.
#[derive(Debug)]
pub enum LaunchTarget {
    Binary { path: String },
    Runtime { runtime: String, project_dir: String, script: String },
}

/// One candidate location, with the result of the existence probe.
pub struct Candidate {
    pub path: String,
    pub exists: bool,
}

/// Everything the priority search reads, as plain values.
pub struct ResolveProbe {
    /// Engine binaries under the bundled resource directory.
    pub resource: Vec<Candidate>,
    /// Engine binaries under the local build-output directory.
    pub local: Vec<Candidate>,
    /// Whether the fallback entry script is present.
    pub script_found: bool,
    /// The fallback project directory.
    pub project_dir: String,
    /// The fallback entry script path.
    pub script_path: String,
    /// Runtime executables, in the fixed search order.
    pub runtime: Vec<Candidate>,
    /// The bare command name assumed to be on the search path when no
    /// runtime candidate exists.
    pub runtime_fallback: String,
}

/// The first candidate at or after `i` whose probe found it on disk.
pub open spec fn first_hit_from(s: Seq<Candidate>, i: int) -> Option<int>
    decreases s.len() - i,
{
    if i < 0 || i >= s.len() {
        None
    } else if s[i].exists {
        Some(i)
    } else {
        first_hit_from(s, i + 1)
    }
}

/// The first candidate that exists, if any.
pub open spec fn first_hit(s: Seq<Candidate>) -> Option<int> {
    first_hit_from(s, 0)
}

/// Find the first existing candidate.
fn pick(v: &Vec<Candidate>) -> (r: Option<usize>)
    ensures
        match r {
            Option::Some(i) => first_hit(v@) == Some(i as int) && i < v@.len(),
            Option::None => first_hit(v@) is None,
        },
{
    let n = v.len();
    let mut i: usize = 0;
    while i < n
        invariant
            i <= n,
            n == v@.len(),
            first_hit(v@) == first_hit_from(v@, i as int),
        decreases n - i,
    {
        if v[i].exists {
            return Some(i);
        }
        i = i + 1;
    }
    None
}

/// The launch target selected by the priority search, or the error shown
/// when nothing was found.
pub fn resolve(probe: &ResolveProbe) -> (r: Result<LaunchTarget, FriedmanError>)
    ensures
        match first_hit(probe.resource@) {
            Option::Some(k) => r matches Ok(LaunchTarget::Binary { path }) && path@
                == probe.resource@[k].path@,
            Option::None => match first_hit(probe.local@) {
                Option::Some(k) => r matches Ok(LaunchTarget::Binary { path }) && path@
                    == probe.local@[k].path@,
                Option::None => {
                    if probe.script_found {
                        r matches Ok(LaunchTarget::Runtime { runtime, project_dir, script })
                            && project_dir@ == probe.project_dir@ && script@ == probe.script_path@
                            && (match first_hit(probe.runtime@) {
                            Option::Some(k) => runtime@ == probe.runtime@[k].path@,
                            Option::None => runtime@ == probe.runtime_fallback@,
                        })
                    } else {
                        r matches Err(FriedmanError::SidecarExec(m)) && m@
                            == "friedman-cli binary not found. For dev mode, run ./scripts/setup-sidecar.sh first."@
                    }
                },
            },
        },
{
    if let Some(k) = pick(&probe.resource) {
        return Ok(LaunchTarget::Binary { path: probe.resource[k].path.clone() });
    }
    if let Some(k) = pick(&probe.local) {
        return Ok(LaunchTarget::Binary { path: probe.local[k].path.clone() });
    }
    if probe.script_found {
        let runtime = match pick(&probe.runtime) {
            Some(k) => probe.runtime[k].path.clone(),
            None => probe.runtime_fallback.clone(),
        };
        return Ok(
            LaunchTarget::Runtime {
                runtime,
                project_dir: probe.project_dir.clone(),
                script: probe.script_path.clone(),
            },
        );
    }
    Err(
        FriedmanError::SidecarExec(
            String::from_str(
                "friedman-cli binary not found. For dev mode, run ./scripts/setup-sidecar.sh first.",
            ),
        ),
    )
}

/// The program to spawn and its full argument list for one invocation:
/// for the interpreted fallback the runtime's project and script arguments
/// come first; the operation's own tokens follow; the machine-readable
/// output flag is always the final token.
pub fn invocation(target: &LaunchTarget, op_args: Vec<String>) -> (r: (String, Vec<String>))
    ensures
        match *target {
            LaunchTarget::Binary { path: ref p } => r.0@ == p@ && r.1.deep_view() == with_format(
                op_args.deep_view(),
            ),
            LaunchTarget::Runtime { runtime: ref rt, project_dir: ref d, script: ref sc } => r.0@
                == rt@ && r.1.deep_view() == seq!["--project="@ + d@, "--startup-file=no"@, sc@]
                + with_format(op_args.deep_view()),
        },
{
    match target {
        LaunchTarget::Binary { path } => (path.clone(), crate::args::finalize(op_args)),
        LaunchTarget::Runtime { runtime, project_dir, script } => {
            let ghost given = op_args.deep_view();
            let mut project_arg = String::from_str("--project=");
            project_arg.append(project_dir.as_str());
            let mut v: Vec<String> = Vec::new();
            v.push(project_arg);
            v.push(String::from_str("--startup-file=no"));
            v.push(script.clone());
            let mut rest = crate::args::finalize(op_args);
            let ghost head = v.deep_view();
            let ghost tail = rest.deep_view();
            v.append(&mut rest);
            proof {
                assert(v.deep_view() =~= head + tail);
                assert(head =~= seq![
                    "--project="@ + project_dir@,
                    "--startup-file=no"@,
                    script@,
                ]);
            }
            (runtime.clone(), v)
        },
    }
}

} // verus!
