//! Launch-target resolution: the fixed priority search, the assembled
//! invocation, and the progress topic.

use friedman::error::FriedmanError;
use friedman::progress::progress_event_name;
use friedman::resolver::{invocation, resolve, Candidate, LaunchTarget, ResolveProbe};

fn cand(path: &str, exists: bool) -> Candidate {
    Candidate { path: path.to_string(), exists }
}

fn probe_with(resource: Vec<Candidate>, local: Vec<Candidate>, script_found: bool, runtime: Vec<Candidate>) -> ResolveProbe {
    ResolveProbe {
        resource,
        local,
        script_found,
        project_dir: "/app/sidecar".to_string(),
        script_path: "/app/sidecar/main.jl".to_string(),
        runtime,
        runtime_fallback: "julia".to_string(),
    }
}

#[test]
fn resource_binary_wins() {
    let p = probe_with(
        vec![cand("/res/friedman-cli", true), cand("/res/friedman-cli.exe", true)],
        vec![cand("/local/friedman-cli", true)],
        true,
        vec![cand("/usr/local/bin/julia", true)],
    );
    match resolve(&p) {
        Ok(LaunchTarget::Binary { path }) => assert_eq!(path, "/res/friedman-cli"),
        _ => panic!("expected the bundled binary"),
    }
}

#[test]
fn local_binary_is_second() {
    let p = probe_with(
        vec![cand("/res/friedman-cli", false)],
        vec![cand("/local/friedman-cli", false), cand("/local/friedman-cli.exe", true)],
        true,
        vec![],
    );
    match resolve(&p) {
        Ok(LaunchTarget::Binary { path }) => assert_eq!(path, "/local/friedman-cli.exe"),
        _ => panic!("expected the local binary"),
    }
}

#[test]
fn runtime_fallback_uses_first_existing_runtime() {
    let p = probe_with(
        vec![cand("/res/friedman-cli", false)],
        vec![cand("/local/friedman-cli", false)],
        true,
        vec![
            cand("/home/u/.juliaup/bin/julia", false),
            cand("/opt/homebrew/bin/julia", true),
            cand("/usr/local/bin/julia", true),
        ],
    );
    match resolve(&p) {
        Ok(LaunchTarget::Runtime { runtime, project_dir, script }) => {
            assert_eq!(runtime, "/opt/homebrew/bin/julia");
            assert_eq!(project_dir, "/app/sidecar");
            assert_eq!(script, "/app/sidecar/main.jl");
        },
        _ => panic!("expected the interpreted fallback"),
    }
}

#[test]
fn runtime_fallback_assumes_search_path_last() {
    let p = probe_with(vec![], vec![], true, vec![cand("/usr/local/bin/julia", false)]);
    match resolve(&p) {
        Ok(LaunchTarget::Runtime { runtime, .. }) => assert_eq!(runtime, "julia"),
        _ => panic!("expected the bare command name"),
    }
}

#[test]
fn nothing_found_is_a_resolution_error() {
    let p = probe_with(vec![cand("/res/friedman-cli", false)], vec![], false, vec![]);
    match resolve(&p) {
        Err(FriedmanError::SidecarExec(m)) => {
            assert_eq!(
                m,
                "friedman-cli binary not found. For dev mode, run ./scripts/setup-sidecar.sh first."
            );
        },
        _ => panic!("expected a resolution error"),
    }
}

#[test]
fn binary_invocation_appends_format_flag() {
    let t = LaunchTarget::Binary { path: "/res/friedman-cli".to_string() };
    let (prog, argv) = invocation(&t, vec!["var".to_string(), "estimate".to_string(), "d.csv".to_string()]);
    assert_eq!(prog, "/res/friedman-cli");
    assert_eq!(argv, vec!["var", "estimate", "d.csv", "--format=json"]);
}

#[test]
fn runtime_invocation_prepends_runtime_arguments() {
    let t = LaunchTarget::Runtime {
        runtime: "/usr/local/bin/julia".to_string(),
        project_dir: "/app/sidecar".to_string(),
        script: "/app/sidecar/main.jl".to_string(),
    };
    let (prog, argv) = invocation(&t, vec!["var".to_string(), "stability".to_string(), "d.csv".to_string()]);
    assert_eq!(prog, "/usr/local/bin/julia");
    assert_eq!(
        argv,
        vec![
            "--project=/app/sidecar",
            "--startup-file=no",
            "/app/sidecar/main.jl",
            "var",
            "stability",
            "d.csv",
            "--format=json",
        ]
    );
}

#[test]
fn progress_topic_is_scoped_by_job() {
    assert_eq!(progress_event_name("job-42"), "friedman://progress/job-42");
    assert_eq!(progress_event_name(""), "friedman://progress/");
}
