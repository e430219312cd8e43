//! Classification of engine output: JSON extraction from noisy text and
//! the error taxonomy.

use friedman::error::FriedmanError;
use friedman::interpret::{extract_json, interpret_output};

#[test]
fn whole_output_is_json() {
    let payload = "{\"coefficients\": [0.5, -0.2], \"lags\": 2}";
    let r = interpret_output(0, payload, "");
    let expected: serde_json::Value = serde_json::from_str(payload).unwrap();
    assert_eq!(r.unwrap(), expected);
}

#[test]
fn banner_around_json_round_trip() {
    let inner = "{\"result\": {\"msg\": \"closing \\\" } brace\", \"xs\": [1, 2]}, \"ok\": true}";
    let noisy = format!("Info: loading data\nprogress 50%\n{inner}\nall done\n");
    let r = interpret_output(0, &noisy, "");
    let expected: serde_json::Value = serde_json::from_str(inner).unwrap();
    assert_eq!(r.unwrap(), expected);
}

#[test]
fn banner_array_payload() {
    let r = interpret_output(0, "starting up [1, 2, 3] bye", "");
    let expected: serde_json::Value = serde_json::from_str("[1, 2, 3]").unwrap();
    assert_eq!(r.unwrap(), expected);
}

#[test]
fn no_json_found() {
    let out = "nothing to see here";
    match interpret_output(0, out, "") {
        Err(FriedmanError::JsonParse(m)) => assert_eq!(m, out),
        _ => panic!("expected a malformed-output error"),
    }
}

#[test]
fn unbalanced_candidate_is_malformed() {
    let out = "prefix {\"a\": [1, 2";
    match interpret_output(0, out, "") {
        Err(FriedmanError::JsonParse(m)) => assert_eq!(m, out),
        _ => panic!("expected a malformed-output error"),
    }
}

#[test]
fn nonzero_exit_skips_extraction() {
    let r = interpret_output(3, "{\"valid\": true}", "singular matrix");
    match r {
        Err(FriedmanError::SidecarExit { code, stderr }) => {
            assert_eq!(code, 3);
            assert_eq!(stderr, "singular matrix");
        },
        _ => panic!("expected a computational error"),
    }
}

#[test]
fn extract_json_exact_substring() {
    assert_eq!(extract_json("xx{\"a\":1}yy"), Some("{\"a\":1}"));
    assert_eq!(extract_json("none at all"), None);
    assert_eq!(extract_json("quoted \"{\" only"), None);
    assert_eq!(extract_json("say \"hi\" then {\"a\": \"}\"} end"), Some("{\"a\": \"}\"}"));
}

#[test]
fn error_messages_keep_their_prefixes() {
    let e = FriedmanError::SidecarExec("spawn failed".to_string());
    assert_eq!(e.message(), "Sidecar execution failed: spawn failed");
    let e = FriedmanError::SidecarExit { code: 1, stderr: "bad data".to_string() };
    assert_eq!(e.message(), "Sidecar returned non-zero exit: bad data");
    let e = FriedmanError::JsonParse("garbage".to_string());
    assert_eq!(e.message(), "Failed to parse JSON output: garbage");
    let e = FriedmanError::Io("file gone".to_string());
    assert_eq!(e.message(), "IO error: file gone");
    let e = FriedmanError::InvalidParams("no dataset".to_string());
    assert_eq!(e.message(), "Invalid parameters: no dataset");
}

#[test]
fn concurrent_invocations_do_not_interfere() {
    let rt = tokio::runtime::Runtime::new().unwrap();
    let h1 = rt.spawn(async {
        let p = friedman::var::VarEstimateParams {
            data: "a.csv".to_string(),
            lags: Some(2),
            trend: "constant".to_string(),
        };
        let argv = friedman::args::finalize(p.args());
        let out = interpret_output(0, "{\"model\": \"var\"}", "");
        (argv, out.unwrap())
    });
    let h2 = rt.spawn(async {
        let p = friedman::test::TestKpssParams {
            data: "b.csv".to_string(),
            column: 2,
            trend: "trend".to_string(),
        };
        let argv = friedman::args::finalize(p.args());
        let out = interpret_output(0, "{\"model\": \"kpss\"}", "");
        (argv, out.unwrap())
    });
    let (argv1, v1) = rt.block_on(h1).unwrap();
    let (argv2, v2) = rt.block_on(h2).unwrap();
    assert_eq!(argv1[2], "a.csv");
    assert_eq!(argv2[2], "b.csv");
    assert_eq!(v1, serde_json::from_str::<serde_json::Value>("{\"model\": \"var\"}").unwrap());
    assert_eq!(v2, serde_json::from_str::<serde_json::Value>("{\"model\": \"kpss\"}").unwrap());
}
