use agent_policy::binding::policy_digest;
use agent_policy::policy::{
    do_set_policy, is_allowed, is_allowed_copy_file, log_suppressed, query_for, resolve_outcome,
    to_call_result, AgentPolicy, Decision, Diagnostics, PolicyError, Verdict,
};

const STRICT: &str = r#"
package agent_policy

default AllowRequestsFailingPolicy := false
default CreateContainerRequest := false
default SetPolicyRequest := true
default CopyFileRequest := false

CreateContainerRequest {
    print("checking container")
    input.ok == true
}

CopyFileRequest {
    input.symlink_src == "/target"
}
"#;

const LENIENT: &str = r#"
package agent_policy

default AllowRequestsFailingPolicy := true
default CreateContainerRequest := false
"#;

const NO_REPLACE: &str = r#"
package agent_policy

default AllowRequestsFailingPolicy := false
default SetPolicyRequest := false
"#;

fn loaded(text: &str, log: bool) -> AgentPolicy {
    let mut p = AgentPolicy::new();
    assert!(p.initialize("policy.rego", text, log).is_ok());
    p
}

#[test]
fn new_policy_is_strict_and_quiet() {
    let p = AgentPolicy::new();
    assert!(!p.allow_failures());
    assert!(!p.log_enabled());
}

#[test]
fn allowed_call_succeeds() {
    let mut p = loaded(STRICT, false);
    assert!(is_allowed(&mut p, "CreateContainerRequest", r#"{"ok": true}"#).is_ok());
}

#[test]
fn denied_call_names_endpoint_and_prints() {
    let mut p = loaded(STRICT, false);
    match is_allowed(&mut p, "CreateContainerRequest", r#"{"ok": false}"#) {
        Err(PolicyError::Denied { ep, diagnostics }) => {
            assert_eq!(ep, "CreateContainerRequest");
            match diagnostics {
                Diagnostics::Prints(lines) => {
                    assert!(lines.iter().any(|l| l.contains("checking container")));
                }
                Diagnostics::Unavailable(_) => panic!("prints were not gathered"),
            }
        }
        other => panic!("unexpected result {:?}", other),
    }
}

#[test]
fn undefined_rule_is_internal_error() {
    let mut p = loaded(STRICT, false);
    match is_allowed(&mut p, "UnknownRequest", "{}") {
        Err(PolicyError::Internal { ep, .. }) => assert_eq!(ep, "UnknownRequest"),
        other => panic!("unexpected result {:?}", other),
    }
}

#[test]
fn malformed_input_is_internal_error() {
    let mut p = loaded(STRICT, false);
    match is_allowed(&mut p, "CreateContainerRequest", "{not json") {
        Err(PolicyError::Internal { ep, .. }) => assert_eq!(ep, "CreateContainerRequest"),
        other => panic!("unexpected result {:?}", other),
    }
}

#[test]
fn fail_open_policy_allows_denials_and_errors() {
    let mut p = loaded(LENIENT, false);
    assert!(p.allow_failures());
    assert!(is_allowed(&mut p, "CreateContainerRequest", "{}").is_ok());
    assert!(is_allowed(&mut p, "UnknownRequest", "{}").is_ok());
}

#[test]
fn strict_policy_clears_fail_open() {
    let p = loaded(STRICT, false);
    assert!(!p.allow_failures());
}

#[test]
fn invalid_policy_text_is_rejected() {
    let mut p = AgentPolicy::new();
    match p.initialize("bad.rego", "package agent_policy\n this is not rego {", false) {
        Err(PolicyError::Rejected { .. }) => {}
        other => panic!("unexpected result {:?}", other),
    }
}

#[test]
fn copy_file_is_checked_under_its_endpoint() {
    let mut p = loaded(STRICT, false);
    assert!(is_allowed_copy_file(&mut p, r#"{"symlink_src": "/target"}"#).is_ok());
    match is_allowed_copy_file(&mut p, r#"{"symlink_src": ""}"#) {
        Err(PolicyError::Denied { ep, .. }) => assert_eq!(ep, "CopyFileRequest"),
        other => panic!("unexpected result {:?}", other),
    }
}

#[test]
fn set_policy_with_matching_measurement_replaces_rules() {
    let mut p = loaded(STRICT, false);
    let host_data = policy_digest(LENIENT);
    assert!(p.set_policy(LENIENT, &host_data).is_ok());
    assert!(p.allow_failures());
    assert!(is_allowed(&mut p, "CreateContainerRequest", "{}").is_ok());
}

#[test]
fn set_policy_with_other_measurement_keeps_old_rules() {
    let mut p = loaded(STRICT, false);
    let host_data = [0u8; 32];
    match p.set_policy(LENIENT, &host_data) {
        Err(PolicyError::Untrusted(e)) => {
            assert_eq!(e.digest, policy_digest(LENIENT));
            assert_eq!(e.expected, host_data.to_vec());
        }
        other => panic!("unexpected result {:?}", other),
    }
    assert!(!p.allow_failures());
    assert!(is_allowed(&mut p, "CreateContainerRequest", "{}").is_err());
}

#[test]
fn set_policy_with_bad_text_keeps_old_rules() {
    let mut p = loaded(LENIENT, false);
    let bad = "package agent_policy\n broken {";
    match p.set_policy(bad, &policy_digest(bad)) {
        Err(PolicyError::Rejected { .. }) => {}
        other => panic!("unexpected result {:?}", other),
    }
    assert!(p.allow_failures());
}

#[test]
fn do_set_policy_needs_permission() {
    let mut p = loaded(NO_REPLACE, false);
    let host_data = policy_digest(LENIENT);
    match do_set_policy(&mut p, "{}", LENIENT, &host_data) {
        Err(PolicyError::Denied { ep, .. }) => assert_eq!(ep, "SetPolicyRequest"),
        other => panic!("unexpected result {:?}", other),
    }
    assert!(!p.allow_failures());
}

#[test]
fn do_set_policy_checks_measurement() {
    let mut p = loaded(STRICT, false);
    let host_data = policy_digest(LENIENT);
    assert!(do_set_policy(&mut p, "{}", LENIENT, &host_data).is_ok());
    assert!(p.allow_failures());
    let mut q = loaded(STRICT, false);
    assert!(matches!(
        do_set_policy(&mut q, "{}", LENIENT, &[1u8; 32]),
        Err(PolicyError::Untrusted(_))
    ));
}

#[test]
fn log_entry_is_one_record() {
    let p = loaded(STRICT, true);
    assert_eq!(
        p.log_entry("CreateContainerRequest", r#"{"a":1}"#),
        Some("[\"ep\":\"CreateContainerRequest\",{\"a\":1}],\n\n".to_string())
    );
}

#[test]
fn log_entry_skips_suppressed_endpoints() {
    let p = loaded(STRICT, true);
    assert_eq!(p.log_entry("StatsContainerRequest", "{}"), None);
    assert_eq!(p.log_entry("ReadStreamRequest", "{}"), None);
    assert_eq!(p.log_entry("SetPolicyRequest", "{}"), None);
    assert!(log_suppressed("SetPolicyRequest"));
    assert!(!log_suppressed("SetPolicy"));
}

#[test]
fn log_entry_absent_when_log_disabled() {
    let p = loaded(STRICT, false);
    assert_eq!(p.log_entry("CreateContainerRequest", "{}"), None);
}

#[test]
fn query_is_namespaced() {
    assert_eq!(query_for("ExecProcessRequest"), "data.agent_policy.ExecProcessRequest");
}

#[test]
fn outcome_resolution_without_fail_open() {
    assert_eq!(resolve_outcome(Ok(true), false), Ok(Verdict { allowed: true, overridden: false }));
    assert_eq!(resolve_outcome(Ok(false), false), Ok(Verdict { allowed: false, overridden: false }));
    assert_eq!(resolve_outcome(Err("boom".to_string()), false), Err("boom".to_string()));
}

#[test]
fn outcome_resolution_with_fail_open() {
    assert_eq!(resolve_outcome(Ok(true), true), Ok(Verdict { allowed: true, overridden: false }));
    assert_eq!(resolve_outcome(Ok(false), true), Ok(Verdict { allowed: true, overridden: true }));
    assert_eq!(resolve_outcome(Err("boom".to_string()), true), Ok(Verdict { allowed: true, overridden: true }));
}

#[test]
fn call_result_mapping() {
    let allowed = Decision { allowed: true, overridden: false, diagnostics: Diagnostics::Prints(vec![]) };
    assert!(to_call_result("X", Ok(allowed)).is_ok());
    let denied = Decision { allowed: false, overridden: false, diagnostics: Diagnostics::Prints(vec!["why".to_string()]) };
    match to_call_result("X", Ok(denied)) {
        Err(PolicyError::Denied { ep, diagnostics: Diagnostics::Prints(lines) }) => {
            assert_eq!(ep, "X");
            assert_eq!(lines, vec!["why".to_string()]);
        }
        other => panic!("unexpected result {:?}", other),
    }
    match to_call_result("Y", Err("cause".to_string())) {
        Err(PolicyError::Internal { ep, cause }) => {
            assert_eq!(ep, "Y");
            assert_eq!(cause, "cause");
        }
        other => panic!("unexpected result {:?}", other),
    }
}

#[test]
fn fail_open_decision_is_marked_overridden() {
    let mut p = loaded(LENIENT, false);
    let d = p.allow_request("CreateContainerRequest", "{}").unwrap();
    assert!(d.allowed);
    assert!(d.overridden);
    let mut q = loaded(STRICT, false);
    let d = q.allow_request("CreateContainerRequest", r#"{"ok": true}"#).unwrap();
    assert!(d.allowed);
    assert!(!d.overridden);
}

#[test]
fn fail_open_allows_malformed_input() {
    let mut p = loaded(LENIENT, false);
    assert!(is_allowed(&mut p, "CreateContainerRequest", "{not json").is_ok());
    let d = p.allow_request("CreateContainerRequest", "{not json").unwrap();
    assert!(d.allowed);
    assert!(d.overridden);
    assert!(is_allowed_copy_file(&mut p, "[").is_ok());
}

#[test]
fn denied_replacement_keeps_fail_open_state() {
    let mut p = loaded(NO_REPLACE, false);
    let before = p.allow_failures();
    let r = do_set_policy(&mut p, "{", STRICT, &policy_digest(STRICT));
    assert!(matches!(r, Err(PolicyError::Internal { .. })));
    assert_eq!(p.allow_failures(), before);
}
