use meshguard::error::format_denial_detail;
use meshguard::{Decision, MeshGuardError, PolicyDecision};

fn denial(action: &str, policy: &str, rule: &str, reason: &str) -> PolicyDecision {
    PolicyDecision {
        allowed: false,
        action: action.into(),
        decision: Decision::Deny,
        policy: policy.into(),
        rule: rule.into(),
        reason: reason.into(),
        trace_id: String::new(),
        timestamp: None,
    }
}

#[test]
fn error_display_authentication() {
    let err = MeshGuardError::Authentication;
    assert_eq!(err.to_string(), "meshguard: invalid or expired token");
}

#[test]
fn error_display_rate_limit() {
    let err = MeshGuardError::RateLimit;
    assert_eq!(err.to_string(), "meshguard: rate limit exceeded");
}

#[test]
fn error_display_api() {
    let err = MeshGuardError::Api {
        status: 500,
        message: "Internal Server Error".into(),
    };
    assert_eq!(
        err.to_string(),
        "meshguard: request failed: 500 Internal Server Error"
    );
}

#[test]
fn error_display_policy_denied() {
    let decision = denial("file.delete", "strict", "no-delete", "Not permitted");

    let err = MeshGuardError::PolicyDenied {
        action: "file.delete".into(),
        policy: "strict".into(),
        rule: "no-delete".into(),
        reason: "Not permitted".into(),
        decision,
    };

    let msg = err.to_string();
    assert!(msg.contains("file.delete"));
    assert!(msg.contains("strict"));
    assert!(msg.contains("no-delete"));
    assert!(msg.contains("Not permitted"));
}

#[test]
fn error_display_policy_denied_minimal() {
    let decision = denial("test", "p1", "", "");

    let err = MeshGuardError::PolicyDenied {
        action: "test".into(),
        policy: "p1".into(),
        rule: String::new(),
        reason: String::new(),
        decision,
    };

    let msg = err.to_string();
    assert!(msg.contains("test"));
    assert!(msg.contains("p1"));
    // Should not contain stray punctuation from empty fields.
    assert!(!msg.contains("(rule: )"));
}

#[test]
fn error_display_policy_denied_exact() {
    let err = MeshGuardError::PolicyDenied {
        action: "file.delete".into(),
        policy: "strict".into(),
        rule: "no-delete".into(),
        reason: "Not permitted".into(),
        decision: denial("file.delete", "strict", "no-delete", "Not permitted"),
    };
    assert_eq!(
        err.to_string(),
        "action \"file.delete\" denied by policy \"strict\" (rule: no-delete): Not permitted"
    );
}

#[test]
fn error_display_policy_denied_reason_only() {
    let err = MeshGuardError::PolicyDenied {
        action: "db.query".into(),
        policy: "strict".into(),
        rule: String::new(),
        reason: "Denied".into(),
        decision: denial("db.query", "strict", "", "Denied"),
    };
    assert_eq!(err.to_string(), "action \"db.query\" denied by policy \"strict\": Denied");
}

#[test]
fn error_display_other_variants() {
    assert_eq!(
        MeshGuardError::Network("connection refused".into()).to_string(),
        "meshguard: network error: connection refused"
    );
    assert_eq!(
        MeshGuardError::Unhealthy("degraded".into()).to_string(),
        "meshguard: gateway unhealthy: degraded"
    );
    assert_eq!(
        MeshGuardError::Env("MESHGUARD_AGENT_TOKEN not set".into()).to_string(),
        "meshguard: environment error: MESHGUARD_AGENT_TOKEN not set"
    );
    assert_eq!(
        MeshGuardError::Api { status: 0, message: "x".into() }.to_string(),
        "meshguard: request failed: 0 x"
    );
    assert_eq!(
        MeshGuardError::Api { status: 65535, message: "y".into() }.to_string(),
        "meshguard: request failed: 65535 y"
    );
}

#[test]
fn denial_detail_variants() {
    assert_eq!(format_denial_detail("", ""), "");
    assert_eq!(format_denial_detail("r1", ""), " (rule: r1)");
    assert_eq!(format_denial_detail("", "why"), ": why");
    assert_eq!(format_denial_detail("r1", "why"), " (rule: r1): why");
}
