use meshguard::admin::{
    admin_error, admin_status_ok, audit_query_params, decode_failure, AdminResponse,
};
use meshguard::request::HttpMethod;
use meshguard::{AuditQueryOptions, MeshGuardClient, MeshGuardError};

fn client() -> MeshGuardClient {
    let mut c = MeshGuardClient::new("https://gw.example.com", "test-token", None, reqwest::Client::new());
    c.set_trace_id("trace-1");
    c
}

fn admin_client() -> MeshGuardClient {
    let mut c = client();
    c.set_admin_token("admin-secret");
    c
}

fn pairs(v: &[(String, String)]) -> Vec<(&str, &str)> {
    v.iter().map(|(a, b)| (a.as_str(), b.as_str())).collect()
}

#[test]
fn list_agents_no_admin_token() {
    let c = client();
    assert!(matches!(c.list_agents_request(), Err(MeshGuardError::Authentication)));
    assert!(matches!(c.admin_headers(), Err(MeshGuardError::Authentication)));
}

#[test]
fn empty_admin_token_is_no_token() {
    let mut c = client();
    c.set_admin_token("");
    assert!(matches!(c.list_policies_request(), Err(MeshGuardError::Authentication)));
}

#[test]
fn admin_token_from_constructor() {
    let c = MeshGuardClient::new("https://gw", "k", Some("env-admin".into()), reqwest::Client::new());
    let h = c.admin_headers().unwrap();
    assert_eq!(h[0], ("X-Admin-Token".to_string(), "env-admin".to_string()));
}

#[test]
fn list_agents_request_success() {
    let c = admin_client();
    let r = c.list_agents_request().unwrap();
    assert!(matches!(r.method, HttpMethod::Get));
    assert_eq!(r.url, "https://gw.example.com/admin/agents");
    assert!(r.query.is_empty());
    assert_eq!(
        pairs(&r.headers),
        vec![("X-Admin-Token", "admin-secret"), ("X-MeshGuard-Trace-ID", "trace-1")]
    );
}

#[test]
fn create_agent_request_success() {
    let c = admin_client();
    let r = c.create_agent_request().unwrap();
    assert!(matches!(r.method, HttpMethod::Post));
    assert_eq!(r.url, "https://gw.example.com/admin/agents");
    assert_eq!(
        pairs(&r.headers),
        vec![
            ("content-type", "application/json"),
            ("X-Admin-Token", "admin-secret"),
            ("X-MeshGuard-Trace-ID", "trace-1"),
        ]
    );
}

#[test]
fn revoke_agent_request_success() {
    let c = admin_client();
    let r = c.revoke_agent_request("agent-1").unwrap();
    assert!(matches!(r.method, HttpMethod::Delete));
    assert_eq!(r.url, "https://gw.example.com/admin/agents/agent-1");
}

#[test]
fn list_policies_request_success() {
    let c = admin_client();
    let r = c.list_policies_request().unwrap();
    assert!(matches!(r.method, HttpMethod::Get));
    assert_eq!(r.url, "https://gw.example.com/admin/policies");
}

#[test]
fn audit_log_with_filters() {
    let c = admin_client();
    let opts = AuditQueryOptions {
        limit: Some(10),
        decision: Some("deny".into()),
        agent_id: Some("agent-1".into()),
        action: None,
    };
    let r = c.audit_log_request(&opts).unwrap();
    assert!(matches!(r.method, HttpMethod::Get));
    assert_eq!(r.url, "https://gw.example.com/admin/audit");
    assert_eq!(
        pairs(&r.query),
        vec![("limit", "10"), ("decision", "deny"), ("agentId", "agent-1")]
    );
    assert_eq!(r.headers.len(), 2);
}

#[test]
fn audit_log_default_limit_is_fifty() {
    let q = audit_query_params(&AuditQueryOptions::default());
    assert_eq!(pairs(&q), vec![("limit", "50")]);
    let opts = AuditQueryOptions {
        limit: Some(4_294_967_295),
        decision: None,
        agent_id: None,
        action: Some("file.read".into()),
    };
    assert_eq!(
        pairs(&audit_query_params(&opts)),
        vec![("limit", "4294967295"), ("action", "file.read")]
    );
    let opts = AuditQueryOptions { limit: Some(0), decision: None, agent_id: None, action: None };
    assert_eq!(pairs(&audit_query_params(&opts)), vec![("limit", "0")]);
}

#[test]
fn admin_status_classification() {
    assert!(admin_status_ok(200));
    assert!(admin_status_ok(201));
    assert!(admin_status_ok(204));
    assert!(admin_status_ok(399));
    assert!(!admin_status_ok(400));
    assert!(!admin_status_ok(599));
    assert!(admin_status_ok(600));
}

#[test]
fn admin_error_mapping() {
    assert!(matches!(admin_error(401, "x".into()), MeshGuardError::Authentication));
    assert!(matches!(admin_error(429, "x".into()), MeshGuardError::RateLimit));
    match admin_error(403, "forbidden".into()) {
        MeshGuardError::Api { status, message } => {
            assert_eq!(status, 403);
            assert_eq!(message, "forbidden");
        }
        other => panic!("unexpected {other:?}"),
    }
    match admin_error(500, "boom".into()) {
        MeshGuardError::Api { status, message } => {
            assert_eq!(status, 500);
            assert_eq!(message, "boom");
        }
        other => panic!("unexpected {other:?}"),
    }
}

#[test]
fn decode_failure_messages() {
    let cases = [
        (AdminResponse::Agents, "failed to decode agents response: eof"),
        (AdminResponse::CreatedAgent, "failed to decode create agent response: eof"),
        (AdminResponse::Policies, "failed to decode policies response: eof"),
        (AdminResponse::AuditLog, "failed to decode audit log response: eof"),
    ];
    for (what, expected) in cases {
        match decode_failure(what, "eof") {
            MeshGuardError::Api { status, message } => {
                assert_eq!(status, 0);
                assert_eq!(message, expected);
            }
            other => panic!("unexpected {other:?}"),
        }
    }
}
