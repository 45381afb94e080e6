use meshguard::client::{
    clock_now, enforce_outcome, env_settings, utc_from_elapsed, govern_with, handle_error_status, health_outcome,
    metadata_encoding_error, status_error, AllowBody, DenialBody,
};
use meshguard::request::HttpMethod;
use meshguard::{Decision, MeshGuardClient, MeshGuardError, UtcTimestamp};
use std::collections::HashMap;

fn http() -> reqwest::Client {
    reqwest::Client::new()
}

fn client(key: &str) -> MeshGuardClient {
    let mut c = MeshGuardClient::new("https://gw.example.com", key, None, http());
    c.set_trace_id("trace-1");
    c
}

fn pairs(v: &[(String, String)]) -> Vec<(&str, &str)> {
    v.iter().map(|(a, b)| (a.as_str(), b.as_str())).collect()
}

fn no_denial() -> DenialBody {
    DenialBody { policy: String::new(), rule: String::new(), message: String::new() }
}

fn allow_body(policy: &str) -> AllowBody {
    AllowBody { policy: policy.into() }
}

const NOW: UtcTimestamp = UtcTimestamp { seconds: 1_736_937_000, nanos: 0 };

#[test]
fn client_new_trims_trailing_slash() {
    let client = MeshGuardClient::new("https://example.com/", "token", None, http());
    assert_eq!(client.gateway_url(), "https://example.com");
    drop(client);
}

#[test]
fn client_new_accepts_string_types() {
    let _c1 = MeshGuardClient::new("https://example.com", "token", None, http());
    let _c2 = MeshGuardClient::new(
        &String::from("https://example.com"),
        &String::from("token"),
        None,
        http(),
    );
}

#[test]
fn client_new_trims_many_slashes_only_at_end() {
    let c = MeshGuardClient::new("https://example.com/api///", "token", None, http());
    assert_eq!(c.gateway_url(), "https://example.com/api");
    let c = MeshGuardClient::new("///", "token", None, http());
    assert_eq!(c.gateway_url(), "");
}

#[test]
fn client_new_trace_id_is_clock_nanos() {
    let c = MeshGuardClient::new("https://example.com", "token", None, http());
    let t = c.trace_id();
    assert!(!t.is_empty());
    assert!(t.chars().all(|ch| ch.is_ascii_digit()));
    let n: i64 = t.parse().unwrap();
    assert!(n > 1_600_000_000_000_000_000);
}

#[test]
fn auth_headers_with_and_without_key() {
    let c = client("test-token");
    assert_eq!(
        pairs(&c.auth_headers()),
        vec![("X-MeshGuard-Trace-ID", "trace-1"), ("authorization", "Bearer test-token")]
    );
    let c = client("");
    assert_eq!(pairs(&c.auth_headers()), vec![("X-MeshGuard-Trace-ID", "trace-1")]);
}

#[test]
fn check_request_headers_in_order() {
    let c = client("test-token");
    let r = c.check_request("agent-1", "file.read", Some("{\"path\":\"/tmp/test.txt\"}".into()));
    assert!(matches!(r.method, HttpMethod::Get));
    assert_eq!(r.url, "https://gw.example.com/proxy/check");
    assert!(r.query.is_empty());
    assert_eq!(
        pairs(&r.headers),
        vec![
            ("X-MeshGuard-Trace-ID", "trace-1"),
            ("authorization", "Bearer test-token"),
            ("X-MeshGuard-Action", "file.read"),
            ("X-MeshGuard-Agent-ID", "agent-1"),
            ("X-MeshGuard-Meta", "{\"path\":\"/tmp/test.txt\"}"),
        ]
    );
}

#[test]
fn check_request_skips_empty_agent_and_absent_metadata() {
    let c = client("test-token");
    let r = c.check_request("", "file.read", None);
    assert_eq!(
        pairs(&r.headers),
        vec![
            ("X-MeshGuard-Trace-ID", "trace-1"),
            ("authorization", "Bearer test-token"),
            ("X-MeshGuard-Action", "file.read"),
        ]
    );
}

#[test]
fn check_outcome_allowed() {
    let c = client("test-token");
    let d = c.check_outcome("file.read", 200, no_denial(), allow_body("default"), Some(NOW)).unwrap();
    assert!(d.allowed);
    assert_eq!(d.decision, Decision::Allow);
    assert_eq!(d.policy, "default");
    assert_eq!(d.action, "file.read");
    assert_eq!(d.rule, "");
    assert_eq!(d.reason, "");
    assert_eq!(d.trace_id, "trace-1");
    assert_eq!(d.timestamp, Some(NOW));
    let d = c.check_outcome("file.read", 200, no_denial(), allow_body(""), None).unwrap();
    assert_eq!(d.timestamp, None);
}

#[test]
fn check_outcome_denied_is_not_an_error() {
    let c = client("test-token");
    let body = DenialBody {
        policy: "strict".into(),
        rule: "no-write".into(),
        message: "Write access denied".into(),
    };
    let d = c.check_outcome("file.write", 403, body, allow_body("ignored"), Some(NOW)).unwrap();
    assert!(!d.allowed);
    assert_eq!(d.decision, Decision::Deny);
    assert_eq!(d.policy, "strict");
    assert_eq!(d.rule, "no-write");
    assert_eq!(d.reason, "Write access denied");
}

#[test]
fn check_outcome_unauthorized() {
    let c = client("bad-token");
    let r = c.check_outcome("file.read", 401, no_denial(), allow_body(""), Some(NOW));
    assert!(matches!(r, Err(MeshGuardError::Authentication)));
}

#[test]
fn check_outcome_rate_limited() {
    let c = client("test-token");
    let r = c.check_outcome("file.read", 429, no_denial(), allow_body(""), Some(NOW));
    assert!(matches!(r, Err(MeshGuardError::RateLimit)));
}

#[test]
fn check_outcome_server_error() {
    let c = client("test-token");
    let r = c.check_outcome("file.read", 500, no_denial(), allow_body(""), Some(NOW));
    match r {
        Err(MeshGuardError::Api { status, message }) => {
            assert_eq!(status, 500);
            assert_eq!(message, "HTTP 500 Internal Server Error");
        }
        other => panic!("expected Api error, got: {other:?}"),
    }
}

#[test]
fn check_response_stamps_current_time() {
    let c = client("test-token");
    let d = c.check_response("file.read", 204, no_denial(), allow_body("p")).unwrap();
    let t = d.timestamp.unwrap();
    assert!(t.seconds > 1_600_000_000);
    assert!(t.nanos < 1_000_000_000);
}

#[test]
fn status_reason_phrases_from_http() {
    match handle_error_status(404) {
        Err(MeshGuardError::Api { status, message }) => {
            assert_eq!(status, 404);
            assert_eq!(message, "HTTP 404 Not Found");
        }
        other => panic!("unexpected {other:?}"),
    }
    match handle_error_status(599) {
        Err(MeshGuardError::Api { message, .. }) => {
            assert_eq!(message, "HTTP 599 <unknown status code>");
        }
        other => panic!("unexpected {other:?}"),
    }
    assert!(handle_error_status(200).is_ok());
    assert!(handle_error_status(302).is_ok());
    assert!(handle_error_status(600).is_ok());
}

#[test]
fn status_error_uses_given_phrase() {
    match status_error(418, Some("I'm a teapot".into())) {
        Err(MeshGuardError::Api { status, message }) => {
            assert_eq!(status, 418);
            assert_eq!(message, "HTTP 418 I'm a teapot");
        }
        other => panic!("unexpected {other:?}"),
    }
    assert!(matches!(status_error(401, None), Err(MeshGuardError::Authentication)));
    assert!(matches!(status_error(429, None), Err(MeshGuardError::RateLimit)));
    assert!(status_error(399, None).is_ok());
}

#[test]
fn enforce_allowed() {
    let c = client("test-token");
    let checked = c.check_outcome("file.read", 200, no_denial(), allow_body("default"), Some(NOW));
    assert!(enforce_outcome("file.read", checked).is_ok());
}

#[test]
fn enforce_denied_returns_error() {
    let c = client("test-token");
    let body = DenialBody {
        policy: "strict".into(),
        rule: "no-delete".into(),
        message: "Not allowed".into(),
    };
    let checked = c.check_outcome("file.delete", 403, body, allow_body(""), Some(NOW));
    match enforce_outcome("file.delete", checked) {
        Err(MeshGuardError::PolicyDenied { action, policy, rule, reason, decision }) => {
            assert_eq!(action, "file.delete");
            assert_eq!(policy, "strict");
            assert_eq!(rule, "no-delete");
            assert_eq!(reason, "Not allowed");
            assert!(!decision.allowed);
        }
        other => panic!("expected PolicyDenied, got: {other:?}"),
    }
}

#[test]
fn enforce_passes_check_errors_through() {
    let r = enforce_outcome("file.read", Err(MeshGuardError::RateLimit));
    assert!(matches!(r, Err(MeshGuardError::RateLimit)));
}

#[test]
fn govern_executes_on_allow() {
    let result = govern_with(Ok(()), || Ok(42)).unwrap();
    assert_eq!(result, 42);
}

#[test]
fn govern_skips_on_deny() {
    let c = client("test-token");
    let body = DenialBody { policy: "strict".into(), rule: String::new(), message: "Denied".into() };
    let checked = c.check_outcome("db.query", 403, body, allow_body(""), Some(NOW));
    let enforced = enforce_outcome("db.query", checked);
    let result: meshguard::Result<i32> = govern_with(enforced, || {
        panic!("closure should not be called on deny");
    });
    assert!(result.is_err());
}

#[test]
fn proxy_request_trims_path_and_marks_body() {
    let c = client("test-token");
    let r = c.proxy_request(HttpMethod::Other("PATCH".into()), "//api/data", true);
    assert!(matches!(&r.method, HttpMethod::Other(m) if m == "PATCH"));
    assert_eq!(r.url, "https://gw.example.com/proxy/api/data");
    assert_eq!(
        pairs(&r.headers),
        vec![
            ("X-MeshGuard-Trace-ID", "trace-1"),
            ("authorization", "Bearer test-token"),
            ("content-type", "application/json"),
        ]
    );
    let r = c.proxy_request(HttpMethod::Post, "api/data", false);
    assert!(matches!(r.method, HttpMethod::Post));
    assert_eq!(r.url, "https://gw.example.com/proxy/api/data");
    assert_eq!(r.headers.len(), 2);
}

#[test]
fn health_request_has_no_headers() {
    let c = client("test-token");
    let r = c.health_request();
    assert!(matches!(r.method, HttpMethod::Get));
    assert_eq!(r.url, "https://gw.example.com/health");
    assert!(r.headers.is_empty());
}

#[test]
fn health_ok() {
    assert!(health_outcome(200, Ok("healthy".into())).is_ok());
}

#[test]
fn health_unhealthy() {
    match health_outcome(200, Ok("degraded".into())) {
        Err(MeshGuardError::Unhealthy(s)) => assert_eq!(s, "degraded"),
        other => panic!("unexpected {other:?}"),
    }
}

#[test]
fn health_bad_status_and_bad_body() {
    match health_outcome(503, Ok("healthy".into())) {
        Err(MeshGuardError::Unhealthy(s)) => assert_eq!(s, "HTTP 503"),
        other => panic!("unexpected {other:?}"),
    }
    match health_outcome(200, Err("missing field `status`".into())) {
        Err(MeshGuardError::Unhealthy(s)) => {
            assert_eq!(s, "invalid response: missing field `status`")
        }
        other => panic!("unexpected {other:?}"),
    }
}

#[test]
fn env_settings_defaults_and_missing_token() {
    let (url, key) = env_settings(None, Some("tok".into())).unwrap();
    assert_eq!(url, "https://dashboard.meshguard.app");
    assert_eq!(key, "tok");
    let (url, _) = env_settings(Some("https://gw".into()), Some("tok".into())).unwrap();
    assert_eq!(url, "https://gw");
    match env_settings(Some("https://gw".into()), None) {
        Err(MeshGuardError::Env(m)) => assert_eq!(m, "MESHGUARD_AGENT_TOKEN not set"),
        other => panic!("unexpected {other:?}"),
    }
}

#[test]
fn metadata_error_message() {
    match metadata_encoding_error("key must be a string") {
        MeshGuardError::Api { status, message } => {
            assert_eq!(status, 0);
            assert_eq!(message, "failed to serialize metadata: key must be a string");
        }
        other => panic!("unexpected {other:?}"),
    }
}

#[test]
fn check_with_metadata() {
    let c = client("test-token");
    let mut meta = HashMap::new();
    meta.insert(
        "path".to_string(),
        serde_json::Value::String("/tmp/test.txt".to_string()),
    );
    let r = c.check_request_with("agent-1", "file.read", Some(&meta)).unwrap();
    assert!(matches!(r.method, HttpMethod::Get));
    assert_eq!(r.url, "https://gw.example.com/proxy/check");
    assert_eq!(
        pairs(&r.headers).last().copied(),
        Some(("X-MeshGuard-Meta", "{\"path\":\"/tmp/test.txt\"}"))
    );
    let r = c.check_request_with("agent-1", "file.read", None).unwrap();
    assert_eq!(r.headers.len(), 4);
}

#[test]
fn clock_now_reads_after_epoch() {
    let t = clock_now().unwrap();
    assert!(t.seconds > 1_600_000_000);
    assert!(t.nanos < 1_000_000_000);
}

#[test]
fn utc_from_elapsed_after_epoch() {
    assert_eq!(
        utc_from_elapsed(true, 1_736_937_000, 5),
        Some(UtcTimestamp { seconds: 1_736_937_000, nanos: 5 })
    );
    assert_eq!(
        utc_from_elapsed(true, i64::MAX as u64, 0),
        Some(UtcTimestamp { seconds: i64::MAX, nanos: 0 })
    );
    assert_eq!(utc_from_elapsed(true, i64::MAX as u64 + 1, 0), None);
}

#[test]
fn utc_from_elapsed_before_epoch() {
    assert_eq!(utc_from_elapsed(false, 3, 0), Some(UtcTimestamp { seconds: -3, nanos: 0 }));
    assert_eq!(
        utc_from_elapsed(false, 0, 250_000_000),
        Some(UtcTimestamp { seconds: -1, nanos: 750_000_000 })
    );
    assert_eq!(
        utc_from_elapsed(false, 2, 1),
        Some(UtcTimestamp { seconds: -3, nanos: 999_999_999 })
    );
    assert_eq!(
        utc_from_elapsed(false, 1u64 << 63, 0),
        Some(UtcTimestamp { seconds: i64::MIN, nanos: 0 })
    );
    assert_eq!(
        utc_from_elapsed(false, i64::MAX as u64, 1),
        Some(UtcTimestamp { seconds: i64::MIN, nanos: 999_999_999 })
    );
    assert_eq!(utc_from_elapsed(false, 1u64 << 63, 1), None);
    assert_eq!(utc_from_elapsed(false, (1u64 << 63) + 1, 0), None);
}
