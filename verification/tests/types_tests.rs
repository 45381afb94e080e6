use meshguard::{AuditQueryOptions, Decision, PolicyDecision, UtcTimestamp};

#[test]
fn decision_display() {
    assert_eq!(Decision::Allow.to_string(), "allow");
    assert_eq!(Decision::Deny.to_string(), "deny");
}

#[test]
fn audit_query_options_defaults() {
    let opts = AuditQueryOptions::default();
    assert!(opts.limit.is_none());
    assert!(opts.decision.is_none());
    assert!(opts.agent_id.is_none());
    assert!(opts.action.is_none());
}

#[test]
fn decision_equality_follows_variant() {
    assert_eq!(Decision::Allow, Decision::Allow);
    assert_ne!(Decision::Allow, Decision::Deny);
}

#[test]
fn policy_decision_holds_its_fields() {
    let decision = PolicyDecision {
        allowed: true,
        action: "file.read".into(),
        decision: Decision::Allow,
        policy: "default".into(),
        rule: String::new(),
        reason: String::new(),
        trace_id: "abc123".into(),
        timestamp: None,
    };
    let copy = decision.clone();
    assert!(copy.allowed);
    assert_eq!(copy.action, "file.read");
    assert_eq!(copy.decision, Decision::Allow);
    assert_eq!(copy.policy, "default");
}

#[test]
fn epoch_nanos_of_ordinary_instant() {
    let t = UtcTimestamp { seconds: 1_736_937_000, nanos: 5 };
    assert_eq!(t.epoch_nanos(), Some(1_736_937_000_000_000_005));
}

#[test]
fn epoch_nanos_before_epoch() {
    let t = UtcTimestamp { seconds: -1, nanos: 999_999_999 };
    assert_eq!(t.epoch_nanos(), Some(-1));
}

#[test]
fn epoch_nanos_out_of_range() {
    let t = UtcTimestamp { seconds: 9_223_372_037, nanos: 0 };
    assert_eq!(t.epoch_nanos(), None);
    let t = UtcTimestamp { seconds: -9_223_372_037, nanos: 0 };
    assert_eq!(t.epoch_nanos(), None);
}

#[test]
fn epoch_nanos_at_extremes() {
    let t = UtcTimestamp { seconds: 9_223_372_036, nanos: 854_775_807 };
    assert_eq!(t.epoch_nanos(), Some(i64::MAX));
    let t = UtcTimestamp { seconds: -9_223_372_037, nanos: 145_224_192 };
    assert_eq!(t.epoch_nanos(), Some(i64::MIN));
}
