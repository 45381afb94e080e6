//! The data that the gateway and the library exchange: policy decisions,
//! agents, policies, audit entries and the parameters of admin calls.
use vstd::prelude::*;
use vstd::string::StringExecFns;

use std::collections::HashMap;

verus! {

/// An instant in UTC: whole seconds since the Unix epoch and the
/// nanoseconds past that second (more than a second's worth only while a
/// leap second lasts).
#[derive(Debug, Clone, Copy, PartialEq, Eq, Structural)]
pub struct UtcTimestamp {
    pub seconds: i64,
    pub nanos: u32,
}

/// The instant as nanoseconds since the Unix epoch, when that fits an `i64`.
pub open spec fn epoch_nanos_spec(t: UtcTimestamp) -> Option<i64> {
    let n: int = t.seconds * 1_000_000_000 + t.nanos;
    if i64::MIN <= n <= i64::MAX {
        Some(n as i64)
    } else {
        None
    }
}

impl UtcTimestamp {
    /// Nanoseconds since the Unix epoch, or `None` where that does not fit
    /// an `i64` (before 1677 or after 2262).
    pub fn epoch_nanos(&self) -> (r: Option<i64>)
        ensures
            r == epoch_nanos_spec(*self),
    {
        let wide: i128 = (self.seconds as i128) * 1_000_000_000i128 + (self.nanos as i128);
        if wide < (i64::MIN as i128) || wide > (i64::MAX as i128) {
            None
        } else {
            Some(wide as i64)
        }
    }
}

/// The outcome of a policy evaluation: allow or deny.
#[derive(Debug, Clone, Copy, PartialEq, Eq, Structural)]
pub enum Decision {
    Allow,
    Deny,
}

/// How a decision is written: `allow` or `deny`.
pub open spec fn decision_text(d: Decision) -> Seq<char> {
    match d {
        Decision::Allow => "allow"@,
        Decision::Deny => "deny"@,
    }
}

impl Decision {
    /// The decision as text, lower case (`allow` or `deny`).
    pub fn to_string(&self) -> (r: String)
        ensures
            r@ == decision_text(*self),
    {
        match self {
            Decision::Allow => String::from_str("allow"),
            Decision::Deny => String::from_str("deny"),
        }
    }
}

/// Result of a policy evaluation returned by a check.
#[derive(Debug, Clone)]
pub struct PolicyDecision {
    /// Whether the action is permitted.
    pub allowed: bool,
    /// The action that was checked.
    pub action: String,
    /// The evaluation result.
    pub decision: Decision,
    /// Name of the policy that produced this decision (may be empty).
    pub policy: String,
    /// Specific rule within the policy that matched (may be empty).
    pub rule: String,
    /// Human-readable explanation for the decision (may be empty).
    pub reason: String,
    /// Correlation identifier for this request (may be empty).
    pub trace_id: String,
    /// When the decision was made.
    pub timestamp: Option<UtcTimestamp>,
}

/// A decision is consistent when `allowed` says the same as `decision`.
pub open spec fn decision_consistent(d: PolicyDecision) -> bool {
    d.allowed <==> d.decision == Decision::Allow
}

/// A MeshGuard agent identity.
#[derive(Debug, Clone)]
pub struct Agent {
    /// Unique agent identifier.
    pub id: String,
    /// Agent display name.
    pub name: String,
    /// Trust level (e.g., "verified", "untrusted").
    pub trust_tier: String,
    /// Actions this agent is authorized to perform.
    pub capabilities: Vec<String>,
    /// Labels associated with the agent.
    pub tags: Vec<String>,
    /// Organization this agent belongs to (may be empty).
    pub org_id: String,
    /// When the agent was created.
    pub created_at: Option<UtcTimestamp>,
}

/// A governance policy definition.
#[derive(Debug, Clone)]
pub struct Policy {
    /// Unique policy identifier.
    pub id: String,
    /// Human-readable policy name.
    pub name: String,
    /// Details about what the policy governs (may be empty).
    pub description: String,
    /// Rules that make up this policy.
    pub rules: Vec<Rule>,
    /// When the policy was created.
    pub created_at: Option<UtcTimestamp>,
    /// When the policy was last modified.
    pub updated_at: Option<UtcTimestamp>,
}

/// A single rule within a policy.
#[derive(Debug, Clone)]
pub struct Rule {
    /// Unique rule identifier.
    pub id: String,
    /// Human-readable rule name (may be empty).
    pub name: String,
    /// Action pattern this rule applies to (may be empty).
    pub action: String,
    /// Rule's effect: "allow" or "deny" (may be empty).
    pub effect: String,
}

/// An entry in the governance audit log.
#[derive(Debug, Clone)]
pub struct AuditEntry {
    /// Unique entry identifier.
    pub id: String,
    /// When the event occurred.
    pub timestamp: UtcTimestamp,
    /// Action that was evaluated.
    pub action: String,
    /// Evaluation result: "allow" or "deny".
    pub decision: String,
    /// Agent that performed the action (may be empty).
    pub agent_id: String,
    /// Policy that was evaluated (may be empty).
    pub policy: String,
    /// Specific rule that matched (may be empty).
    pub rule: String,
    /// Explanation for the decision (may be empty).
    pub reason: String,
    /// Resource that was accessed (may be empty).
    pub resource: String,
    /// Additional metadata.
    pub meta: HashMap<String, serde_json::Value>,
}

/// Parameters for creating a new agent.
#[derive(Debug, Clone)]
pub struct CreateAgentRequest {
    /// Display name for the new agent (required).
    pub name: String,
    /// Trust level. The gateway uses "verified" when it is absent.
    pub trust_tier: Option<String>,
    /// Labels to assign to the agent.
    pub tags: Vec<String>,
    /// Actions the agent is authorized to perform.
    pub capabilities: Vec<String>,
}

/// Configuration for an audit log query.
#[derive(Debug, Clone)]
pub struct AuditQueryOptions {
    /// Maximum number of entries to return (default: 50).
    pub limit: Option<u32>,
    /// Filter by decision ("allow" or "deny").
    pub decision: Option<String>,
    /// Filter by agent ID.
    pub agent_id: Option<String>,
    /// Filter by action.
    pub action: Option<String>,
}

impl Default for AuditQueryOptions {
    /// No limit given (the gateway then returns 50 entries) and no filters.
    fn default() -> (r: Self)
        ensures
            r.limit is None,
            r.decision is None,
            r.agent_id is None,
            r.action is None,
    {
        AuditQueryOptions { limit: None, decision: None, agent_id: None, action: None }
    }
}

} // verus!
