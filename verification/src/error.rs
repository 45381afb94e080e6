//! Errors of MeshGuard operations and the text that describes each.
use vstd::prelude::*;
use vstd::string::StringExecFns;

use crate::text::{decimal, is_empty_text, push_decimal};
use crate::types::PolicyDecision;

verus! {

/// Errors returned by MeshGuard operations.
#[derive(Debug)]
pub enum MeshGuardError {
    /// Invalid or expired authentication token (HTTP 401), or no admin
    /// token for an admin operation.
    Authentication,
    /// Action was denied by policy (HTTP 403); carries the full decision.
    PolicyDenied {
        action: String,
        policy: String,
        rule: String,
        reason: String,
        decision: PolicyDecision,
    },
    /// Rate limit exceeded (HTTP 429).
    RateLimit,
    /// Unexpected HTTP error from the gateway, or a body that could not be
    /// encoded or decoded (status 0).
    Api { status: u16, message: String },
    /// Network or transport error, with the transport's description of it.
    Network(String),
    /// Gateway returned an unhealthy status.
    Unhealthy(String),
    /// Environment variable missing or invalid.
    Env(String),
}

/// Convenience alias used throughout the library.
pub type Result<T> = core::result::Result<T, MeshGuardError>;

/// The tail of a denial message: ` (rule: R)` when there is a rule and
/// `: REASON` when there is a reason, nothing for an empty field.
pub open spec fn denial_detail(rule: Seq<char>, reason: Seq<char>) -> Seq<char> {
    (if rule.len() > 0 {
        " (rule: "@ + rule + ")"@
    } else {
        Seq::<char>::empty()
    }) + (if reason.len() > 0 {
        ": "@ + reason
    } else {
        Seq::<char>::empty()
    })
}

/// The message that describes an error.
pub open spec fn error_text(e: MeshGuardError) -> Seq<char> {
    match e {
        MeshGuardError::Authentication => "meshguard: invalid or expired token"@,
        MeshGuardError::PolicyDenied { action, policy, rule, reason, decision } => "action \""@
            + action@ + "\" denied by policy \""@ + policy@ + "\""@ + denial_detail(rule@, reason@),
        MeshGuardError::RateLimit => "meshguard: rate limit exceeded"@,
        MeshGuardError::Api { status, message } => "meshguard: request failed: "@ + decimal(
            status as nat,
        ) + " "@ + message@,
        MeshGuardError::Network(detail) => "meshguard: network error: "@ + detail@,
        MeshGuardError::Unhealthy(detail) => "meshguard: gateway unhealthy: "@ + detail@,
        MeshGuardError::Env(detail) => "meshguard: environment error: "@ + detail@,
    }
}

/// Formats the optional rule and reason of a denial; an empty field adds
/// nothing, so no stray punctuation appears.
pub fn format_denial_detail(rule: &str, reason: &str) -> (s: String)
    ensures
        s@ == denial_detail(rule@, reason@),
{
    let mut s = String::new();
    if !is_empty_text(rule) {
        s.append(" (rule: ");
        s.append(rule);
        s.append(")");
    }
    if !is_empty_text(reason) {
        s.append(": ");
        s.append(reason);
    }
    assert(s@ =~= denial_detail(rule@, reason@));
    s
}

impl MeshGuardError {
    /// The message that describes this error.
    pub fn to_string(&self) -> (s: String)
        ensures
            s@ == error_text(*self),
    {
        match self {
            MeshGuardError::Authentication => String::from_str("meshguard: invalid or expired token"),
            MeshGuardError::PolicyDenied { action, policy, rule, reason, .. } => {
                let mut s = String::from_str("action \"");
                s.append(action.as_str());
                s.append("\" denied by policy \"");
                s.append(policy.as_str());
                s.append("\"");
                let detail = format_denial_detail(rule.as_str(), reason.as_str());
                s.append(detail.as_str());
                s
            },
            MeshGuardError::RateLimit => String::from_str("meshguard: rate limit exceeded"),
            MeshGuardError::Api { status, message } => {
                let mut s = String::from_str("meshguard: request failed: ");
                push_decimal(&mut s, *status as u64);
                s.append(" ");
                s.append(message.as_str());
                s
            },
            MeshGuardError::Network(detail) => {
                let mut s = String::from_str("meshguard: network error: ");
                s.append(detail.as_str());
                s
            },
            MeshGuardError::Unhealthy(detail) => {
                let mut s = String::from_str("meshguard: gateway unhealthy: ");
                s.append(detail.as_str());
                s
            },
            MeshGuardError::Env(detail) => {
                let mut s = String::from_str("meshguard: environment error: ");
                s.append(detail.as_str());
                s
            },
        }
    }
}

} // verus!
