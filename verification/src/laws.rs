//! Properties of the library as a whole, over the models that the
//! operations' contracts use.
use vstd::prelude::*;

use crate::admin::{admin_error_spec, audit_params_spec};
use crate::request::{pairs_view, GatewayRequest, HttpMethod};
use crate::client::{
    admin_headers_spec, admin_request_spec, auth_headers_spec, check_headers_spec, check_outcome_spec, enforce_spec, govern_spec,
    health_spec, is_http_error, status_error_matches, utc_from_elapsed_spec, AllowBody, ClientView,
    DenialBody,
};
use crate::error::{denial_detail, MeshGuardError, Result};
use crate::text::{decimal, ends_with_slash, trim_end_slashes};
use crate::types::{decision_consistent, Decision, PolicyDecision, UtcTimestamp};

verus! {

/// Every decision that a policy check returns is consistent: it is allowed
/// exactly when its decision is `Allow`; and a denial by policy (HTTP 403)
/// is always an answer, never an error.
pub proof fn law_check_decisions_are_consistent(
    v: ClientView,
    action: Seq<char>,
    status: u16,
    denial: DenialBody,
    allow: AllowBody,
    now: Option<UtcTimestamp>,
    r: Result<PolicyDecision>,
)
    requires
        check_outcome_spec(v, action, status, denial, allow, now, r),
    ensures
        r matches Ok(d) ==> decision_consistent(d),
        status == 403 ==> (r matches Ok(d) && !d.allowed),
        r is Err <==> (status != 403 && is_http_error(status)),
{
}

/// A clock reading becomes exactly its instant: the stamp lies as many
/// nanoseconds from the Unix epoch as the reading, in the same direction,
/// with less than a second's worth of nanoseconds; a reading gives no stamp
/// only when its seconds lie beyond the range of an `i64`.
pub proof fn law_clock_stamp_is_the_reading(after_epoch: bool, seconds: u64, nanos: u32)
    requires
        nanos < 1_000_000_000,
    ensures
        utc_from_elapsed_spec(after_epoch, seconds, nanos) matches Some(t) ==> (t.nanos
            < 1_000_000_000 && t.seconds * 1_000_000_000 + t.nanos == if after_epoch {
            seconds * 1_000_000_000 + nanos
        } else {
            -(seconds * 1_000_000_000 + nanos)
        }),
        utc_from_elapsed_spec(after_epoch, seconds, nanos) is None ==> seconds >= i64::MAX,
{
}

/// Enforcing a check fails with `PolicyDenied` exactly when the gateway
/// denied the action (HTTP 403), and the error carries the action, the
/// policy, rule and reason of the denial, and the decision itself; other
/// error statuses fail as the check did, and anything else succeeds.
pub proof fn law_enforce_refuses_exactly_denials(
    v: ClientView,
    action: Seq<char>,
    status: u16,
    denial: DenialBody,
    allow: AllowBody,
    now: Option<UtcTimestamp>,
    checked: Result<PolicyDecision>,
    r: Result<()>,
)
    requires
        check_outcome_spec(v, action, status, denial, allow, now, checked),
        enforce_spec(action, checked, r),
    ensures
        status == 403 ==> (r matches Err(
            MeshGuardError::PolicyDenied { action: a, policy, rule, reason, decision },
        ) && a@ == action && policy == denial.policy && rule == denial.rule && reason
            == denial.message && checked == Ok::<PolicyDecision, MeshGuardError>(decision)),
        status != 403 && is_http_error(status) ==> r is Err && !(r matches Err(
            MeshGuardError::PolicyDenied { .. },
        )),
        !is_http_error(status) ==> r is Ok,
{
}

/// Governing an action that the gateway denies never gives the closure's
/// result: it fails with the `PolicyDenied` error of the enforcement,
/// whatever the closure would return.
pub proof fn law_govern_refuses_denied_actions<T, F: FnOnce() -> Result<T>>(
    v: ClientView,
    action: Seq<char>,
    denial: DenialBody,
    allow: AllowBody,
    now: Option<UtcTimestamp>,
    checked: Result<PolicyDecision>,
    enforced: Result<()>,
    f: F,
    r: Result<T>,
)
    requires
        check_outcome_spec(v, action, 403, denial, allow, now, checked),
        enforce_spec(action, checked, enforced),
        govern_spec(enforced, f, r),
    ensures
        r matches Err(MeshGuardError::PolicyDenied { action: a, policy, .. }) && a@ == action
            && policy == denial.policy,
        enforced matches Err(e) && r == Err::<T, MeshGuardError>(e),
{
}

/// The gateway's 401 and 429 answers mean the same in governance and admin
/// calls: an authentication failure and a rate limit.
pub proof fn law_auth_and_rate_limit_statuses_agree(
    status: u16,
    reason: Option<Seq<char>>,
    body: Seq<char>,
    e1: MeshGuardError,
    e2: MeshGuardError,
)
    requires
        status == 401 || status == 429,
        status_error_matches(status, reason, e1),
        admin_error_spec(status, body, e2),
    ensures
        e1 is Authentication <==> e2 is Authentication,
        e1 is RateLimit <==> e2 is RateLimit,
        e1 is Authentication <==> status == 401,
        e1 is RateLimit <==> status == 429,
{
}

/// Admin calls need an admin token: without one, or with an empty one,
/// there are no admin headers; after setting a non-empty token they are the
/// token and the trace ID.
pub proof fn law_admin_token_gates_admin_calls(before: ClientView, after: ClientView, token: Seq<char>)
    requires
        after.admin_token == Some(token),
        after.trace_id == before.trace_id,
    ensures
        admin_headers_spec(before) is None <==> (before.admin_token is None
            || before.admin_token->0.len() == 0),
        token.len() > 0 ==> admin_headers_spec(after) == Some(
            seq![("X-Admin-Token"@, token), ("X-MeshGuard-Trace-ID"@, before.trace_id)],
        ),
        token.len() == 0 ==> admin_headers_spec(after) is None,
{
}

/// Every request to the gateway, governance or admin, carries the
/// client's trace ID; the agent token travels only as a bearer token and
/// only when it is not empty.
pub proof fn law_trace_id_on_every_request(
    v: ClientView,
    agent_id: Seq<char>,
    action: Seq<char>,
    metadata: Option<Seq<char>>,
)
    ensures
        auth_headers_spec(v)[0] == ("X-MeshGuard-Trace-ID"@, v.trace_id),
        check_headers_spec(v, agent_id, action, metadata)[0] == ("X-MeshGuard-Trace-ID"@, v.trace_id),
        admin_headers_spec(v) matches Some(h) ==> h.contains(("X-MeshGuard-Trace-ID"@, v.trace_id)),
        auth_headers_spec(v).len() == if v.api_key.len() > 0 {
            2int
        } else {
            1int
        },
{
    if let Some(h) = admin_headers_spec(v) {
        assert(h[1] == ("X-MeshGuard-Trace-ID"@, v.trace_id));
    }
}

/// A gateway URL is kept without trailing slashes: trimming leaves none,
/// and trimming again changes nothing.
pub proof fn law_gateway_url_has_no_trailing_slash(s: Seq<char>)
    ensures
        !ends_with_slash(trim_end_slashes(s)),
        trim_end_slashes(trim_end_slashes(s)) == trim_end_slashes(s),
    decreases s.len(),
{
    if s.len() > 0 && s.last() == '/' {
        law_gateway_url_has_no_trailing_slash(s.drop_last());
    }
}

/// An audit query without a limit asks for 50 entries; its filters follow
/// the limit in the order decision, agent, action.
pub proof fn law_audit_limit_defaults_to_fifty(
    decision: Option<Seq<char>>,
    agent_id: Option<Seq<char>>,
    action: Option<Seq<char>>,
)
    ensures
        audit_params_spec(None, decision, agent_id, action)[0] == ("limit"@, "50"@),
        audit_params_spec(None, None, None, None) == seq![("limit"@, "50"@)],
{
    reveal_strlit("50");
    assert(decimal(50) =~= "50"@) by {
        assert(decimal(5) == seq!['5']);
    }
    assert(audit_params_spec(None, None, None, None) =~= seq![("limit"@, "50"@)]);
}

/// A denial message never shows an empty rule or reason: an empty field
/// adds no text, so there is no `(rule: )`.
pub proof fn law_denial_detail_omits_empty_fields(rule: Seq<char>, reason: Seq<char>)
    ensures
        rule.len() == 0 ==> denial_detail(rule, reason) == if reason.len() > 0 {
            ": "@ + reason
        } else {
            Seq::<char>::empty()
        },
        reason.len() == 0 ==> denial_detail(rule, reason) == if rule.len() > 0 {
            " (rule: "@ + rule + ")"@
        } else {
            Seq::<char>::empty()
        },
{
    assert(Seq::<char>::empty() + (": "@ + reason) =~= ": "@ + reason);
    assert(Seq::<char>::empty() + Seq::<char>::empty() =~= Seq::<char>::empty());
    assert((" (rule: "@ + rule + ")"@) + Seq::<char>::empty() =~= " (rule: "@ + rule + ")"@);
}

/// A health check succeeds exactly when the gateway answers 200 and
/// reports itself `healthy`.
pub proof fn law_health_ok_exactly_when_healthy(
    status: u16,
    reported: core::result::Result<String, String>,
    r: Result<()>,
)
    requires
        health_spec(status, reported, r),
    ensures
        r is Ok <==> (status == 200 && (reported matches Ok(s) && s@ == "healthy"@)),
        r matches Err(e) ==> e is Unhealthy,
{
}

/// Enforcement passes every error of the check through unchanged, so it
/// never treats a failed check as a permission: it succeeds only for an
/// allowed decision, and a denied decision comes back inside the
/// `PolicyDenied` error.
pub proof fn law_enforce_passes_check_errors_through(
    action: Seq<char>,
    checked: Result<PolicyDecision>,
    r: Result<()>,
)
    requires
        enforce_spec(action, checked, r),
    ensures
        checked matches Err(e) ==> r == Err::<(), MeshGuardError>(e),
        r is Ok ==> (checked matches Ok(d) && d.allowed),
        checked matches Ok(d) ==> (d.allowed ==> r is Ok),
        checked matches Ok(d) ==> (!d.allowed ==> (r matches Err(
            MeshGuardError::PolicyDenied { action: a, decision, .. },
        ) && a@ == action && decision == d)),
{
}

/// Every decision that a check returns, denial or permission, names the
/// checked action, carries the client's trace ID and the given stamp, and
/// is allowed exactly when it says `Allow`; a denial carries the policy,
/// rule and message of the gateway's answer.
pub proof fn law_check_decisions_name_the_action(
    v: ClientView,
    action: Seq<char>,
    status: u16,
    denial: DenialBody,
    allow: AllowBody,
    timestamp: Option<UtcTimestamp>,
    r: Result<PolicyDecision>,
)
    requires
        check_outcome_spec(v, action, status, denial, allow, timestamp, r),
    ensures
        r matches Ok(d) ==> (d.action@ == action && d.trace_id@ == v.trace_id && d.timestamp
            == timestamp && (d.allowed <==> d.decision == Decision::Allow)),
        r matches Ok(d) ==> (!d.allowed ==> (d.policy == denial.policy && d.rule == denial.rule
            && d.reason == denial.message)),
        r matches Ok(d) ==> (d.allowed ==> d.policy == allow.policy),
{
}

/// The name of a query parameter or header.
pub open spec fn has_name(q: Seq<(Seq<char>, Seq<char>)>, name: Seq<char>) -> bool {
    exists|i: int| 0 <= i < q.len() && #[trigger] q[i].0 == name
}

/// The audit query always starts with the limit, 50 when none is given,
/// and each filter that is set appears with its value, whatever the other
/// filters are, while a filter that is not set does not appear at all.
pub proof fn law_audit_filters_are_independent(
    limit: Option<u32>,
    decision: Option<Seq<char>>,
    agent_id: Option<Seq<char>>,
    action: Option<Seq<char>>,
    q: Seq<(Seq<char>, Seq<char>)>,
)
    requires
        q == audit_params_spec(limit, decision, agent_id, action),
    ensures
        q.len() >= 1,
        q[0] == ("limit"@, decimal(
            match limit {
                Some(l) => l as nat,
                None => 50,
            },
        )),
        decision matches Some(x) ==> q.contains(("decision"@, x)),
        agent_id matches Some(x) ==> q.contains(("agentId"@, x)),
        action matches Some(x) ==> q.contains(("action"@, x)),
        decision is None ==> !has_name(q, "decision"@),
        agent_id is None ==> !has_name(q, "agentId"@),
        action is None ==> !has_name(q, "action"@),
        q.len() == 1 + (if decision is Some { 1int } else { 0int }) + (if agent_id is Some {
            1int
        } else {
            0int
        }) + (if action is Some { 1int } else { 0int }),
{
    reveal_strlit("limit");
    reveal_strlit("decision");
    reveal_strlit("agentId");
    reveal_strlit("action");
    let lim = decimal(
        match limit {
            Some(l) => l as nat,
            None => 50,
        },
    );
    let p0 = seq![("limit"@, lim)];
    let p1 = match decision {
        Some(x) => seq![("decision"@, x)],
        None => Seq::<(Seq<char>, Seq<char>)>::empty(),
    };
    let p2 = match agent_id {
        Some(x) => seq![("agentId"@, x)],
        None => Seq::<(Seq<char>, Seq<char>)>::empty(),
    };
    let p3 = match action {
        Some(x) => seq![("action"@, x)],
        None => Seq::<(Seq<char>, Seq<char>)>::empty(),
    };
    assert(q =~= p0 + p1 + p2 + p3);
    let n1: int = (p0.len() + p1.len()) as int;
    let n2: int = n1 + p2.len();
    assert forall|i: int| 0 <= i < q.len() implies (q[i] == if i < 1 {
        p0[i]
    } else if i < n1 {
        p1[i - 1]
    } else if i < n2 {
        p2[i - n1]
    } else {
        p3[i - n2]
    }) by {}
    if let Some(x) = decision {
        assert(q[1] == ("decision"@, x));
    }
    if let Some(x) = agent_id {
        assert(q[n1] == ("agentId"@, x));
    }
    if let Some(x) = action {
        assert(q[n2] == ("action"@, x));
    }
    assert("limit"@.len() == 5 && "decision"@.len() == 8 && "agentId"@.len() == 7
        && "action"@.len() == 6);
    assert("limit"@ != "decision"@ && "limit"@ != "agentId"@ && "limit"@ != "action"@);
    assert("decision"@ != "agentId"@ && "decision"@ != "action"@ && "agentId"@ != "action"@);
}

/// The headers of every governance request carry the whole agent token
/// as a bearer token when there is one, and no authorization at all when
/// the token is empty; a check, a proxied request and the common headers
/// agree on this.
pub proof fn law_bearer_carries_whole_token(
    v: ClientView,
    agent_id: Seq<char>,
    action: Seq<char>,
    metadata: Option<Seq<char>>,
)
    ensures
        v.api_key.len() > 0 ==> auth_headers_spec(v).contains(
            ("authorization"@, "Bearer "@ + v.api_key),
        ),
        v.api_key.len() > 0 ==> check_headers_spec(v, agent_id, action, metadata).contains(
            ("authorization"@, "Bearer "@ + v.api_key),
        ),
        v.api_key.len() == 0 ==> !has_name(auth_headers_spec(v), "authorization"@),
{
    reveal_strlit("authorization");
    reveal_strlit("X-MeshGuard-Trace-ID");
    let a = auth_headers_spec(v);
    if v.api_key.len() > 0 {
        assert(a[1] == ("authorization"@, "Bearer "@ + v.api_key));
        let c = check_headers_spec(v, agent_id, action, metadata);
        assert(c[1] == a[1]);
    } else {
        assert(a =~= seq![("X-MeshGuard-Trace-ID"@, v.trace_id)]);
        assert("X-MeshGuard-Trace-ID"@.len() == 20 && "authorization"@.len() == 13);
        assert("X-MeshGuard-Trace-ID"@ != "authorization"@);
    }
}

/// Every admin request that is made carries the client's admin token and
/// trace ID, whatever its method and path; a client without a non-empty
/// admin token makes none.
pub proof fn law_admin_requests_carry_admin_headers(
    v: ClientView,
    method: HttpMethod,
    path: Seq<char>,
    first: Seq<(Seq<char>, Seq<char>)>,
    query: Seq<(Seq<char>, Seq<char>)>,
    r: Result<GatewayRequest>,
)
    requires
        admin_request_spec(v, method, path, first, query, r),
    ensures
        r matches Ok(req) ==> (v.admin_token matches Some(t) && t.len() > 0 && pairs_view(
            req.headers@,
        ).contains(("X-Admin-Token"@, t)) && pairs_view(req.headers@).contains(
            ("X-MeshGuard-Trace-ID"@, v.trace_id),
        )),
        r is Err ==> (v.admin_token is None || v.admin_token->0.len() == 0),
{
    if let Ok(req) = r {
        let h = admin_headers_spec(v)->0;
        let hs = pairs_view(req.headers@);
        assert(hs == first + h);
        assert(hs[first.len() as int] == h[0]);
        assert(hs[first.len() + 1int] == h[1]);
    }
}

} // verus!
