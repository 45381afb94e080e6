//! Admin operations: the requests for agents, policies and the audit log,
//! and how their answers are read. All of them need an admin token.
use vstd::prelude::*;
use vstd::string::StringExecFns;

use crate::client::{admin_request_spec, is_http_error, MeshGuardClient};
use crate::laws::{has_name, law_audit_filters_are_independent};
use crate::error::{MeshGuardError, Result};
use crate::request::{lemma_no_pairs, opt_view, pairs_view, push_pair, GatewayRequest, HttpMethod};
use crate::text::{decimal, push_decimal};
use crate::types::AuditQueryOptions;

verus! {

/// The number of audit entries asked for when no limit is given.
pub const DEFAULT_AUDIT_LIMIT: u32 = 50;

/// The admin answer that could not be decoded.
#[derive(Debug, Clone, Copy, PartialEq, Eq, Structural)]
pub enum AdminResponse {
    Agents,
    CreatedAgent,
    Policies,
    AuditLog,
}

/// How each admin answer is named in error messages.
pub open spec fn admin_response_text(k: AdminResponse) -> Seq<char> {
    match k {
        AdminResponse::Agents => "agents"@,
        AdminResponse::CreatedAgent => "create agent"@,
        AdminResponse::Policies => "policies"@,
        AdminResponse::AuditLog => "audit log"@,
    }
}

/// A query parameter that is present only when it has a value.
pub open spec fn optional_param(name: Seq<char>, value: Option<Seq<char>>) -> Seq<(Seq<char>, Seq<char>)> {
    match value {
        Some(v) => seq![(name, v)],
        None => Seq::<(Seq<char>, Seq<char>)>::empty(),
    }
}

/// The query of an audit log request: the limit (50 when none is given),
/// then the decision, agent and action filters that are set.
pub open spec fn audit_params_spec(
    limit: Option<u32>,
    decision: Option<Seq<char>>,
    agent_id: Option<Seq<char>>,
    action: Option<Seq<char>>,
) -> Seq<(Seq<char>, Seq<char>)> {
    seq![("limit"@, decimal(match limit {
        Some(l) => l as nat,
        None => 50,
    }))] + optional_param("decision"@, decision) + optional_param("agentId"@, agent_id)
        + optional_param("action"@, action)
}

/// The error that an admin answer with an error status maps to: 401 is an
/// authentication failure, 429 a rate limit, and any other (403 included)
/// an API error whose message is the response body.
pub open spec fn admin_error_spec(status: u16, body: Seq<char>, e: MeshGuardError) -> bool {
    if status == 401 {
        e is Authentication
    } else if status == 429 {
        e is RateLimit
    } else {
        e matches MeshGuardError::Api { status: s, message } && s == status && message@ == body
    }
}

/// Appends the parameter `(name, value)` when it has a value.
fn push_optional(v: &mut Vec<(String, String)>, name: &str, value: &Option<String>)
    ensures
        pairs_view(final(v)@) == pairs_view(old(v)@) + optional_param(name@, opt_view(*value)),
{
    match value {
        Some(x) => push_pair(v, name, x.as_str()),
        None => {},
    }
    assert(pairs_view(final(v)@) =~= pairs_view(old(v)@) + optional_param(name@, opt_view(*value)));
}

/// The query parameters of an audit log request.
pub fn audit_query_params(opts: &AuditQueryOptions) -> (q: Vec<(String, String)>)
    ensures
        pairs_view(q@) == audit_params_spec(
            opts.limit,
            opt_view(opts.decision),
            opt_view(opts.agent_id),
            opt_view(opts.action),
        ),
        pairs_view(q@)[0].0 == "limit"@,
        opts.decision matches Some(x) ==> pairs_view(q@).contains(("decision"@, x@)),
        opts.agent_id matches Some(x) ==> pairs_view(q@).contains(("agentId"@, x@)),
        opts.action matches Some(x) ==> pairs_view(q@).contains(("action"@, x@)),
        opts.decision is None ==> !has_name(pairs_view(q@), "decision"@),
        opts.agent_id is None ==> !has_name(pairs_view(q@), "agentId"@),
        opts.action is None ==> !has_name(pairs_view(q@), "action"@),
{
    let limit: u32 = match opts.limit {
        Some(l) => l,
        None => DEFAULT_AUDIT_LIMIT,
    };
    let mut limit_text = String::new();
    push_decimal(&mut limit_text, limit as u64);
    let mut q: Vec<(String, String)> = Vec::new();
    push_pair(&mut q, "limit", limit_text.as_str());
    push_optional(&mut q, "decision", &opts.decision);
    push_optional(&mut q, "agentId", &opts.agent_id);
    push_optional(&mut q, "action", &opts.action);
    proof {
        reveal_strlit("limit");
        assert(pairs_view(q@) =~= audit_params_spec(
            opts.limit,
            opt_view(opts.decision),
            opt_view(opts.agent_id),
            opt_view(opts.action),
        ));
        law_audit_filters_are_independent(
            opts.limit,
            opt_view(opts.decision),
            opt_view(opts.agent_id),
            opt_view(opts.action),
            pairs_view(q@),
        );
    }
    q
}

/// Whether an admin answer with this status carries the requested data
/// (any status but a 4xx or 5xx).
pub fn admin_status_ok(status: u16) -> (ok: bool)
    ensures
        ok == !is_http_error(status),
{
    !(400 <= status && status <= 599)
}

/// The error for an admin answer with an error status and body `body`.
pub fn admin_error(status: u16, body: String) -> (e: MeshGuardError)
    requires
        is_http_error(status),
    ensures
        admin_error_spec(status, body@, e),
{
    if status == 401 {
        MeshGuardError::Authentication
    } else if status == 429 {
        MeshGuardError::RateLimit
    } else {
        MeshGuardError::Api { status, message: body }
    }
}

/// The error for an admin answer whose body could not be decoded, with the
/// decoder's description of the problem.
pub fn decode_failure(what: AdminResponse, detail: &str) -> (e: MeshGuardError)
    ensures
        e matches MeshGuardError::Api { status, message } && status == 0 && message@
            == "failed to decode "@ + admin_response_text(what) + " response: "@ + detail@,
{
    let mut message = String::from_str("failed to decode ");
    match what {
        AdminResponse::Agents => message.append("agents"),
        AdminResponse::CreatedAgent => message.append("create agent"),
        AdminResponse::Policies => message.append("policies"),
        AdminResponse::AuditLog => message.append("audit log"),
    }
    message.append(" response: ");
    message.append(detail);
    MeshGuardError::Api { status: 0, message }
}

impl MeshGuardClient {
    /// The request that lists all agents.
    pub fn list_agents_request(&self) -> (r: Result<GatewayRequest>)
        ensures
            admin_request_spec(
                self@,
                HttpMethod::Get,
                "/admin/agents"@,
                Seq::<(Seq<char>, Seq<char>)>::empty(),
                Seq::<(Seq<char>, Seq<char>)>::empty(),
                r,
            ),
            r matches Ok(req) ==> (self@.admin_token matches Some(t) && t.len() > 0 && pairs_view(
                req.headers@,
            ).contains(("X-Admin-Token"@, t)) && pairs_view(req.headers@).contains(
                ("X-MeshGuard-Trace-ID"@, self@.trace_id),
            )),
    {
        proof {
            lemma_no_pairs();
        }
        self.admin_request(HttpMethod::Get, "/admin/agents", Vec::new(), Vec::new())
    }

    /// The request that registers a new agent (its body is the request
    /// encoded as JSON).
    pub fn create_agent_request(&self) -> (r: Result<GatewayRequest>)
        ensures
            admin_request_spec(
                self@,
                HttpMethod::Post,
                "/admin/agents"@,
                seq![("content-type"@, "application/json"@)],
                Seq::<(Seq<char>, Seq<char>)>::empty(),
                r,
            ),
            r matches Ok(req) ==> (self@.admin_token matches Some(t) && t.len() > 0 && pairs_view(
                req.headers@,
            ).contains(("X-Admin-Token"@, t)) && pairs_view(req.headers@).contains(
                ("X-MeshGuard-Trace-ID"@, self@.trace_id),
            )),
    {
        let mut first: Vec<(String, String)> = Vec::new();
        push_pair(&mut first, "content-type", "application/json");
        proof {
            lemma_no_pairs();
            assert(pairs_view(first@) =~= seq![("content-type"@, "application/json"@)]);
        }
        self.admin_request(HttpMethod::Post, "/admin/agents", first, Vec::new())
    }

    /// The request that revokes (deletes) the agent `agent_id`.
    pub fn revoke_agent_request(&self, agent_id: &str) -> (r: Result<GatewayRequest>)
        ensures
            admin_request_spec(
                self@,
                HttpMethod::Delete,
                "/admin/agents/"@ + agent_id@,
                Seq::<(Seq<char>, Seq<char>)>::empty(),
                Seq::<(Seq<char>, Seq<char>)>::empty(),
                r,
            ),
            r matches Ok(req) ==> (self@.admin_token matches Some(t) && t.len() > 0 && pairs_view(
                req.headers@,
            ).contains(("X-Admin-Token"@, t)) && pairs_view(req.headers@).contains(
                ("X-MeshGuard-Trace-ID"@, self@.trace_id),
            )),
    {
        let mut path = String::from_str("/admin/agents/");
        path.append(agent_id);
        proof {
            lemma_no_pairs();
        }
        self.admin_request(HttpMethod::Delete, path.as_str(), Vec::new(), Vec::new())
    }

    /// The request that lists all policies.
    pub fn list_policies_request(&self) -> (r: Result<GatewayRequest>)
        ensures
            admin_request_spec(
                self@,
                HttpMethod::Get,
                "/admin/policies"@,
                Seq::<(Seq<char>, Seq<char>)>::empty(),
                Seq::<(Seq<char>, Seq<char>)>::empty(),
                r,
            ),
            r matches Ok(req) ==> (self@.admin_token matches Some(t) && t.len() > 0 && pairs_view(
                req.headers@,
            ).contains(("X-Admin-Token"@, t)) && pairs_view(req.headers@).contains(
                ("X-MeshGuard-Trace-ID"@, self@.trace_id),
            )),
    {
        proof {
            lemma_no_pairs();
        }
        self.admin_request(HttpMethod::Get, "/admin/policies", Vec::new(), Vec::new())
    }

    /// The request that reads the audit log with the given options.
    pub fn audit_log_request(&self, opts: &AuditQueryOptions) -> (r: Result<GatewayRequest>)
        ensures
            admin_request_spec(
                self@,
                HttpMethod::Get,
                "/admin/audit"@,
                Seq::<(Seq<char>, Seq<char>)>::empty(),
                audit_params_spec(
                    opts.limit,
                    opt_view(opts.decision),
                    opt_view(opts.agent_id),
                    opt_view(opts.action),
                ),
                r,
            ),
            r matches Ok(req) ==> (self@.admin_token matches Some(t) && t.len() > 0 && pairs_view(
                req.headers@,
            ).contains(("X-Admin-Token"@, t)) && pairs_view(req.headers@).contains(
                ("X-MeshGuard-Trace-ID"@, self@.trace_id),
            )),
    {
        let query = audit_query_params(opts);
        proof {
            lemma_no_pairs();
        }
        self.admin_request(HttpMethod::Get, "/admin/audit", Vec::new(), query)
    }
}

} // verus!
