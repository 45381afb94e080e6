//! The MeshGuard client: its settings, the requests it sends for the
//! governance calls (check, enforce, govern, proxy, health) and how it reads
//! the gateway's answers.
use vstd::prelude::*;
use vstd::string::StringExecFns;

use crate::error::{MeshGuardError, Result};
use crate::outside::{
    canonical_reason, encode_metadata, fraction_nanos, since_unix_epoch, status_reason, system_now,
    whole_seconds,
};

use std::collections::HashMap;
use crate::request::{append_pairs, opt_view, pairs_view, push_pair, GatewayRequest, HttpMethod};
use crate::text::{
    decimal, ends_with_slash, i64_to_decimal, is_empty_text, push_decimal, signed_decimal,
    trim_end_slashes, trim_leading_slashes, trim_start_slashes, trim_trailing_slashes,
};
use crate::types::{epoch_nanos_spec, Decision, PolicyDecision, UtcTimestamp};

verus! {

/// The gateway that a client uses when none is configured.
pub const DEFAULT_GATEWAY_URL: &'static str = "https://dashboard.meshguard.app";

/// The `User-Agent` that the transport sends.
pub const USER_AGENT: &'static str = "meshguard-rust/0.1.0";

/// The timeout, in seconds, of every request that the transport sends.
pub const DEFAULT_TIMEOUT_SECS: u64 = 30;

/// Core MeshGuard governance gateway client.
///
/// It holds the gateway URL (never with a trailing slash), the agent token,
/// the optional admin token, the trace ID sent with every request, and the
/// HTTP connection pool of the transport.
pub struct MeshGuardClient {
    gateway_url: String,
    api_key: String,
    admin_token: Option<String>,
    http: reqwest::Client,
    trace_id: String,
}

/// The settings of a client, as text.
pub struct ClientView {
    pub gateway_url: Seq<char>,
    pub api_key: Seq<char>,
    pub admin_token: Option<Seq<char>>,
    pub trace_id: Seq<char>,
}

impl View for MeshGuardClient {
    type V = ClientView;

    closed spec fn view(&self) -> ClientView {
        ClientView {
            gateway_url: self.gateway_url@,
            api_key: self.api_key@,
            admin_token: opt_view(self.admin_token),
            trace_id: self.trace_id@,
        }
    }
}

impl MeshGuardClient {
    /// The HTTP connection pool that the client sends its requests with.
    pub closed spec fn http_pool(&self) -> reqwest::Client {
        self.http
    }
}

/// The instant, in UTC, of a clock reading that lies `seconds` and
/// `nanos` (below one second) after the Unix epoch, or before it when
/// `after_epoch` is false; `None` where the seconds do not fit an `i64`.
pub open spec fn utc_from_elapsed_spec(after_epoch: bool, seconds: u64, nanos: u32) -> Option<
    UtcTimestamp,
> {
    if after_epoch {
        if seconds <= i64::MAX {
            Some(UtcTimestamp { seconds: seconds as i64, nanos })
        } else {
            None
        }
    } else if nanos == 0 {
        if seconds <= 0x8000_0000_0000_0000 {
            Some(UtcTimestamp { seconds: (-seconds) as i64, nanos: 0 })
        } else {
            None
        }
    } else {
        if seconds < 0x8000_0000_0000_0000 {
            Some(
                UtcTimestamp {
                    seconds: (-(seconds + 1)) as i64,
                    nanos: (1_000_000_000 - nanos) as u32,
                },
            )
        } else {
            None
        }
    }
}

/// What reading the clock can give: the instant of some distance from the
/// Unix epoch, in either direction, with less than a second's worth of
/// nanoseconds.
pub open spec fn is_clock_result(t: Option<UtcTimestamp>) -> bool {
    exists|after_epoch: bool, seconds: u64, nanos: u32|
        nanos < 1_000_000_000 && t == #[trigger] utc_from_elapsed_spec(after_epoch, seconds, nanos)
}

/// The instant of a clock reading that lies `seconds` and `nanos` (below
/// one second) after the Unix epoch, or before it when `after_epoch` is
/// false; `None` where the seconds do not fit an `i64`.
pub fn utc_from_elapsed(after_epoch: bool, seconds: u64, nanos: u32) -> (r: Option<UtcTimestamp>)
    requires
        nanos < 1_000_000_000,
    ensures
        r == utc_from_elapsed_spec(after_epoch, seconds, nanos),
{
    if after_epoch {
        if seconds <= 9_223_372_036_854_775_807u64 {
            Some(UtcTimestamp { seconds: seconds as i64, nanos })
        } else {
            None
        }
    } else if nanos == 0 {
        if seconds <= 9_223_372_036_854_775_807u64 {
            Some(UtcTimestamp { seconds: -(seconds as i64), nanos: 0 })
        } else if seconds == 9_223_372_036_854_775_808u64 {
            Some(UtcTimestamp { seconds: i64::MIN, nanos: 0 })
        } else {
            None
        }
    } else {
        if seconds <= 9_223_372_036_854_775_806u64 {
            Some(UtcTimestamp { seconds: -((seconds + 1) as i64), nanos: 1_000_000_000 - nanos })
        } else if seconds == 9_223_372_036_854_775_807u64 {
            Some(UtcTimestamp { seconds: i64::MIN, nanos: 1_000_000_000 - nanos })
        } else {
            None
        }
    }
}

/// The trace ID that a client made with clock result `t` gets: the instant
/// in nanoseconds since the Unix epoch, in decimal (or `0` where there is
/// no reading or it does not fit an `i64`).
pub open spec fn clock_trace_id(t: Option<UtcTimestamp>) -> Seq<char> {
    signed_decimal(
        match t {
            Some(r) => match epoch_nanos_spec(r) {
                Some(n) => n as int,
                None => 0,
            },
            None => 0,
        },
    )
}

/// A trace ID as a new client gets it from some result of the clock.
pub open spec fn is_clock_trace_id(s: Seq<char>) -> bool {
    exists|t: Option<UtcTimestamp>| is_clock_result(t) && s == #[trigger] clock_trace_id(t)
}

/// Reads the system clock as an instant in UTC; `None` only where the
/// reading lies so far from the Unix epoch that its seconds do not fit an
/// `i64`.
pub fn clock_now() -> (r: Option<UtcTimestamp>)
    ensures
        is_clock_result(r),
{
    let reading = system_now();
    let (after_epoch, elapsed) = match since_unix_epoch(&reading) {
        Ok(d) => (true, d),
        Err(d) => (false, d),
    };
    let seconds: u64 = whole_seconds(&elapsed);
    let nanos: u32 = fraction_nanos(&elapsed);
    let r = utc_from_elapsed(after_epoch, seconds, nanos);
    assert(nanos < 1_000_000_000 && r == utc_from_elapsed_spec(after_epoch, seconds, nanos));
    r
}

/// The headers that every governance request carries: the trace ID, and
/// the agent token as a bearer token when there is one.
pub open spec fn auth_headers_spec(v: ClientView) -> Seq<(Seq<char>, Seq<char>)> {
    seq![("X-MeshGuard-Trace-ID"@, v.trace_id)] + if v.api_key.len() > 0 {
        seq![("authorization"@, "Bearer "@ + v.api_key)]
    } else {
        Seq::<(Seq<char>, Seq<char>)>::empty()
    }
}

/// The headers of a policy check: the common ones, the action, the agent
/// ID when it is not empty, and the metadata (as JSON) when there is some.
pub open spec fn check_headers_spec(
    v: ClientView,
    agent_id: Seq<char>,
    action: Seq<char>,
    metadata: Option<Seq<char>>,
) -> Seq<(Seq<char>, Seq<char>)> {
    auth_headers_spec(v).push(("X-MeshGuard-Action"@, action)) + (if agent_id.len() > 0 {
        seq![("X-MeshGuard-Agent-ID"@, agent_id)]
    } else {
        Seq::<(Seq<char>, Seq<char>)>::empty()
    }) + match metadata {
        Some(m) => seq![("X-MeshGuard-Meta"@, m)],
        None => Seq::<(Seq<char>, Seq<char>)>::empty(),
    }
}

/// The headers of an admin call, or `None` when the client has no admin
/// token (absent or empty).
pub open spec fn admin_headers_spec(v: ClientView) -> Option<Seq<(Seq<char>, Seq<char>)>> {
    match v.admin_token {
        Some(t) => if t.len() > 0 {
            Some(seq![("X-Admin-Token"@, t), ("X-MeshGuard-Trace-ID"@, v.trace_id)])
        } else {
            None
        },
        None => None,
    }
}

/// An admin request with `method` to `path` of the gateway: it has the query `query`,
/// and the admin headers after the headers `first`; without an admin token
/// there is no request but an `Authentication` error.
pub open spec fn admin_request_spec(
    v: ClientView,
    method: HttpMethod,
    path: Seq<char>,
    first: Seq<(Seq<char>, Seq<char>)>,
    query: Seq<(Seq<char>, Seq<char>)>,
    r: Result<GatewayRequest>,
) -> bool {
    match r {
        Ok(req) => {
            &&& admin_headers_spec(v) matches Some(h)
            &&& pairs_view(req.headers@) == first + h
            &&& req.url@ == v.gateway_url + path
            &&& pairs_view(req.query@) == query
            &&& req.method == method
        },
        Err(e) => admin_headers_spec(v) is None && e is Authentication,
    }
}

/// Whether an HTTP status is a client or server error (4xx or 5xx).
pub open spec fn is_http_error(status: u16) -> bool {
    400 <= status <= 599
}

/// How a status is written: the code, a space, and its reason phrase (or
/// `<unknown status code>` when it has none).
pub open spec fn status_line(code: u16, reason: Option<Seq<char>>) -> Seq<char> {
    decimal(code as nat) + " "@ + match reason {
        Some(p) => p,
        None => "<unknown status code>"@,
    }
}

/// The error that an error status maps to: 401 is an authentication
/// failure, 429 a rate limit, any other an API error `HTTP <status line>`.
pub open spec fn status_error_matches(status: u16, reason: Option<Seq<char>>, e: MeshGuardError) -> bool {
    if status == 401 {
        e is Authentication
    } else if status == 429 {
        e is RateLimit
    } else {
        e matches MeshGuardError::Api { status: s, message } && s == status && message@ == "HTTP "@
            + status_line(status, reason)
    }
}

/// The outcome of a governance response status: success below 400 and
/// above 599, the mapped error otherwise.
pub open spec fn status_outcome(
    status: u16,
    reason: Option<Seq<char>>,
    r: core::result::Result<(), MeshGuardError>,
) -> bool {
    match r {
        Ok(_) => !is_http_error(status),
        Err(e) => is_http_error(status) && status_error_matches(status, reason, e),
    }
}

/// The body of a denial (HTTP 403) of a policy check; an absent field, or
/// a body that does not decode, reads as empty text.
pub struct DenialBody {
    pub policy: String,
    pub rule: String,
    pub message: String,
}

/// The body of an allowed policy check; an absent field, or a body that
/// does not decode, reads as empty text.
pub struct AllowBody {
    pub policy: String,
}

/// `d` is the denial of `action` that a 403 with body `denial` reports.
pub open spec fn is_denial(
    d: PolicyDecision,
    action: Seq<char>,
    denial: DenialBody,
    trace_id: Seq<char>,
    timestamp: Option<UtcTimestamp>,
) -> bool {
    &&& !d.allowed
    &&& d.decision == Decision::Deny
    &&& d.action@ == action
    &&& d.policy == denial.policy
    &&& d.rule == denial.rule
    &&& d.reason == denial.message
    &&& d.trace_id@ == trace_id
    &&& d.timestamp == timestamp
}

/// `d` is the permission of `action` that a success with body `allow`
/// reports.
pub open spec fn is_permission(
    d: PolicyDecision,
    action: Seq<char>,
    allow: AllowBody,
    trace_id: Seq<char>,
    timestamp: Option<UtcTimestamp>,
) -> bool {
    &&& d.allowed
    &&& d.decision == Decision::Allow
    &&& d.action@ == action
    &&& d.policy == allow.policy
    &&& d.rule@ == Seq::<char>::empty()
    &&& d.reason@ == Seq::<char>::empty()
    &&& d.trace_id@ == trace_id
    &&& d.timestamp == timestamp
}

/// What a policy check returns for a response with `status`: a denial for
/// 403 (a denial is an answer, not an error), the mapped error for any
/// other error status, and a permission otherwise.
pub open spec fn check_outcome_spec(
    v: ClientView,
    action: Seq<char>,
    status: u16,
    denial: DenialBody,
    allow: AllowBody,
    timestamp: Option<UtcTimestamp>,
    r: Result<PolicyDecision>,
) -> bool {
    if status == 403 {
        r matches Ok(d) && is_denial(d, action, denial, v.trace_id, timestamp)
    } else if is_http_error(status) {
        r matches Err(e) && status_error_matches(status, canonical_reason(status), e)
    } else {
        r matches Ok(d) && is_permission(d, action, allow, v.trace_id, timestamp)
    }
}

/// What enforcing a check result gives: the check's error unchanged, no
/// error for a permission, and a policy denial carrying the decision.
pub open spec fn enforce_spec(
    action: Seq<char>,
    checked: Result<PolicyDecision>,
    r: Result<()>,
) -> bool {
    match checked {
        Err(e) => r == Err::<(), MeshGuardError>(e),
        Ok(d) => if d.allowed {
            r is Ok
        } else {
            r matches Err(MeshGuardError::PolicyDenied { action: a, policy, rule, reason, decision })
                && a@ == action && policy == d.policy && rule == d.rule && reason == d.reason
                && decision == d
        },
    }
}

/// What governing an action gives: the enforcement's error unchanged (the
/// closure plays no part), or else a result that the closure may return.
pub open spec fn govern_spec<T, F: FnOnce() -> Result<T>>(
    enforced: Result<()>,
    f: F,
    r: Result<T>,
) -> bool {
    match enforced {
        Err(e) => r == Err::<T, MeshGuardError>(e),
        Ok(_) => f.ensures((), r),
    }
}

/// What a health check gives: the status must be 200 and the reported
/// status `healthy`.
pub open spec fn health_spec(
    status: u16,
    reported: core::result::Result<String, String>,
    r: Result<()>,
) -> bool {
    if status != 200 {
        r matches Err(MeshGuardError::Unhealthy(m)) && m@ == "HTTP "@ + decimal(status as nat)
    } else {
        match reported {
            Err(detail) => r matches Err(MeshGuardError::Unhealthy(m)) && m@ == "invalid response: "@
                + detail@,
            Ok(s) => if s@ == "healthy"@ {
                r is Ok
            } else {
                r matches Err(MeshGuardError::Unhealthy(m)) && m == s
            },
        }
    }
}

/// The gateway URL and agent token of a client configured from the
/// environment: the given URL or the default one, and the agent token,
/// which must be present.
pub fn env_settings(gateway_url: Option<String>, agent_token: Option<String>) -> (r: Result<
    (String, String),
>)
    ensures
        match agent_token {
            None => r matches Err(MeshGuardError::Env(m)) && m@ == "MESHGUARD_AGENT_TOKEN not set"@,
            Some(t) => r matches Ok((u, k)) && k == t && u@ == match gateway_url {
                Some(g) => g@,
                None => DEFAULT_GATEWAY_URL@,
            },
        },
{
    let url = match gateway_url {
        Some(g) => g,
        None => String::from_str(DEFAULT_GATEWAY_URL),
    };
    match agent_token {
        Some(t) => Ok((url, t)),
        None => Err(MeshGuardError::Env(String::from_str("MESHGUARD_AGENT_TOKEN not set"))),
    }
}

/// The outcome of a governance response status, given the reason phrase
/// of the status: nothing for a success, and for an error status the error
/// it maps to.
pub fn status_error(status: u16, reason: Option<String>) -> (r: Result<()>)
    ensures
        status_outcome(status, opt_view(reason), r),
{
    if status == 401 {
        Err(MeshGuardError::Authentication)
    } else if status == 429 {
        Err(MeshGuardError::RateLimit)
    } else if 400 <= status && status <= 599 {
        let mut message = String::from_str("HTTP ");
        push_decimal(&mut message, status as u64);
        message.append(" ");
        match reason {
            Some(p) => message.append(p.as_str()),
            None => message.append("<unknown status code>"),
        }
        assert(message@ =~= "HTTP "@ + status_line(status, opt_view(reason)));
        Err(MeshGuardError::Api { status, message })
    } else {
        Ok(())
    }
}

/// The outcome of a governance response status (one that a response can
/// carry, 100 to 999): nothing for a success, and for an error status the
/// error it maps to, described with the status's canonical reason phrase.
pub fn handle_error_status(status: u16) -> (r: Result<()>)
    requires
        100 <= status <= 999,
    ensures
        status_outcome(status, canonical_reason(status), r),
{
    let reason = status_reason(status);
    status_error(status, reason)
}

/// The error for metadata that could not be encoded as JSON, with the
/// encoder's description of the problem.
pub fn metadata_encoding_error(detail: &str) -> (e: MeshGuardError)
    ensures
        e matches MeshGuardError::Api { status, message } && status == 0 && message@
            == "failed to serialize metadata: "@ + detail@,
{
    let mut message = String::from_str("failed to serialize metadata: ");
    message.append(detail);
    MeshGuardError::Api { status: 0, message }
}

/// Turns the result of a policy check into that of an enforcement: a
/// denial becomes a `PolicyDenied` error that carries the decision.
pub fn enforce_outcome(action: &str, checked: Result<PolicyDecision>) -> (r: Result<()>)
    ensures
        enforce_spec(action@, checked, r),
        checked matches Err(e) ==> r == Err::<(), MeshGuardError>(e),
        r is Ok ==> (checked matches Ok(d) && d.allowed),
{
    match checked {
        Err(e) => Err(e),
        Ok(decision) => {
            if !decision.allowed {
                let policy = decision.policy.clone();
                let rule = decision.rule.clone();
                let reason = decision.reason.clone();
                Err(
                    MeshGuardError::PolicyDenied {
                        action: String::from_str(action),
                        policy,
                        rule,
                        reason,
                        decision,
                    },
                )
            } else {
                Ok(())
            }
        },
    }
}

/// Runs `f` only when the enforcement succeeded; otherwise returns the
/// enforcement's error without calling `f`.
pub fn govern_with<T, F: FnOnce() -> Result<T>>(enforced: Result<()>, f: F) -> (r: Result<T>)
    requires
        enforced is Ok ==> f.requires(()),
    ensures
        govern_spec(enforced, f, r),
{
    match enforced {
        Err(e) => Err(e),
        Ok(()) => f(),
    }
}

/// The outcome of a health check: the response status and what the body
/// reported (its `status` field, or why it could not be decoded).
pub fn health_outcome(status: u16, reported: core::result::Result<String, String>) -> (r: Result<()>)
    ensures
        health_spec(status, reported, r),
{
    if status != 200 {
        let mut message = String::from_str("HTTP ");
        push_decimal(&mut message, status as u64);
        assert(message@ =~= "HTTP "@ + decimal(status as nat));
        return Err(MeshGuardError::Unhealthy(message));
    }
    match reported {
        Err(detail) => {
            let mut message = String::from_str("invalid response: ");
            message.append(detail.as_str());
            Err(MeshGuardError::Unhealthy(message))
        },
        Ok(s) => {
            let healthy = String::from_str("healthy");
            if s == healthy {
                Ok(())
            } else {
                Err(MeshGuardError::Unhealthy(s))
            }
        },
    }
}

impl MeshGuardClient {
    /// Creates a client for the gateway at `gateway_url` (any trailing
    /// slashes are dropped) with the agent token `api_key`, the admin token
    /// found in the environment (if any) and the transport's HTTP pool. The
    /// trace ID is the current time in nanoseconds since the Unix epoch
    /// (`0` where the clock gives no such number).
    pub fn new(
        gateway_url: &str,
        api_key: &str,
        admin_token: Option<String>,
        http: reqwest::Client,
    ) -> (c: Self)
        ensures
            c@.gateway_url == trim_end_slashes(gateway_url@),
            !ends_with_slash(c@.gateway_url),
            c@.api_key == api_key@,
            c@.admin_token == opt_view(admin_token),
            is_clock_trace_id(c@.trace_id),
            exists|n: int| i64::MIN <= n <= i64::MAX && c@.trace_id == #[trigger] signed_decimal(n),
            c.http_pool() == http,
    {
        let now = clock_now();
        let nanos: i64 = match now {
            Some(t) => match t.epoch_nanos() {
                Some(n) => n,
                None => 0,
            },
            None => 0,
        };
        let trace_id = i64_to_decimal(nanos);
        assert(trace_id@ == clock_trace_id(now));
        assert(trace_id@ == signed_decimal(nanos as int));
        MeshGuardClient {
            gateway_url: trim_trailing_slashes(gateway_url),
            api_key: String::from_str(api_key),
            admin_token,
            http,
            trace_id,
        }
    }

    /// Sets the admin token for management API calls.
    pub fn set_admin_token(&mut self, token: &str)
        ensures
            final(self)@.admin_token == Some(token@),
            final(self).http_pool() == old(self).http_pool(),
            final(self)@.gateway_url == old(self)@.gateway_url,
            final(self)@.api_key == old(self)@.api_key,
            final(self)@.trace_id == old(self)@.trace_id,
    {
        self.admin_token = Some(String::from_str(token));
    }

    /// Sets a custom trace ID for request correlation.
    pub fn set_trace_id(&mut self, trace_id: &str)
        ensures
            final(self)@.trace_id == trace_id@,
            final(self).http_pool() == old(self).http_pool(),
            final(self)@.gateway_url == old(self)@.gateway_url,
            final(self)@.api_key == old(self)@.api_key,
            final(self)@.admin_token == old(self)@.admin_token,
    {
        self.trace_id = String::from_str(trace_id);
    }

    /// The gateway URL, without trailing slash.
    pub fn gateway_url(&self) -> (r: &str)
        ensures
            r@ == self@.gateway_url,
    {
        self.gateway_url.as_str()
    }

    /// The trace ID sent with every request.
    pub fn trace_id(&self) -> (r: &str)
        ensures
            r@ == self@.trace_id,
    {
        self.trace_id.as_str()
    }

    /// The transport's HTTP connection pool.
    pub fn http_client(&self) -> (r: &reqwest::Client)
        ensures
            *r == self.http_pool(),
    {
        &self.http
    }

    /// The URL of a gateway endpoint: the gateway URL followed by `path`.
    fn endpoint(&self, path: &str) -> (r: String)
        ensures
            r@ == self@.gateway_url + path@,
    {
        let mut url = self.gateway_url.clone();
        url.append(path);
        url
    }

    /// The headers that every governance request carries.
    pub fn auth_headers(&self) -> (h: Vec<(String, String)>)
        ensures
            pairs_view(h@) == auth_headers_spec(self@),
            self@.api_key.len() > 0 ==> pairs_view(h@).contains(
                ("authorization"@, "Bearer "@ + self@.api_key),
            ),
    {
        let mut h: Vec<(String, String)> = Vec::new();
        push_pair(&mut h, "X-MeshGuard-Trace-ID", self.trace_id.as_str());
        if !is_empty_text(self.api_key.as_str()) {
            let mut bearer = String::from_str("Bearer ");
            bearer.append(self.api_key.as_str());
            push_pair(&mut h, "authorization", bearer.as_str());
        }
        assert(pairs_view(h@) =~= auth_headers_spec(self@));
        proof {
            crate::laws::law_bearer_carries_whole_token(
                self@,
                Seq::empty(),
                Seq::empty(),
                None,
            );
        }
        h
    }

    /// The headers of an admin call; fails with `Authentication` when the
    /// client has no admin token, or an empty one.
    pub fn admin_headers(&self) -> (r: Result<Vec<(String, String)>>)
        ensures
            match r {
                Ok(h) => admin_headers_spec(self@) == Some(pairs_view(h@)),
                Err(e) => admin_headers_spec(self@) is None && e is Authentication,
            },
    {
        match &self.admin_token {
            Some(token) => {
                if is_empty_text(token.as_str()) {
                    Err(MeshGuardError::Authentication)
                } else {
                    let mut h: Vec<(String, String)> = Vec::new();
                    push_pair(&mut h, "X-Admin-Token", token.as_str());
                    push_pair(&mut h, "X-MeshGuard-Trace-ID", self.trace_id.as_str());
                    assert(pairs_view(h@) =~= seq![
                        ("X-Admin-Token"@, token@),
                        ("X-MeshGuard-Trace-ID"@, self.trace_id@),
                    ]);
                    Ok(h)
                }
            },
            None => Err(MeshGuardError::Authentication),
        }
    }

    /// The request that checks whether `agent_id` may perform `action`
    /// (a GET), with the metadata already encoded as JSON when given.
    pub fn check_request(&self, agent_id: &str, action: &str, metadata_json: Option<String>) -> (r:
        GatewayRequest)
        ensures
            r.method == HttpMethod::Get,
            r.url@ == self@.gateway_url + "/proxy/check"@,
            r.query@.len() == 0,
            pairs_view(r.headers@) == check_headers_spec(
                self@,
                agent_id@,
                action@,
                opt_view(metadata_json),
            ),
            pairs_view(r.headers@).contains(("X-MeshGuard-Action"@, action@)),
            self@.api_key.len() > 0 ==> pairs_view(r.headers@).contains(
                ("authorization"@, "Bearer "@ + self@.api_key),
            ),
    {
        let url = self.endpoint("/proxy/check");
        let mut headers = self.auth_headers();
        push_pair(&mut headers, "X-MeshGuard-Action", action);
        let ghost with_action = pairs_view(headers@);
        if !is_empty_text(agent_id) {
            push_pair(&mut headers, "X-MeshGuard-Agent-ID", agent_id);
        }
        let ghost with_agent = pairs_view(headers@);
        match &metadata_json {
            Some(m) => push_pair(&mut headers, "X-MeshGuard-Meta", m.as_str()),
            None => {},
        }
        assert(pairs_view(headers@) =~= check_headers_spec(
            self@,
            agent_id@,
            action@,
            opt_view(metadata_json),
        ));
        proof {
            crate::laws::law_bearer_carries_whole_token(
                self@,
                agent_id@,
                action@,
                opt_view(metadata_json),
            );
            let a = auth_headers_spec(self@);
            assert(pairs_view(headers@)[a.len() as int] == ("X-MeshGuard-Action"@, action@));
        }
        GatewayRequest { method: HttpMethod::Get, url, query: Vec::new(), headers }
    }

    /// The request that checks whether `agent_id` may perform `action`,
    /// with its metadata, when given, encoded as JSON for the metadata
    /// header. Encoding the metadata cannot fail; the JSON text depends on
    /// the order in which the map is walked.
    pub fn check_request_with(
        &self,
        agent_id: &str,
        action: &str,
        metadata: Option<&HashMap<String, serde_json::Value>>,
    ) -> (r: Result<GatewayRequest>)
        ensures
            r is Ok,
            r matches Ok(req) ==> {
                &&& req.method == HttpMethod::Get
                &&& req.url@ == self@.gateway_url + "/proxy/check"@
                &&& req.query@.len() == 0
                &&& match metadata {
                    None => pairs_view(req.headers@) == check_headers_spec(
                        self@,
                        agent_id@,
                        action@,
                        None,
                    ),
                    Some(_) => exists|m: Seq<char>|
                        pairs_view(req.headers@) == #[trigger] check_headers_spec(
                            self@,
                            agent_id@,
                            action@,
                            Some(m),
                        ),
                }
            },
    {
        let metadata_json: Option<String> = match metadata {
            Some(meta) => match encode_metadata(meta) {
                Ok(text) => Some(text),
                Err(detail) => {
                    return Err(metadata_encoding_error(detail.as_str()));
                },
            },
            None => None,
        };
        let ghost encoded = opt_view(metadata_json);
        let req = self.check_request(agent_id, action, metadata_json);
        proof {
            if let Some(m) = encoded {
                assert(pairs_view(req.headers@) == check_headers_spec(
                    self@,
                    agent_id@,
                    action@,
                    Some(m),
                ));
            }
        }
        Ok(req)
    }

    /// Reads the answer to a policy check, stamping the decision with
    /// `timestamp`: a 403 is a denial (not an error), another error status
    /// its mapped error, and any other status a permission. The gateway's
    /// bodies come decoded both ways.
    pub fn check_outcome(
        &self,
        action: &str,
        status: u16,
        denial: DenialBody,
        allow: AllowBody,
        timestamp: Option<UtcTimestamp>,
    ) -> (r: Result<PolicyDecision>)
        requires
            100 <= status <= 999,
        ensures
            check_outcome_spec(self@, action@, status, denial, allow, timestamp, r),
            r matches Ok(d) ==> (d.action@ == action@ && d.trace_id@ == self@.trace_id
                && d.timestamp == timestamp && (d.allowed <==> d.decision == Decision::Allow)),
            r matches Ok(d) ==> (!d.allowed ==> (d.policy == denial.policy && d.rule
                == denial.rule && d.reason == denial.message)),
    {
        if status == 403 {
            return Ok(
                PolicyDecision {
                    allowed: false,
                    action: String::from_str(action),
                    decision: Decision::Deny,
                    policy: denial.policy,
                    rule: denial.rule,
                    reason: denial.message,
                    trace_id: self.trace_id.clone(),
                    timestamp,
                },
            );
        }
        match handle_error_status(status) {
            Err(e) => Err(e),
            Ok(()) => Ok(
                PolicyDecision {
                    allowed: true,
                    action: String::from_str(action),
                    decision: Decision::Allow,
                    policy: allow.policy,
                    rule: String::new(),
                    reason: String::new(),
                    trace_id: self.trace_id.clone(),
                    timestamp,
                },
            ),
        }
    }

    /// Reads the answer to a policy check that has just arrived, stamping
    /// the decision with the current time (no stamp only where the clock
    /// reads so far from the Unix epoch that its seconds do not fit an
    /// `i64`).
    pub fn check_response(
        &self,
        action: &str,
        status: u16,
        denial: DenialBody,
        allow: AllowBody,
    ) -> (r: Result<PolicyDecision>)
        requires
            100 <= status <= 999,
        ensures
            exists|now: Option<UtcTimestamp>|
                is_clock_result(now) && #[trigger] check_outcome_spec(
                    self@,
                    action@,
                    status,
                    denial,
                    allow,
                    now,
                    r,
                ),
            r matches Ok(d) ==> (d.action@ == action@ && d.trace_id@ == self@.trace_id && (
            d.allowed <==> d.decision == Decision::Allow)),
    {
        let now = clock_now();
        let r = self.check_outcome(action, status, denial, allow, now);
        assert(check_outcome_spec(self@, action@, status, denial, allow, now, r));
        r
    }

    /// The request that sends `path` through the governance proxy with
    /// `method`: the
    /// gateway URL, `/proxy/` and the path without its leading slashes; the
    /// common headers, and a JSON content type when a body goes with it.
    pub fn proxy_request(&self, method: HttpMethod, path: &str, has_body: bool) -> (r: GatewayRequest)
        ensures
            r.method == method,
            r.url@ == self@.gateway_url + "/proxy/"@ + trim_start_slashes(path@),
            r.query@.len() == 0,
            pairs_view(r.headers@) == auth_headers_spec(self@) + if has_body {
                seq![("content-type"@, "application/json"@)]
            } else {
                Seq::<(Seq<char>, Seq<char>)>::empty()
            },
            self@.api_key.len() > 0 ==> pairs_view(r.headers@).contains(
                ("authorization"@, "Bearer "@ + self@.api_key),
            ),
    {
        let trimmed = trim_leading_slashes(path);
        let mut url = self.endpoint("/proxy/");
        url.append(trimmed.as_str());
        let mut headers = self.auth_headers();
        if has_body {
            push_pair(&mut headers, "content-type", "application/json");
        }
        assert(pairs_view(headers@) =~= auth_headers_spec(self@) + if has_body {
            seq![("content-type"@, "application/json"@)]
        } else {
            Seq::<(Seq<char>, Seq<char>)>::empty()
        });
        proof {
            crate::laws::law_bearer_carries_whole_token(self@, Seq::empty(), Seq::empty(), None);
            if self@.api_key.len() > 0 {
                assert(pairs_view(headers@)[1] == auth_headers_spec(self@)[1]);
            }
        }
        GatewayRequest { method, url, query: Vec::new(), headers }
    }

    /// The request that checks the gateway's health (a GET, without
    /// headers).
    pub fn health_request(&self) -> (r: GatewayRequest)
        ensures
            r.method == HttpMethod::Get,
            r.url@ == self@.gateway_url + "/health"@,
            r.query@.len() == 0,
            r.headers@.len() == 0,
    {
        GatewayRequest {
            method: HttpMethod::Get,
            url: self.endpoint("/health"),
            query: Vec::new(),
            headers: Vec::new(),
        }
    }

    /// An admin request with `method` to `path` with the query `query`, and the admin
    /// headers after the headers `first`.
    pub(crate) fn admin_request(
        &self,
        method: HttpMethod,
        path: &str,
        first: Vec<(String, String)>,
        query: Vec<(String, String)>,
    ) -> (r: Result<GatewayRequest>)
        ensures
            admin_request_spec(self@, method, path@, pairs_view(first@), pairs_view(query@), r),
            r matches Ok(req) ==> (self@.admin_token matches Some(t) && t.len() > 0 && pairs_view(
                req.headers@,
            ).contains(("X-Admin-Token"@, t)) && pairs_view(req.headers@).contains(
                ("X-MeshGuard-Trace-ID"@, self@.trace_id),
            )),
    {
        let url = self.endpoint(path);
        let admin = self.admin_headers()?;
        let ghost first_view = pairs_view(first@);
        let mut headers = first;
        append_pairs(&mut headers, admin);
        let r = Ok(GatewayRequest { method, url, query, headers });
        proof {
            crate::laws::law_admin_requests_carry_admin_headers(
                self@,
                method,
                path@,
                first_view,
                pairs_view(query@),
                r,
            );
        }
        r
    }
}

} // verus!
