//! Client-side logic for the MeshGuard governance gateway.
//!
//! MeshGuard enables policy-based governance for AI agents and automated
//! workflows. This library decides what each call to the gateway sends
//! (URL, query, headers) and how each answer is read (decisions, errors),
//! for policy checks, enforcement, governed execution, proxying, health
//! checks and the admin operations on agents, policies and the audit log.
//! A transport sends the requests that it describes.
use vstd::prelude::*;

pub mod admin;
pub mod client;
pub mod error;
pub mod laws;
pub mod outside;
pub mod request;
pub mod text;
pub mod types;

pub use client::MeshGuardClient;
pub use error::{MeshGuardError, Result};
pub use types::{
    Agent, AuditEntry, AuditQueryOptions, CreateAgentRequest, Decision, Policy, PolicyDecision,
    Rule, UtcTimestamp,
};

verus! {
} // verus!
