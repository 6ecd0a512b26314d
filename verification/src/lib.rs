//! The protocol and dispatch engine of a governance/knowledge store exposed
//! to agent clients over JSON-RPC.
//!
//! Everything here is verified: the envelope and its notification rules, the
//! routing of each method, tool resolution with built-in precedence,
//! parameter binding, result normalization under the statement cap, the
//! recursive unwrapping of tagged values, resource addressing, the session
//! registry, the fixed-window request budget, and the audit trail. Outside
//! work — store queries, vector calls, the wire codec — stands behind small
//! trusted boundaries, and an embedding program drives the engine by
//! performing the actions it asks for.
pub mod binding;
pub mod builders;
pub mod config;
pub mod dispatch;
pub mod entities;
pub mod json;
pub mod metrics;
pub mod protocol;
pub mod rate_limiter;
pub mod registry;
pub mod results;
pub mod rules;
pub mod security;
pub mod stringmap;
pub mod text;
pub mod toolread;
pub mod tooltext;
pub mod uri;
pub mod wire;
