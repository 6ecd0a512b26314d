//! Server configuration and the bearer-token check applied before dispatch.
use vstd::prelude::*;
use crate::text::{str_eq, str_starts_with, spec_starts_with};

verus! {

/// Connection and authentication settings. Loading them from the process
/// environment is left to the embedding program; the checks on them live here.
pub struct Config {
    pub port: u16,
    pub surreal_url: String,
    pub surreal_user: String,
    pub surreal_pass: String,
    pub surreal_ns: String,
    pub surreal_db: String,
    pub mcp_api_key: Option<String>,
    pub jwt_secret: String,
}

impl Config {
    /// Authentication is required exactly when a shared secret is configured.
    pub fn requires_auth(&self) -> (r: bool)
        ensures
            r == (self.mcp_api_key is Some),
    {
        self.mcp_api_key.is_some()
    }

    /// With a configured secret the key must match it exactly; with none,
    /// every key is accepted.
    pub fn validate_api_key(&self, key: &str) -> (r: bool)
        ensures
            r == match self.mcp_api_key {
                Some(expected) => key@ == expected@,
                None => true,
            },
    {
        match &self.mcp_api_key {
            Some(expected) => str_eq(key, expected.as_str()),
            None => true,
        }
    }
}

/// What the transport decides for one inbound request, before dispatch.
#[derive(Debug, PartialEq, Eq, Structural)]
pub enum GateOutcome {
    RateLimited,
    Unauthorized,
    Proceed,
}

/// The view of an `Authorization` header once the scheme is checked: the
/// bearer token is everything after `"Bearer "`.
pub open spec fn spec_bearer_token(header: Seq<char>) -> Option<Seq<char>> {
    if spec_starts_with(header, "Bearer "@) {
        Some(header.subrange("Bearer "@.len() as int, header.len() as int))
    } else {
        None
    }
}

/// Extracts the token from an `Authorization: Bearer <token>` header value.
pub fn bearer_token(header: &str) -> (r: Option<&str>)
    ensures
        match r {
            Some(tok) => spec_bearer_token(header@) == Some(tok@),
            None => spec_bearer_token(header@) is None,
        },
{
    let prefix = "Bearer ";
    if str_starts_with(header, prefix) {
        let plen = prefix.unicode_len();
        let hlen = header.unicode_len();
        Some(header.substring_char(plen, hlen))
    } else {
        None
    }
}

/// What the transport decides for one request: the rate limit first, then
/// bearer authentication when a secret is configured (a missing or non-bearer
/// header is rejected), and otherwise admission.
pub open spec fn spec_gate(
    config: Config,
    rate_ok: bool,
    auth_header: Option<Seq<char>>,
) -> GateOutcome {
    if !rate_ok {
        GateOutcome::RateLimited
    } else if config.mcp_api_key is None {
        GateOutcome::Proceed
    } else {
        match auth_header {
            None => GateOutcome::Unauthorized,
            Some(h) => match spec_bearer_token(h) {
                None => GateOutcome::Unauthorized,
                Some(tok) => if tok == config.mcp_api_key->0@ {
                    GateOutcome::Proceed
                } else {
                    GateOutcome::Unauthorized
                },
            },
        }
    }
}

/// Applies the transport gate: rate limit, then optional bearer
/// authentication, exactly as `spec_gate` states.
pub fn gate(config: &Config, rate_ok: bool, auth_header: Option<&str>) -> (r: GateOutcome)
    ensures
        r == spec_gate(
            *config,
            rate_ok,
            match auth_header {
                Some(h) => Some(h@),
                None => None,
            },
        ),
{
    if !rate_ok {
        return GateOutcome::RateLimited;
    }
    if !config.requires_auth() {
        return GateOutcome::Proceed;
    }
    match auth_header {
        None => GateOutcome::Unauthorized,
        Some(h) => match bearer_token(h) {
            None => GateOutcome::Unauthorized,
            Some(tok) => {
                if config.validate_api_key(tok) {
                    GateOutcome::Proceed
                } else {
                    GateOutcome::Unauthorized
                }
            },
        },
    }
}

} // verus!
