//! Usage metrics. The verified model is the set of plain counters held here;
//! each movement is mirrored into Prometheus handles for exposition. Costs
//! are counted in nano-dollars so the whole module stays in integers.
use vstd::prelude::*;

verus! {

/// One integer counter handle of the `prometheus` crate, held opaquely: its
/// cell is shared, so its value is not modelled here.
#[verifier::external_body]
pub struct Counter {
    inner: prometheus::IntCounter,
}

/// One integer gauge handle of the `prometheus` crate, held opaquely.
#[verifier::external_body]
pub struct Gauge {
    inner: prometheus::IntGauge,
}

/// The collector registry of the `prometheus` crate, held opaquely.
#[verifier::external_body]
pub struct MetricsRegistry {
    inner: prometheus::Registry,
}

/// Relies on prometheus::IntCounter::new: a fresh integer counter, or nothing
/// where the name or help text is not accepted.
#[verifier::external_body]
fn int_counter_new(name: &str, help: &str) -> Option<Counter> {
    prometheus::IntCounter::new(name.to_string(), help.to_string()).ok().map(
        |inner| Counter { inner },
    )
}

/// Relies on prometheus::IntGauge::new: a fresh integer gauge, or nothing
/// where the name or help text is not accepted.
#[verifier::external_body]
fn int_gauge_new(name: &str, help: &str) -> Option<Gauge> {
    prometheus::IntGauge::new(name.to_string(), help.to_string()).ok().map(
        |inner| Gauge { inner },
    )
}

/// Relies on prometheus::core::GenericCounter::inc: adds one to the shared
/// counter cell.
#[verifier::external_body]
fn int_counter_inc(c: &Counter) {
    c.inner.inc()
}

/// Relies on prometheus::core::GenericCounter::inc_by: adds `v` to the shared
/// counter cell.
#[verifier::external_body]
fn int_counter_inc_by(c: &Counter, v: u64) {
    c.inner.inc_by(v)
}

/// Relies on prometheus::core::GenericGauge::inc: adds one to the shared
/// gauge cell.
#[verifier::external_body]
fn int_gauge_inc(g: &Gauge) {
    g.inner.inc()
}

/// Relies on prometheus::core::GenericGauge::dec: subtracts one from the
/// shared gauge cell.
#[verifier::external_body]
fn int_gauge_dec(g: &Gauge) {
    g.inner.dec()
}

/// Relies on prometheus::Registry::new.
#[verifier::external_body]
fn registry_new() -> MetricsRegistry {
    MetricsRegistry { inner: prometheus::Registry::new() }
}

/// Relies on prometheus::Registry::register: whether the collector was
/// accepted (a duplicate name is refused).
#[verifier::external_body]
fn registry_register_counter(r: &MetricsRegistry, c: &Counter) -> bool {
    r.inner.register(Box::new(c.inner.clone())).is_ok()
}

/// Relies on prometheus::Registry::register: whether the collector was
/// accepted (a duplicate name is refused).
#[verifier::external_body]
fn registry_register_gauge(r: &MetricsRegistry, g: &Gauge) -> bool {
    r.inner.register(Box::new(g.inner.clone())).is_ok()
}

/// Relies on prometheus::TextEncoder::encode_to_string over the registry's
/// gathered families: the exposition-format text.
#[verifier::external_body]
fn registry_text(r: &MetricsRegistry) -> String {
    prometheus::TextEncoder::new().encode_to_string(&r.inner.gather()).unwrap_or_default()
}

/// The verified counters, with their Prometheus mirrors. Counts saturate
/// instead of wrapping.
pub struct Metrics {
    tool_calls_count: u64,
    tool_errors_count: u64,
    openai_requests_count: u64,
    openai_tokens_count: u64,
    openai_cost_nanos_count: u64,
    sessions_created_count: u64,
    active_sessions_count: i64,
    db_queries_count: u64,
    registry: MetricsRegistry,
    tool_calls: Option<Counter>,
    tool_errors: Option<Counter>,
    openai_requests: Option<Counter>,
    openai_tokens: Option<Counter>,
    openai_cost_nanos: Option<Counter>,
    sessions_created: Option<Counter>,
    active_sessions: Option<Gauge>,
    db_queries: Option<Gauge>,
}

pub open spec fn sat_add_u64(a: u64, b: u64) -> u64 {
    if a + b > u64::MAX {
        u64::MAX
    } else {
        (a + b) as u64
    }
}

impl Metrics {
    pub closed spec fn spec_tool_calls(&self) -> u64 {
        self.tool_calls_count
    }

    pub closed spec fn spec_tool_errors(&self) -> u64 {
        self.tool_errors_count
    }

    pub closed spec fn spec_openai_requests(&self) -> u64 {
        self.openai_requests_count
    }

    pub closed spec fn spec_openai_tokens(&self) -> u64 {
        self.openai_tokens_count
    }

    pub closed spec fn spec_openai_cost_nanos(&self) -> u64 {
        self.openai_cost_nanos_count
    }

    pub closed spec fn spec_sessions_created(&self) -> u64 {
        self.sessions_created_count
    }

    pub closed spec fn spec_active_sessions(&self) -> i64 {
        self.active_sessions_count
    }

    pub closed spec fn spec_db_queries(&self) -> u64 {
        self.db_queries_count
    }

    /// Every count starts at zero.
    pub open spec fn fresh(&self) -> bool {
        &&& self.spec_tool_calls() == 0
        &&& self.spec_tool_errors() == 0
        &&& self.spec_openai_requests() == 0
        &&& self.spec_openai_tokens() == 0
        &&& self.spec_openai_cost_nanos() == 0
        &&& self.spec_sessions_created() == 0
        &&& self.spec_active_sessions() == 0
        &&& self.spec_db_queries() == 0
    }

    /// One tool call: the call count grows by one, and the error count grows
    /// by one exactly when the call failed. The name and duration are part of
    /// the recording interface; neither is counted here.
    pub fn track_tool_call(&mut self, tool_name: &str, duration_ms: u64, success: bool)
        ensures
            final(self).spec_tool_calls() == sat_add_u64(old(self).spec_tool_calls(), 1),
            final(self).spec_tool_errors() == if success {
                old(self).spec_tool_errors()
            } else {
                sat_add_u64(old(self).spec_tool_errors(), 1)
            },
            final(self).spec_openai_requests() == old(self).spec_openai_requests(),
            final(self).spec_openai_tokens() == old(self).spec_openai_tokens(),
            final(self).spec_openai_cost_nanos() == old(self).spec_openai_cost_nanos(),
            final(self).spec_sessions_created() == old(self).spec_sessions_created(),
            final(self).spec_active_sessions() == old(self).spec_active_sessions(),
            final(self).spec_db_queries() == old(self).spec_db_queries(),
    {
        let _ = tool_name;
        let _ = duration_ms;
        self.tool_calls_count = if self.tool_calls_count == u64::MAX {
            u64::MAX
        } else {
            self.tool_calls_count + 1
        };
        match &self.tool_calls {
            Some(c) => int_counter_inc(c),
            None => {},
        }
        if !success {
            self.tool_errors_count = if self.tool_errors_count == u64::MAX {
                u64::MAX
            } else {
                self.tool_errors_count + 1
            };
            match &self.tool_errors {
                Some(c) => int_counter_inc(c),
                None => {},
            }
        }
    }

    /// One embedding-API call: the request count grows by one, the token
    /// count by the tokens used, and the cost by twenty nano-dollars per
    /// token (two cents per million tokens).
    pub fn track_openai_usage(&mut self, tokens: u32)
        ensures
            final(self).spec_openai_requests() == sat_add_u64(old(self).spec_openai_requests(), 1),
            final(self).spec_openai_tokens() == sat_add_u64(
                old(self).spec_openai_tokens(),
                tokens as u64,
            ),
            final(self).spec_openai_cost_nanos() == sat_add_u64(
                old(self).spec_openai_cost_nanos(),
                (tokens * 20) as u64,
            ),
            final(self).spec_tool_calls() == old(self).spec_tool_calls(),
            final(self).spec_tool_errors() == old(self).spec_tool_errors(),
            final(self).spec_sessions_created() == old(self).spec_sessions_created(),
            final(self).spec_active_sessions() == old(self).spec_active_sessions(),
            final(self).spec_db_queries() == old(self).spec_db_queries(),
    {
        self.openai_requests_count = if self.openai_requests_count == u64::MAX {
            u64::MAX
        } else {
            self.openai_requests_count + 1
        };
        match &self.openai_requests {
            Some(c) => int_counter_inc(c),
            None => {},
        }
        let t = tokens as u64;
        self.openai_tokens_count = if self.openai_tokens_count > u64::MAX - t {
            u64::MAX
        } else {
            self.openai_tokens_count + t
        };
        match &self.openai_tokens {
            Some(c) => int_counter_inc_by(c, t),
            None => {},
        }
        let cost: u64 = (tokens as u64) * 20;
        self.openai_cost_nanos_count = if self.openai_cost_nanos_count > u64::MAX - cost {
            u64::MAX
        } else {
            self.openai_cost_nanos_count + cost
        };
        match &self.openai_cost_nanos {
            Some(c) => int_counter_inc_by(c, cost),
            None => {},
        }
    }

    /// One opened session: both the created total and the live gauge grow.
    pub fn track_session_created(&mut self)
        ensures
            final(self).spec_sessions_created() == sat_add_u64(
                old(self).spec_sessions_created(),
                1,
            ),
            final(self).spec_active_sessions() == if old(self).spec_active_sessions() == i64::MAX {
                i64::MAX
            } else {
                (old(self).spec_active_sessions() + 1) as i64
            },
            final(self).spec_tool_calls() == old(self).spec_tool_calls(),
            final(self).spec_db_queries() == old(self).spec_db_queries(),
    {
        self.sessions_created_count = if self.sessions_created_count == u64::MAX {
            u64::MAX
        } else {
            self.sessions_created_count + 1
        };
        match &self.sessions_created {
            Some(c) => int_counter_inc(c),
            None => {},
        }
        self.active_sessions_count = if self.active_sessions_count == i64::MAX {
            i64::MAX
        } else {
            self.active_sessions_count + 1
        };
        match &self.active_sessions {
            Some(g) => int_gauge_inc(g),
            None => {},
        }
    }

    /// One closed session: the live gauge shrinks.
    pub fn track_session_ended(&mut self)
        ensures
            final(self).spec_active_sessions() == if old(self).spec_active_sessions() == i64::MIN {
                i64::MIN
            } else {
                (old(self).spec_active_sessions() - 1) as i64
            },
            final(self).spec_sessions_created() == old(self).spec_sessions_created(),
            final(self).spec_tool_calls() == old(self).spec_tool_calls(),
    {
        self.active_sessions_count = if self.active_sessions_count == i64::MIN {
            i64::MIN
        } else {
            self.active_sessions_count - 1
        };
        match &self.active_sessions {
            Some(g) => int_gauge_dec(g),
            None => {},
        }
    }

    /// One store query: the query count grows by one. The duration is part of
    /// the recording interface and is not counted here.
    pub fn track_db_query(&mut self, duration_ms: u64)
        ensures
            final(self).spec_db_queries() == sat_add_u64(old(self).spec_db_queries(), 1),
            final(self).spec_tool_calls() == old(self).spec_tool_calls(),
            final(self).spec_active_sessions() == old(self).spec_active_sessions(),
    {
        let _ = duration_ms;
        self.db_queries_count = if self.db_queries_count == u64::MAX {
            u64::MAX
        } else {
            self.db_queries_count + 1
        };
        match &self.db_queries {
            Some(g) => int_gauge_inc(g),
            None => {},
        }
    }

    /// The Prometheus exposition text of everything registered here.
    pub fn get_metrics_text(&self) -> String {
        registry_text(&self.registry)
    }

    pub fn tool_calls_total(&self) -> (r: u64)
        ensures
            r == self.spec_tool_calls(),
    {
        self.tool_calls_count
    }

    pub fn tool_errors_total(&self) -> (r: u64)
        ensures
            r == self.spec_tool_errors(),
    {
        self.tool_errors_count
    }

    pub fn openai_tokens_total(&self) -> (r: u64)
        ensures
            r == self.spec_openai_tokens(),
    {
        self.openai_tokens_count
    }

    pub fn openai_cost_nanos_total(&self) -> (r: u64)
        ensures
            r == self.spec_openai_cost_nanos(),
    {
        self.openai_cost_nanos_count
    }

    pub fn active_sessions_total(&self) -> (r: i64)
        ensures
            r == self.spec_active_sessions(),
    {
        self.active_sessions_count
    }

    pub fn db_queries_total(&self) -> (r: u64)
        ensures
            r == self.spec_db_queries(),
    {
        self.db_queries_count
    }
}

/// Builds the metrics set with every count at zero and the mirrors
/// registered.
pub fn init_metrics() -> (r: Metrics)
    ensures
        r.fresh(),
{
    let registry = registry_new();
    let tool_calls = int_counter_new("mcp_tool_calls_total", "Total number of MCP tool calls");
    let tool_errors = int_counter_new(
        "mcp_tool_errors_total",
        "Total number of tool call errors",
    );
    let openai_requests = int_counter_new(
        "mcp_openai_requests_total",
        "Total OpenAI API requests",
    );
    let openai_tokens = int_counter_new("mcp_openai_tokens_total", "Total OpenAI tokens used");
    let openai_cost_nanos = int_counter_new(
        "mcp_openai_cost_nanousd",
        "Estimated OpenAI cost in nano-USD",
    );
    let sessions_created = int_counter_new("mcp_sessions_created_total", "Total sessions created");
    let active_sessions = int_gauge_new("mcp_active_sessions", "Number of active sessions");
    let db_queries = int_gauge_new("mcp_db_queries_total", "Total database queries");
    match &tool_calls {
        Some(c) => {
            let _ = registry_register_counter(&registry, c);
        },
        None => {},
    }
    match &tool_errors {
        Some(c) => {
            let _ = registry_register_counter(&registry, c);
        },
        None => {},
    }
    match &openai_requests {
        Some(c) => {
            let _ = registry_register_counter(&registry, c);
        },
        None => {},
    }
    match &openai_tokens {
        Some(c) => {
            let _ = registry_register_counter(&registry, c);
        },
        None => {},
    }
    match &openai_cost_nanos {
        Some(c) => {
            let _ = registry_register_counter(&registry, c);
        },
        None => {},
    }
    match &sessions_created {
        Some(c) => {
            let _ = registry_register_counter(&registry, c);
        },
        None => {},
    }
    match &active_sessions {
        Some(g) => {
            let _ = registry_register_gauge(&registry, g);
        },
        None => {},
    }
    match &db_queries {
        Some(g) => {
            let _ = registry_register_gauge(&registry, g);
        },
        None => {},
    }
    Metrics {
        tool_calls_count: 0,
        tool_errors_count: 0,
        openai_requests_count: 0,
        openai_tokens_count: 0,
        openai_cost_nanos_count: 0,
        sessions_created_count: 0,
        active_sessions_count: 0,
        db_queries_count: 0,
        registry,
        tool_calls,
        tool_errors,
        openai_requests,
        openai_tokens,
        openai_cost_nanos,
        sessions_created,
        active_sessions,
        db_queries,
    }
}

} // verus!
