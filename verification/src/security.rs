//! The fixed-window request budget per client address: a counter per client,
//! reset once its window has elapsed.
use vstd::prelude::*;
use crate::stringmap::StringMap;

verus! {

/// One fixed-window counter per client: the window's start and the number of
/// requests seen in it.
pub struct RateLimiter {
    visitors: StringMap<(u64, u32)>,
    limit: u32,
    window_ms: u64,
}

/// One check against the window state: a client not yet seen (or whose window
/// has elapsed) starts a fresh window at `now`; the count always grows by one
/// (saturating); the request is admitted while the count stays within the
/// limit.
pub open spec fn spec_check(
    m: Map<Seq<char>, (u64, u32)>,
    ip: Seq<char>,
    now: u64,
    limit: u32,
    window_ms: u64,
) -> (Map<Seq<char>, (u64, u32)>, bool) {
    let entry = if m.contains_key(ip) {
        m[ip]
    } else {
        (now, 0u32)
    };
    let current = if now > entry.0 + window_ms {
        (now, 0u32)
    } else {
        entry
    };
    let count = if current.1 == u32::MAX {
        u32::MAX
    } else {
        (current.1 + 1) as u32
    };
    (m.insert(ip, (current.0, count)), count <= limit)
}

/// The window state after `n` checks for the same client at the same time.
pub open spec fn spec_checks_n(
    m: Map<Seq<char>, (u64, u32)>,
    ip: Seq<char>,
    now: u64,
    limit: u32,
    window_ms: u64,
    n: nat,
) -> Map<Seq<char>, (u64, u32)>
    decreases n,
{
    if n == 0 {
        m
    } else {
        spec_check(spec_checks_n(m, ip, now, limit, window_ms, (n - 1) as nat), ip, now, limit, window_ms).0
    }
}

impl RateLimiter {
    pub closed spec fn wf(&self) -> bool {
        self.visitors.wf()
    }

    pub closed spec fn view(&self) -> Map<Seq<char>, (u64, u32)> {
        self.visitors@
    }

    pub closed spec fn spec_limit(&self) -> u32 {
        self.limit
    }

    pub closed spec fn spec_window_ms(&self) -> u64 {
        self.window_ms
    }

    /// A limiter admitting `limit` requests per client per window of
    /// `window_secs` seconds.
    pub fn new(limit: u32, window_secs: u64) -> (r: Self)
        requires
            window_secs <= u64::MAX / 1000,
        ensures
            r.wf(),
            r@ == Map::<Seq<char>, (u64, u32)>::empty(),
            r.spec_limit() == limit,
            r.spec_window_ms() == window_secs * 1000,
    {
        RateLimiter { visitors: StringMap::new(), limit, window_ms: window_secs * 1000 }
    }

    /// Counts one request from the client at time `now_ms` and says whether
    /// it is admitted, exactly as `spec_check` states.
    pub fn check(&mut self, ip: &str, now_ms: u64) -> (r: bool)
        requires
            old(self).wf(),
        ensures
            final(self).wf(),
            final(self).spec_limit() == old(self).spec_limit(),
            final(self).spec_window_ms() == old(self).spec_window_ms(),
            (final(self)@, r) == spec_check(
                old(self)@,
                ip@,
                now_ms,
                old(self).spec_limit(),
                old(self).spec_window_ms(),
            ),
    {
        let entry: (u64, u32) = match self.visitors.get(ip) {
            Some(e) => *e,
            None => (now_ms, 0),
        };
        let elapsed: u64 = if now_ms >= entry.0 {
            now_ms - entry.0
        } else {
            0
        };
        let current: (u64, u32) = if elapsed > self.window_ms {
            (now_ms, 0)
        } else {
            entry
        };
        let count: u32 = if current.1 == u32::MAX {
            u32::MAX
        } else {
            current.1 + 1
        };
        self.visitors.set(ip.to_owned(), (current.0, count));
        count <= self.limit
    }
}

impl Default for RateLimiter {
    /// The transport default: 300 requests per client per 60-second window.
    fn default() -> (r: Self)
        ensures
            r.wf(),
            r@ == Map::<Seq<char>, (u64, u32)>::empty(),
            r.spec_limit() == 300,
            r.spec_window_ms() == 60_000,
    {
        RateLimiter::new(300, 60)
    }
}

/// After `n` same-window checks of a fresh client, that client's counter
/// stands at `n`, in a window that began at `now`.
proof fn lemma_window_counts(
    m: Map<Seq<char>, (u64, u32)>,
    ip: Seq<char>,
    now: u64,
    limit: u32,
    window_ms: u64,
    n: u32,
)
    requires
        !m.contains_key(ip),
    ensures
        n > 0 ==> {
            let mn = spec_checks_n(m, ip, now, limit, window_ms, n as nat);
            mn.contains_key(ip) && mn[ip] == (now, n)
        },
    decreases n,
{
    if n > 0 {
        lemma_window_counts(m, ip, now, limit, window_ms, (n - 1) as u32);
        let prev = spec_checks_n(m, ip, now, limit, window_ms, (n - 1) as nat);
        let step = spec_check(prev, ip, now, limit, window_ms);
        assert(spec_checks_n(m, ip, now, limit, window_ms, n as nat) == step.0);
    }
}

/// A limiter configured for `limit` requests per window admits exactly
/// `limit` requests from a fresh client within one window: the `k`-th check
/// succeeds exactly while `k` is within the limit, so the first `limit`
/// checks are admitted and the next one is rejected.
pub proof fn lemma_fixed_window_exact(
    m: Map<Seq<char>, (u64, u32)>,
    ip: Seq<char>,
    now: u64,
    limit: u32,
    window_ms: u64,
    k: u32,
)
    requires
        !m.contains_key(ip),
        1 <= k < u32::MAX,
    ensures
        spec_check(
            spec_checks_n(m, ip, now, limit, window_ms, (k - 1) as nat),
            ip,
            now,
            limit,
            window_ms,
        ).1 == (k <= limit),
{
    lemma_window_counts(m, ip, now, limit, window_ms, (k - 1) as u32);
}

/// Once the window has elapsed, the counter starts over: a check after the
/// window admits the request again (for any limit of at least one), however
/// many checks were spent before.
pub proof fn lemma_fixed_window_resets(
    m: Map<Seq<char>, (u64, u32)>,
    ip: Seq<char>,
    now: u64,
    limit: u32,
    window_ms: u64,
    n: u32,
    later: u64,
)
    requires
        !m.contains_key(ip),
        limit >= 1,
        n >= 1,
        later > now + window_ms,
    ensures
        spec_check(
            spec_checks_n(m, ip, now, limit, window_ms, n as nat),
            ip,
            later,
            limit,
            window_ms,
        ).1,
{
    lemma_window_counts(m, ip, now, limit, window_ms, n);
}

} // verus!
