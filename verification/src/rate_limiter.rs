//! Token-bucket budgets for the outside services: the embedding API, the data
//! store, and one lazily created bucket per user. The buckets themselves are
//! the `governor` crate's; their verdicts depend on the clock, so nothing is
//! claimed of any single verdict.
use vstd::prelude::*;
use crate::stringmap::StringMap;

verus! {

/// One in-memory token bucket of the `governor` crate. Held opaquely: its
/// state advances with the real clock, so nothing inside it is modelled.
#[verifier::external_body]
pub struct Bucket {
    inner: governor::DefaultDirectRateLimiter,
}

/// Relies on governor::RateLimiter::direct with Quota::per_minute: an
/// in-memory token bucket replenishing `n` cells per minute, burst size `n`.
#[verifier::external_body]
fn bucket_per_minute(n: u32) -> Bucket
    requires
        n >= 1,
{
    Bucket {
        inner: governor::RateLimiter::direct(
            governor::Quota::per_minute(core::num::NonZeroU32::new(n).unwrap()),
        ),
    }
}

/// Relies on governor::RateLimiter::direct with Quota::per_hour: an in-memory
/// token bucket replenishing `n` cells per hour, burst size `n`.
#[verifier::external_body]
fn bucket_per_hour(n: u32) -> Bucket
    requires
        n >= 1,
{
    Bucket {
        inner: governor::RateLimiter::direct(
            governor::Quota::per_hour(core::num::NonZeroU32::new(n).unwrap()),
        ),
    }
}

/// Relies on governor::RateLimiter::check: whether the bucket admits one cell
/// right now. The verdict depends on the clock, so nothing more is claimed.
#[verifier::external_body]
fn bucket_check(l: &Bucket) -> bool {
    l.inner.check().is_ok()
}

/// The three budgets: one bucket for the embedding API, one for the data
/// store, and one per user, created on first use and kept for the process
/// lifetime.
pub struct RateLimiter {
    openai_limiter: Bucket,
    db_limiter: Bucket,
    user_limiters: StringMap<Bucket>,
}

impl RateLimiter {
    pub closed spec fn wf(&self) -> bool {
        self.user_limiters.wf()
    }

    /// Which users have a bucket already.
    pub closed spec fn spec_users(&self) -> Set<Seq<char>> {
        self.user_limiters@.dom()
    }

    /// Buckets of 60 embedding calls per minute, 1000 store queries per
    /// minute, and no users yet.
    pub fn new() -> (r: Self)
        ensures
            r.wf(),
            r.spec_users() == Set::<Seq<char>>::empty(),
    {
        let r = RateLimiter {
            openai_limiter: bucket_per_minute(60),
            db_limiter: bucket_per_minute(1000),
            user_limiters: StringMap::new(),
        };
        proof {
            assert(r.spec_users() =~= Set::<Seq<char>>::empty());
        }
        r
    }

    /// One embedding-API cell; denial carries the fixed message.
    pub fn check_openai(&self) -> (r: Result<(), String>)
        ensures
            r matches Err(m) ==> m@
                == "OpenAI rate limit exceeded (60 requests/min). Please try again later."@,
    {
        if bucket_check(&self.openai_limiter) {
            Ok(())
        } else {
            Err("OpenAI rate limit exceeded (60 requests/min). Please try again later.".to_owned())
        }
    }

    /// One data-store cell; denial carries the fixed message.
    pub fn check_database(&self) -> (r: Result<(), String>)
        ensures
            r matches Err(m) ==> m@ == "Database rate limit exceeded (1000 requests/min)."@,
    {
        if bucket_check(&self.db_limiter) {
            Ok(())
        } else {
            Err("Database rate limit exceeded (1000 requests/min).".to_owned())
        }
    }

    /// One cell from the user's bucket, creating it (100 per hour) on first
    /// use; denial carries the fixed message.
    pub fn check_user(&mut self, user_id: &str) -> (r: Result<(), String>)
        requires
            old(self).wf(),
        ensures
            final(self).wf(),
            final(self).spec_users() == old(self).spec_users().insert(user_id@),
            r matches Err(m) ==> m@
                == "User rate limit exceeded (100 requests/hour). Please try again later."@,
    {
        let present = match self.user_limiters.get(user_id) {
            Some(_) => true,
            None => false,
        };
        if !present {
            self.user_limiters.set(user_id.to_owned(), bucket_per_hour(100));
        }
        proof {
            assert(self.user_limiters@.contains_key(user_id@));
            assert(self.user_limiters@.dom() =~= old(self).user_limiters@.dom().insert(user_id@));
        }
        let admitted = match self.user_limiters.get(user_id) {
            Some(l) => bucket_check(l),
            None => false,
        };
        if admitted {
            Ok(())
        } else {
            Err("User rate limit exceeded (100 requests/hour). Please try again later.".to_owned())
        }
    }

    /// The bucket library does not expose its balance, so a fixed estimate is
    /// reported.
    pub fn openai_remaining(&self) -> (r: u32)
        ensures
            r == 60,
    {
        60
    }

    /// The bucket library does not expose its balance, so a fixed estimate is
    /// reported.
    pub fn user_remaining(&self, _user_id: &str) -> (r: u32)
        ensures
            r == 100,
    {
        100
    }
}

} // verus!
