//! The lazily refreshed reference-data cache.
//!
//! The cache wraps the implementing-country snapshot with the time it was
//! last refreshed and a time-to-live.  An entry is `Fresh` while its age is
//! within the time-to-live and `Stale` afterwards; it becomes fresh again
//! only through a successful refresh, which replaces the snapshot and the
//! refresh time as one unit.  A failed refresh is absorbed: the stale
//! snapshot is still served, and the failure is handed back as a mark the
//! caller can log, so a temporarily unreachable registry never takes the
//! compliance checks down.
//!
//! Time is a plain number from a monotonic clock owned by the caller; the
//! cache never reads a clock, and the registry fetch is a collaborator the
//! caller passes in, invoked only on the stale path.

use vstd::prelude::*;

use crate::models::{FetchError, ImplementingCountries};

verus! {

/// The cached snapshot, when it was last replaced, and its time-to-live.
pub struct ReferenceDataCache {
    data: ImplementingCountries,
    last_updated: u64,
    ttl: u64,
}

impl ReferenceDataCache {
    /// The current snapshot.
    pub closed spec fn spec_data(&self) -> ImplementingCountries {
        self.data
    }

    /// When the snapshot was last replaced.
    pub closed spec fn spec_last_updated(&self) -> u64 {
        self.last_updated
    }

    /// The configured time-to-live.
    pub closed spec fn spec_ttl(&self) -> u64 {
        self.ttl
    }

    /// The entry is fresh while no more than `ttl` time has passed since the
    /// last refresh.
    pub open spec fn spec_fresh(&self, now: u64) -> bool {
        now as int - self.spec_last_updated() as int <= self.spec_ttl() as int
    }

    /// How a completed stale-path `get` relates the fetch outcome to the new
    /// cache state, the served snapshot, and the soft-failure mark: a
    /// successful fetch installs the new data and resets the refresh time as
    /// one unit; a failed fetch changes nothing and serves the stale data,
    /// surfacing the failure only as the mark.
    pub open spec fn spec_served(
        pre: Self,
        now: u64,
        out: Result<ImplementingCountries, FetchError>,
        post: Self,
        served: Set<Seq<char>>,
        soft_failure: Option<FetchError>,
    ) -> bool {
        match out {
            Ok(d) => {
                &&& post.spec_data() == d
                &&& post.spec_last_updated() == now
                &&& post.spec_ttl() == pre.spec_ttl()
                &&& served == d@
                &&& soft_failure is None
            },
            Err(e) => {
                &&& post == pre
                &&& served == pre.spec_data()@
                &&& soft_failure == Some(e)
            },
        }
    }

    /// A cache constructed from an initial snapshot supplied by the caller,
    /// counting as refreshed at `now`.
    pub fn new(initial: ImplementingCountries, ttl: u64, now: u64) -> (r: Self)
        ensures
            r.spec_data() == initial,
            r.spec_last_updated() == now,
            r.spec_ttl() == ttl,
    {
        ReferenceDataCache { data: initial, last_updated: now, ttl }
    }

    /// Whether the entry is still fresh at `now`.
    pub fn is_fresh(&self, now: u64) -> (r: bool)
        ensures
            r == self.spec_fresh(now),
    {
        now <= self.last_updated || now - self.last_updated <= self.ttl
    }

    /// Serves the current data, refreshing first when the entry has gone
    /// stale.
    ///
    /// On a fresh entry the snapshot is served unchanged and the fetch is
    /// never invoked: `get` does not even require the fetch collaborator to
    /// be callable then, so two gets in succession without elapsed
    /// time-to-live can never trigger a second fetch.  On a stale entry the
    /// fetch runs once and its outcome is applied as [`Self::spec_served`]
    /// states.
    pub fn get<F: FnOnce() -> Result<ImplementingCountries, FetchError>>(
        &mut self,
        now: u64,
        fetch: F,
    ) -> (r: (ImplementingCountries, Option<FetchError>))
        requires
            !old(self).spec_fresh(now) ==> call_requires(fetch, ()),
        ensures
            old(self).spec_fresh(now) ==> *final(self) == *old(self) && r.0@ == old(
                self,
            ).spec_data()@ && r.1 is None,
            !old(self).spec_fresh(now) ==> exists|
                out: Result<ImplementingCountries, FetchError>,
            |
                #[trigger] call_ensures(fetch, (), out) && Self::spec_served(
                    *old(self),
                    now,
                    out,
                    *final(self),
                    r.0@,
                    r.1,
                ),
    {
        if self.is_fresh(now) {
            return (self.data.snapshot(), None);
        }
        let out = fetch();
        let ghost gout = out;
        match out {
            Ok(d) => {
                self.data = d;
                self.last_updated = now;
                let served = self.data.snapshot();
                proof {
                    assert(exists|out: Result<ImplementingCountries, FetchError>|
                        #[trigger] call_ensures(fetch, (), out) && Self::spec_served(
                            *old(self),
                            now,
                            out,
                            *self,
                            served@,
                            None,
                        ));
                }
                (served, None)
            },
            Err(e) => {
                let served = self.data.snapshot();
                proof {
                    assert(exists|out: Result<ImplementingCountries, FetchError>|
                        #[trigger] call_ensures(fetch, (), out) && Self::spec_served(
                            *old(self),
                            now,
                            out,
                            *self,
                            served@,
                            Some(e),
                        ));
                }
                (served, Some(e))
            },
        }
    }
}

/// Serving a fresh entry leaves it untouched, as [`ReferenceDataCache::get`]
/// ensures, and an untouched entry is again fresh at the same instant: the
/// second of two gets without elapsed time-to-live is also served from
/// memory, and neither call needs its fetch collaborator at all.
pub proof fn lemma_fresh_get_is_idempotent(pre: ReferenceDataCache, post: ReferenceDataCache, now: u64)
    requires
        pre.spec_fresh(now),
        post == pre,
    ensures
        post.spec_fresh(now),
        post.spec_data() == pre.spec_data(),
{
}

/// After a successful refresh at `now` the entry is fresh at `now` and holds
/// exactly the fetched data, so an immediate second `get` is served from
/// memory without another fetch.
pub proof fn lemma_refresh_restores_freshness(
    pre: ReferenceDataCache,
    now: u64,
    d: ImplementingCountries,
    post: ReferenceDataCache,
    served: Set<Seq<char>>,
    soft_failure: Option<FetchError>,
)
    requires
        ReferenceDataCache::spec_served(pre, now, Ok(d), post, served, soft_failure),
    ensures
        post.spec_fresh(now),
        post.spec_data()@ == d@,
        served == d@,
        soft_failure is None,
{
}

/// A failed refresh leaves the entry exactly as it was and serves the stale
/// snapshot, surfacing the failure only as the soft-failure mark.
pub proof fn lemma_failed_refresh_serves_stale(
    pre: ReferenceDataCache,
    now: u64,
    e: FetchError,
    post: ReferenceDataCache,
    served: Set<Seq<char>>,
    soft_failure: Option<FetchError>,
)
    requires
        ReferenceDataCache::spec_served(pre, now, Err(e), post, served, soft_failure),
    ensures
        post == pre,
        served == pre.spec_data()@,
        soft_failure == Some(e),
{
}

} // verus!
