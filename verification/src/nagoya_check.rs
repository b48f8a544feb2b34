//! The compliance decisions: a probe's country code, or a reverse-geocoded
//! country code, is normalized and tested against the implementing set.

use vstd::prelude::*;

use crate::cache::ReferenceDataCache;
use crate::iso3166::{canonical_code, iso_table_spec, lemma_find_alpha2_has_alpha3,
    normalize_country_code, spec_find_alpha2, spec_normalize, spec_upper};
use crate::models::{CheckError, FetchError, GeoError, ImplementingCountries, NagoyaResponse};

verus! {

/// What a compliance check of `code` against the snapshot `s` answers:
/// `Ok(true)` iff the code resolves to a canonical alpha-3 member of `s`,
/// `Ok(false)` for a resolvable non-member, and `MalformedCountryCode` for
/// anything that does not resolve.
pub open spec fn spec_check(code: Seq<char>, s: Set<Seq<char>>) -> Result<bool, CheckError> {
    match spec_normalize(code) {
        Some(a3) => Ok(s.contains(a3)),
        None => Err(CheckError::MalformedCountryCode),
    }
}

/// Whether the probe country's code is a member of the implementing set, by
/// exact comparison against the stored canonical codes.
pub fn is_probe_in_implementing_country(
    implementing_countries: &ImplementingCountries,
    probe_country: &str,
) -> (r: bool)
    ensures
        r == implementing_countries@.contains(probe_country@),
{
    implementing_countries.contains_str(probe_country)
}

/// A compliance check by raw country code against one snapshot of the
/// implementing set.
pub fn nagoya_check_cc(
    probe_country: String,
    implementing_countries: &ImplementingCountries,
) -> (r: Result<NagoyaResponse, CheckError>)
    ensures
        (match spec_check(probe_country@, implementing_countries@) {
            Ok(b) => r == Ok::<NagoyaResponse, CheckError>((NagoyaResponse { check_result: b })),
            Err(e) => r == Err::<NagoyaResponse, CheckError>(e),
        }),
{
    match normalize_country_code(probe_country.as_str()) {
        Ok(cc) => Ok(
            NagoyaResponse { check_result: implementing_countries.contains_code(&cc) },
        ),
        Err(e) => Err(e),
    }
}

/// A compliance check from the reverse geocoder's answer: a failed
/// resolution is reported as `UnresolvableCoordinates`, a resolved code is
/// deferred to the code path.
pub fn nagoya_check_geo(
    resolved: Result<String, GeoError>,
    implementing_countries: &ImplementingCountries,
) -> (r: Result<NagoyaResponse, CheckError>)
    ensures
        (match resolved {
            Ok(code) => (match spec_check(code@, implementing_countries@) {
                Ok(b) => r == Ok::<NagoyaResponse, CheckError>(
                    (NagoyaResponse { check_result: b }),
                ),
                Err(e) => r == Err::<NagoyaResponse, CheckError>(e),
            }),
            Err(_) => r == Err::<NagoyaResponse, CheckError>(CheckError::UnresolvableCoordinates),
        }),
{
    match resolved {
        Ok(code) => nagoya_check_cc(code, implementing_countries),
        Err(_) => Err(CheckError::UnresolvableCoordinates),
    }
}

/// The compliance checker: the cache of the implementing set, consulted by
/// every check.
pub struct ComplianceChecker {
    cache: ReferenceDataCache,
}

impl ComplianceChecker {
    /// The cache the checker consults.
    pub closed spec fn spec_cache(&self) -> ReferenceDataCache {
        self.cache
    }

    /// A checker over the given cache.
    pub fn new(cache: ReferenceDataCache) -> (r: Self)
        ensures
            r.spec_cache() == cache,
    {
        ComplianceChecker { cache }
    }

    /// A compliance check by country code against the current reference
    /// data, refreshing the cache first when it has gone stale.
    ///
    /// A malformed code is rejected before anything else happens: the cache
    /// is left untouched and no fetch runs.  Otherwise the snapshot is
    /// obtained as [`ReferenceDataCache::get`] states and membership of the
    /// normalized code in it is answered.
    pub fn check_by_country_code<F: FnOnce() -> Result<ImplementingCountries, FetchError>>(
        &mut self,
        code: &str,
        now: u64,
        fetch: F,
    ) -> (r: Result<bool, CheckError>)
        requires
            spec_normalize(code@) is Some && !old(self).spec_cache().spec_fresh(now)
                ==> call_requires(fetch, ()),
        ensures
            spec_normalize(code@) is None ==> r == Err::<bool, CheckError>(
                CheckError::MalformedCountryCode,
            ) && *final(self) == *old(self),
            spec_normalize(code@) is Some && old(self).spec_cache().spec_fresh(now)
                ==> *final(self) == *old(self) && r == spec_check(code@, old(self).spec_cache().spec_data()@),
            spec_normalize(code@) is Some && !old(self).spec_cache().spec_fresh(now) ==> exists|
                out: Result<ImplementingCountries, FetchError>,
                served: Set<Seq<char>>,
                mark: Option<FetchError>,
            |
                call_ensures(fetch, (), out) && #[trigger] ReferenceDataCache::spec_served(
                    old(self).spec_cache(),
                    now,
                    out,
                    final(self).spec_cache(),
                    served,
                    mark,
                ) && r == spec_check(code@, served),
    {
        let cc = match normalize_country_code(code) {
            Ok(cc) => cc,
            Err(e) => {
                return Err(e);
            },
        };
        let (snapshot, soft_failure) = self.cache.get(now, fetch);
        let member = snapshot.contains_code(&cc);
        proof {
            if !old(self).spec_cache().spec_fresh(now) {
                let out0 = choose|out: Result<ImplementingCountries, FetchError>|
                    #[trigger] call_ensures(fetch, (), out) && ReferenceDataCache::spec_served(
                        old(self).spec_cache(),
                        now,
                        out,
                        self.cache,
                        snapshot@,
                        soft_failure,
                    );
                assert(call_ensures(fetch, (), out0) && ReferenceDataCache::spec_served(
                    old(self).spec_cache(),
                    now,
                    out0,
                    self.spec_cache(),
                    snapshot@,
                    soft_failure,
                ) && Ok::<bool, CheckError>(member) == spec_check(code@, snapshot@));
            }
        }
        Ok(member)
    }

    /// A compliance check from the reverse geocoder's answer, deferring a
    /// resolved code to the code path: a failed resolution is reported as
    /// `UnresolvableCoordinates` without touching the cache.
    pub fn check_by_resolved_coordinates<
        F: FnOnce() -> Result<ImplementingCountries, FetchError>,
    >(
        &mut self,
        resolved: Result<String, GeoError>,
        now: u64,
        fetch: F,
    ) -> (r: Result<bool, CheckError>)
        requires
            resolved matches Ok(code) ==> ((spec_normalize(code@) is Some
                && !old(self).spec_cache().spec_fresh(now)) ==> call_requires(fetch, ())),
        ensures
            resolved is Err ==> r == Err::<bool, CheckError>(CheckError::UnresolvableCoordinates)
                && *final(self) == *old(self),
            resolved matches Ok(code) ==> (spec_normalize(code@) is None ==> r == Err::<
                bool,
                CheckError,
            >(CheckError::MalformedCountryCode) && *final(self) == *old(self)),
            resolved matches Ok(code) ==> ((spec_normalize(code@) is Some
                && old(self).spec_cache().spec_fresh(now)) ==> *final(self) == *old(self)
                && r == spec_check(code@, old(self).spec_cache().spec_data()@)),
            resolved matches Ok(code) ==> ((spec_normalize(code@) is Some
                && !old(self).spec_cache().spec_fresh(now)) ==> exists|
                out: Result<ImplementingCountries, FetchError>,
                served: Set<Seq<char>>,
                mark: Option<FetchError>,
            |
                call_ensures(fetch, (), out) && #[trigger] ReferenceDataCache::spec_served(
                    old(self).spec_cache(),
                    now,
                    out,
                    final(self).spec_cache(),
                    served,
                    mark,
                ) && r == spec_check(code@, served)),
    {
        match resolved {
            Ok(code) => self.check_by_country_code(code.as_str(), now, fetch),
            Err(_) => Err(CheckError::UnresolvableCoordinates),
        }
    }
}

/// Law: a code whose uppercased form is a member of a canonical
/// implementing set checks as a member, in whatever case it is written.
pub proof fn lemma_member_code_checks_true(s: Set<Seq<char>>, code: Seq<char>)
    requires
        forall|m: Seq<char>| s.contains(m) ==> canonical_code(m),
        code.len() == 3,
        s.contains(spec_upper(code)),
    ensures
        spec_check(code, s) == Ok::<bool, CheckError>(true),
{
    assert(spec_upper(code).len() == 3);
    assert(canonical_code(spec_upper(code)));
}

/// Law: a code that resolves to a canonical alpha-3 code absent from the
/// snapshot checks as a non-member; absence is an answer, not an error.
pub proof fn lemma_absent_code_checks_false(s: Set<Seq<char>>, code: Seq<char>, a3: Seq<char>)
    requires
        spec_normalize(code) == Some(a3),
        !s.contains(a3),
    ensures
        spec_check(code, s) == Ok::<bool, CheckError>(false),
{
}

/// Law: the alpha-2 and the alpha-3 form of one country receive identical
/// answers against any snapshot, whatever the case of either input.
pub proof fn lemma_alpha2_alpha3_agree(s: Set<Seq<char>>, code2: Seq<char>, code3: Seq<char>)
    requires
        code2.len() == 2,
        code3.len() == 3,
        spec_find_alpha2(iso_table_spec(), spec_upper(code2)[0], spec_upper(code2)[1]) matches Some(
            e,
        ) && spec_upper(code3) == seq![e.a3.0, e.a3.1, e.a3.2],
    ensures
        spec_check(code2, s) == spec_check(code3, s),
{
    let e = spec_find_alpha2(iso_table_spec(), spec_upper(code2)[0], spec_upper(code2)[1]).unwrap();
    lemma_find_alpha2_has_alpha3(iso_table_spec(), spec_upper(code2)[0], spec_upper(code2)[1]);
    assert(spec_upper(code3)[0] == e.a3.0 && spec_upper(code3)[1] == e.a3.1 && spec_upper(code3)[2]
        == e.a3.2);
    assert(spec_normalize(code2) == Some(spec_upper(code3)));
    assert(spec_normalize(code3) == Some(spec_upper(code3)));
}

/// Law: an input whose length is neither 2 nor 3 is rejected as malformed
/// against any snapshot.
pub proof fn lemma_bad_length_rejected(s: Set<Seq<char>>, code: Seq<char>)
    requires
        code.len() != 2,
        code.len() != 3,
    ensures
        spec_check(code, s) == Err::<bool, CheckError>(CheckError::MalformedCountryCode),
{
}

} // verus!
