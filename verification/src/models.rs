use vstd::prelude::*;

use crate::iso3166::{canonical_code, lemma_normalize_canonical, normalize_country_code,
    spec_normalize, CountryCode};

verus! {

/// Why a compliance check failed.
#[derive(Clone, Copy, Debug, PartialEq, Eq, Structural)]
pub enum CheckError {
    /// The input code has a length other than 2 or 3, or does not resolve to
    /// an assigned ISO 3166-1 entry.
    MalformedCountryCode,
    /// Reverse geocoding failed, or reported the location as ungeocodable.
    UnresolvableCoordinates,
}

/// Failure of a registry fetch, as reported by the collaborator that talks to
/// the treaty registry.
#[derive(Debug, PartialEq, Eq)]
pub struct FetchError {
    pub message: String,
}

/// Failure of the reverse-geocoding collaborator: a transport error, or the
/// upstream's own "ungeocodable" answer.
#[derive(Debug, PartialEq, Eq)]
pub struct GeoError {
    pub message: String,
}

/// Request body of a compliance check by country code.
pub struct NagoyaCheckDataCC {
    pub probe_country: String,
}

/// Outcome of a compliance check: whether the probe's resolved country is in
/// the implementing set.
#[derive(Clone, Copy, Debug, PartialEq, Eq, Structural)]
pub struct NagoyaResponse {
    pub check_result: bool,
}

/// A plain message, as returned by the health endpoint.
pub struct GenericResponse {
    pub message: String,
}

/// The country part of a reverse-geocoder answer.
pub struct NominatimAddress {
    pub country_code: String,
}

/// A reverse-geocoder answer.
pub struct NominatimResponse {
    pub address: NominatimAddress,
}

/// Process configuration, as handed in by the embedding program.
pub struct Config {
    pub nominatim_host: String,
    pub server_host: String,
    pub server_port: u16,
}

/// The long-lived service state: the implementing-country snapshot and the
/// configuration.
pub struct AppState {
    pub implementing_countries: ImplementingCountries,
    pub config: Config,
}

impl Config {
    /// The configuration part of the service state.
    pub fn from_ref(app_state: &AppState) -> (r: Config)
        ensures
            r == app_state.config,
    {
        Config {
            nominatim_host: app_state.config.nominatim_host.clone(),
            server_host: app_state.config.server_host.clone(),
            server_port: app_state.config.server_port,
        }
    }
}

/// The reference set of implementing countries: one snapshot of the
/// countries that have acceded to the relevant Nagoya-Protocol measure, held
/// as unique canonical alpha-3 codes.
pub struct ImplementingCountries {
    countries: Vec<CountryCode>,
}

impl View for ImplementingCountries {
    type V = Set<Seq<char>>;

    closed spec fn view(&self) -> Set<Seq<char>> {
        Set::new(
            |s: Seq<char>|
                exists|i: int| 0 <= i < self.countries@.len() && self.countries@[i]@ == s,
        )
    }
}

impl ImplementingCountries {
    /// Every member is a canonical ISO 3166-1 alpha-3 code.
    pub open spec fn well_formed(&self) -> bool {
        forall|s: Seq<char>| self@.contains(s) ==> canonical_code(s)
    }

    /// Builds the set from raw code strings: every entry that resolves to a
    /// canonical alpha-3 code is kept in that form, anything else is dropped,
    /// and duplicates collapse.
    pub fn from_codes(codes: &Vec<String>) -> (r: ImplementingCountries)
        ensures
            r.well_formed(),
            forall|s: Seq<char>|
                r@.contains(s) <==> exists|i: int|
                    0 <= i < codes@.len() && spec_normalize(#[trigger] codes@[i]@) == Some(s),
    {
        let mut countries: Vec<CountryCode> = Vec::new();
        let n = codes.len();
        let mut k: usize = 0;
        while k < n
            invariant
                n == codes@.len(),
                k <= n,
                forall|j: int|
                    0 <= j < countries@.len() ==> exists|i: int|
                        0 <= i < k && spec_normalize(#[trigger] codes@[i]@) == Some(
                            (#[trigger] countries@[j])@,
                        ),
                forall|i: int|
                    0 <= i < k ==> (spec_normalize(#[trigger] codes@[i]@) matches Some(s) ==>
                        exists|j: int| 0 <= j < countries@.len() && (#[trigger] countries@[j])@ == s),
            decreases n - k,
        {
            let ghost prev = countries@;
            match normalize_country_code(codes[k].as_str()) {
                Ok(cc) => {
                    if !vec_has_code(&countries, &cc) {
                        countries.push(cc);
                        proof {
                            assert((#[trigger] countries@[prev.len() as int])@ == cc@);
                        }
                    }
                },
                Err(_) => {},
            }
            proof {
                assert forall|i: int|
                    0 <= i < k + 1 implies (spec_normalize(#[trigger] codes@[i]@) matches Some(s)
                    ==> exists|j: int|
                    0 <= j < countries@.len() && (#[trigger] countries@[j])@ == s) by {
                    if i < k && spec_normalize(codes@[i]@) is Some {
                        let s = spec_normalize(codes@[i]@).unwrap();
                        let j = choose|j: int| 0 <= j < prev.len() && (#[trigger] prev[j])@ == s;
                        assert((#[trigger] countries@[j])@ == s);
                    }
                }
            }
            k += 1;
        }
        let r = ImplementingCountries { countries };
        proof {
            assert forall|s: Seq<char>| r@.contains(s) implies exists|i: int|
                0 <= i < codes@.len() && spec_normalize(#[trigger] codes@[i]@) == Some(s) by {
                let j = choose|j: int| 0 <= j < r.countries@.len() && r.countries@[j]@ == s;
            }
            assert forall|s: Seq<char>| r@.contains(s) implies canonical_code(s) by {
                let i = choose|i: int|
                    0 <= i < codes@.len() && spec_normalize(#[trigger] codes@[i]@) == Some(s);
                lemma_normalize_canonical(codes@[i]@, s);
            }
        }
        r
    }

    /// Membership of a canonical code in the snapshot.
    pub fn contains_code(&self, cc: &CountryCode) -> (r: bool)
        ensures
            r == self@.contains(cc@),
    {
        vec_has_code(&self.countries, cc)
    }

    /// Membership of a raw code string in the snapshot, by exact comparison:
    /// only the canonical form of a member matches.
    pub fn contains_str(&self, probe: &str) -> (r: bool)
        ensures
            r == self@.contains(probe@),
    {
        if probe.unicode_len() != 3 {
            proof {
                assert(!self@.contains(probe@));
            }
            false
        } else {
            let cc = CountryCode {
                c0: probe.get_char(0),
                c1: probe.get_char(1),
                c2: probe.get_char(2),
            };
            proof {
                assert(cc@ =~= probe@);
            }
            self.contains_code(&cc)
        }
    }

    /// The implementing-country part of the service state.
    pub fn from_ref(app_state: &AppState) -> (r: ImplementingCountries)
        ensures
            r@ == app_state.implementing_countries@,
            r.well_formed() == app_state.implementing_countries.well_formed(),
    {
        app_state.implementing_countries.snapshot()
    }

    /// An independent copy of the snapshot.
    pub fn snapshot(&self) -> (r: ImplementingCountries)
        ensures
            r@ == self@,
            r.well_formed() == self.well_formed(),
    {
        let mut countries: Vec<CountryCode> = Vec::new();
        let n = self.countries.len();
        let mut i: usize = 0;
        while i < n
            invariant
                n == self.countries@.len(),
                i <= n,
                countries@ =~= self.countries@.take(i as int),
            decreases n - i,
        {
            countries.push(self.countries[i]);
            i += 1;
        }
        proof {
            assert(countries@ =~= self.countries@);
        }
        let r = ImplementingCountries { countries };
        proof {
            assert(r@ =~= self@);
        }
        r
    }
}

/// Whether `v` holds a code with the same characters as `cc`.
fn vec_has_code(v: &Vec<CountryCode>, cc: &CountryCode) -> (r: bool)
    ensures
        r == exists|j: int| 0 <= j < v@.len() && (#[trigger] v@[j])@ == cc@,
{
    let n = v.len();
    let mut i: usize = 0;
    while i < n
        invariant
            n == v@.len(),
            i <= n,
            forall|j: int| 0 <= j < i ==> (#[trigger] v@[j])@ != cc@,
        decreases n - i,
    {
        let e = v[i];
        if e.c0 == cc.c0 && e.c1 == cc.c1 && e.c2 == cc.c2 {
            proof {
                assert(v@[i as int]@ =~= cc@);
            }
            return true;
        }
        proof {
            assert(v@[i as int]@ != cc@);
        }
        i += 1;
    }
    false
}

} // verus!
