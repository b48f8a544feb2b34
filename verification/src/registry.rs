//! Ingestion of treaty-registry records: the record types and the
//! derivation of the implementing-country set from them.
//!
//! Fetching and decoding the registry's answer is the embedding program's
//! business; it hands the decoded records in as plain values.

use vstd::prelude::*;

use crate::iso3166::spec_normalize;
use crate::models::ImplementingCountries;

verus! {

/// Accession data of one country for the relevant treaty clause: the date it
/// became a party, when it did.
#[derive(Debug, PartialEq, Eq, Hash)]
pub struct Treaty {
    pub party_date: Option<String>,
}

/// The treaty entries of one registry record, narrowed to the
/// Nagoya-Protocol clause.
#[derive(Debug, PartialEq, Eq, Hash)]
pub struct Treaties {
    pub nagoya: Treaty,
}

/// One country record of the treaty registry.
#[derive(Debug, PartialEq, Eq, Hash)]
pub struct NagoyaCountryInfo {
    pub code2: String,
    pub code3: String,
    pub treaties: Treaties,
}

/// The implementing countries carried by a batch of registry records: the
/// countries with a set accession date, identified by their alpha-3 code.
pub fn get_implementing_countries(country_info: &Vec<NagoyaCountryInfo>) -> (r:
    ImplementingCountries)
    ensures
        r.well_formed(),
        forall|s: Seq<char>|
            r@.contains(s) <==> exists|i: int|
                0 <= i < country_info@.len() && (#[trigger] country_info@[i]).treaties.nagoya.party_date
                    is Some && spec_normalize(country_info@[i].code3@) == Some(s),
{
    let mut code3_entries: Vec<String> = Vec::new();
    let n = country_info.len();
    let mut k: usize = 0;
    while k < n
        invariant
            n == country_info@.len(),
            k <= n,
            forall|j: int|
                0 <= j < code3_entries@.len() ==> exists|i: int|
                    0 <= i < k && (#[trigger] country_info@[i]).treaties.nagoya.party_date is Some
                        && (#[trigger] code3_entries@[j])@ == country_info@[i].code3@,
            forall|i: int|
                0 <= i < k ==> ((#[trigger] country_info@[i]).treaties.nagoya.party_date is Some
                    ==> exists|j: int|
                    0 <= j < code3_entries@.len() && (#[trigger] code3_entries@[j])@
                        == country_info@[i].code3@),
        decreases n - k,
    {
        let ghost prev = code3_entries@;
        let rec = &country_info[k];
        if rec.treaties.nagoya.party_date.is_some() {
            code3_entries.push(rec.code3.clone());
            proof {
                assert((#[trigger] code3_entries@[prev.len() as int])@
                    == country_info@[k as int].code3@);
            }
        }
        k += 1;
        proof {
            assert forall|j: int| 0 <= j < code3_entries@.len() implies exists|i: int|
                0 <= i < k && (#[trigger] country_info@[i]).treaties.nagoya.party_date is Some
                    && (#[trigger] code3_entries@[j])@ == country_info@[i].code3@ by {
                if j < prev.len() {
                    let i = choose|i: int|
                        0 <= i < k - 1 && (#[trigger] country_info@[i]).treaties.nagoya.party_date
                            is Some && (#[trigger] prev[j])@ == country_info@[i].code3@;
                    assert(code3_entries@[j] == prev[j]);
                    assert((#[trigger] country_info@[i]).treaties.nagoya.party_date is Some
                        && (#[trigger] code3_entries@[j])@ == country_info@[i].code3@);
                } else {
                    assert((#[trigger] country_info@[k as int - 1]).treaties.nagoya.party_date is Some
                        && (#[trigger] code3_entries@[j])@ == country_info@[k as int - 1].code3@);
                }
            }
            assert forall|i: int|
                0 <= i < k implies ((#[trigger] country_info@[i]).treaties.nagoya.party_date
                is Some ==> exists|j: int|
                0 <= j < code3_entries@.len() && (#[trigger] code3_entries@[j])@
                    == country_info@[i].code3@) by {
                if i < k - 1 && country_info@[i].treaties.nagoya.party_date is Some {
                    let j = choose|j: int|
                        0 <= j < prev.len() && (#[trigger] prev[j])@ == country_info@[i].code3@;
                    assert((#[trigger] code3_entries@[j])@ == country_info@[i].code3@);
                }
            }
        }
    }
    let r = ImplementingCountries::from_codes(&code3_entries);
    proof {
        assert forall|s: Seq<char>| r@.contains(s) implies exists|i: int|
            0 <= i < country_info@.len() && (#[trigger] country_info@[i]).treaties.nagoya.party_date
                is Some && spec_normalize(country_info@[i].code3@) == Some(s) by {
            let j = choose|j: int|
                0 <= j < code3_entries@.len() && spec_normalize(
                    #[trigger] code3_entries@[j]@,
                ) == Some(s);
            let i = choose|i: int|
                0 <= i < country_info@.len() && (#[trigger] country_info@[i]).treaties.nagoya.party_date
                    is Some && code3_entries@[j]@ == country_info@[i].code3@;
            assert((#[trigger] country_info@[i]).treaties.nagoya.party_date is Some
                && spec_normalize(country_info@[i].code3@) == Some(s));
        }
        assert forall|s: Seq<char>|
            (exists|i: int|
                0 <= i < country_info@.len() && (#[trigger] country_info@[i]).treaties.nagoya.party_date
                    is Some && spec_normalize(country_info@[i].code3@) == Some(s)) implies r@.contains(
            s,
        ) by {
            let i = choose|i: int|
                0 <= i < country_info@.len() && (#[trigger] country_info@[i]).treaties.nagoya.party_date
                    is Some && spec_normalize(country_info@[i].code3@) == Some(s);
            let j = choose|j: int|
                0 <= j < code3_entries@.len() && (#[trigger] code3_entries@[j])@
                    == country_info@[i].code3@;
            assert(spec_normalize(#[trigger] code3_entries@[j]@) == Some(s));
        }
    }
    r
}

} // verus!
