use nagoya_api::cache::ReferenceDataCache;
use nagoya_api::models::{CheckError, FetchError, GeoError, ImplementingCountries};
use nagoya_api::nagoya_check::{
    is_probe_in_implementing_country, nagoya_check_cc, nagoya_check_geo, ComplianceChecker,
};

fn set_of(codes: &[&str]) -> ImplementingCountries {
    let owned: Vec<String> = codes.iter().map(|c| c.to_string()).collect();
    ImplementingCountries::from_codes(&owned)
}

fn no_fetch() -> Result<ImplementingCountries, FetchError> {
    panic!("the cache is fresh: no fetch may run");
}

#[test]
fn test_probe_in_implementing_country() {
    let data_included = set_of(&["DEU", "AUS"]);
    let data_included_single = set_of(&["DEU"]);
    let data_not_included = set_of(&["AFG"]);
    let data_empty = set_of(&[]);
    let probe = "DEU";

    assert!(is_probe_in_implementing_country(&data_included, &probe));
    assert!(is_probe_in_implementing_country(&data_included_single, &probe));
    assert!(!is_probe_in_implementing_country(&data_not_included, &probe));
    assert!(!is_probe_in_implementing_country(&data_empty, &probe));
}

#[test]
fn membership_is_exact_and_case_sensitive() {
    let data = set_of(&["DEU"]);
    assert!(is_probe_in_implementing_country(&data, "DEU"));
    assert!(!is_probe_in_implementing_country(&data, "deu"));
    assert!(!is_probe_in_implementing_country(&data, "DE"));
    assert!(!is_probe_in_implementing_country(&data, ""));
}

#[test]
fn member_code_checks_true_in_either_case() {
    let data = set_of(&["DEU", "AUS"]);
    for probe in ["AUS", "aus", "Aus", "AU", "au", "DEU", "deu", "DE", "de"] {
        let r = nagoya_check_cc(probe.to_string(), &data).unwrap();
        assert!(r.check_result, "{} should check true", probe);
    }
}

#[test]
fn valid_absent_code_checks_false() {
    let data = set_of(&["DEU", "AUS"]);
    for probe in ["AFG", "afg", "AF", "FRA", "fr"] {
        let r = nagoya_check_cc(probe.to_string(), &data).unwrap();
        assert!(!r.check_result, "{} should check false", probe);
    }
}

#[test]
fn alpha2_and_alpha3_forms_agree() {
    let data = set_of(&["DEU", "FRA"]);
    for (two, three) in [("de", "deu"), ("DE", "DEU"), ("fr", "FRA"), ("af", "AFG"), ("nz", "nzl")]
    {
        let a = nagoya_check_cc(two.to_string(), &data).unwrap();
        let b = nagoya_check_cc(three.to_string(), &data).unwrap();
        assert_eq!(a.check_result, b.check_result, "{} vs {}", two, three);
    }
}

#[test]
fn malformed_codes_are_rejected() {
    let data = set_of(&["DEU", "AUS"]);
    for probe in ["", "D", "DEUT", "GERMANY", "ZZ", "XYZ", "D1", "1234", "ä", "ääää"] {
        let r = nagoya_check_cc(probe.to_string(), &data);
        assert_eq!(r, Err(CheckError::MalformedCountryCode), "{} should be malformed", probe);
    }
}

#[test]
fn scenario_deu_aus_snapshot() {
    let data = set_of(&["DEU", "AUS"]);
    assert_eq!(nagoya_check_cc("deu".to_string(), &data).unwrap().check_result, true);
    assert_eq!(nagoya_check_cc("de".to_string(), &data).unwrap().check_result, true);
    assert_eq!(nagoya_check_cc("AFG".to_string(), &data).unwrap().check_result, false);
    assert_eq!(
        nagoya_check_cc("D".to_string(), &data),
        Err(CheckError::MalformedCountryCode)
    );
}

#[test]
fn scenario_checker_with_ttl() {
    let cache = ReferenceDataCache::new(set_of(&["DEU", "AUS"]), 10, 0);
    let mut checker = ComplianceChecker::new(cache);
    assert_eq!(checker.check_by_country_code("deu", 1, no_fetch), Ok(true));
    assert_eq!(checker.check_by_country_code("de", 2, no_fetch), Ok(true));
    assert_eq!(checker.check_by_country_code("AFG", 3, no_fetch), Ok(false));
    assert_eq!(
        checker.check_by_country_code("D", 4, no_fetch),
        Err(CheckError::MalformedCountryCode)
    );
}

#[test]
fn scenario_geocoded_country_not_in_set() {
    let data = set_of(&["DEU", "AUS"]);
    let resolved: Result<String, GeoError> = Ok("FR".to_string());
    let r = nagoya_check_geo(resolved, &data).unwrap();
    assert_eq!(r.check_result, false);

    let cache = ReferenceDataCache::new(set_of(&["DEU", "AUS"]), 10, 0);
    let mut checker = ComplianceChecker::new(cache);
    assert_eq!(
        checker.check_by_resolved_coordinates(Ok("FR".to_string()), 1, no_fetch),
        Ok(false)
    );
}

#[test]
fn scenario_ungeocodable_coordinates() {
    let data = set_of(&["DEU", "AUS"]);
    let resolved: Result<String, GeoError> = Err(GeoError {
        message: "unable to geocode".to_string(),
    });
    assert_eq!(
        nagoya_check_geo(resolved, &data),
        Err(CheckError::UnresolvableCoordinates)
    );

    let cache = ReferenceDataCache::new(set_of(&["DEU", "AUS"]), 10, 0);
    let mut checker = ComplianceChecker::new(cache);
    let resolved: Result<String, GeoError> = Err(GeoError {
        message: "unable to geocode".to_string(),
    });
    assert_eq!(
        checker.check_by_resolved_coordinates(resolved, 1, no_fetch),
        Err(CheckError::UnresolvableCoordinates)
    );
}

#[test]
fn malformed_geocoded_code_is_malformed_not_unresolvable() {
    let data = set_of(&["DEU"]);
    let resolved: Result<String, GeoError> = Ok("ZZ".to_string());
    assert_eq!(
        nagoya_check_geo(resolved, &data),
        Err(CheckError::MalformedCountryCode)
    );
}

#[test]
fn alpha2_forms_resolve_across_the_table() {
    for (two, three) in [
        ("ad", "AND"),
        ("aq", "ATA"),
        ("ax", "ALA"),
        ("br", "BRA"),
        ("ch", "CHE"),
        ("cn", "CHN"),
        ("eh", "ESH"),
        ("gb", "GBR"),
        ("gs", "SGS"),
        ("in", "IND"),
        ("jp", "JPN"),
        ("km", "COM"),
        ("ky", "CYM"),
        ("mo", "MAC"),
        ("nu", "NIU"),
        ("om", "OMN"),
        ("pm", "SPM"),
        ("qa", "QAT"),
        ("rs", "SRB"),
        ("tf", "ATF"),
        ("um", "UMI"),
        ("va", "VAT"),
        ("ws", "WSM"),
        ("yt", "MYT"),
        ("zw", "ZWE"),
    ] {
        let data = set_of(&[three]);
        let r = nagoya_check_cc(two.to_string(), &data).unwrap();
        assert!(r.check_result, "{} should resolve to {}", two, three);
    }
}
