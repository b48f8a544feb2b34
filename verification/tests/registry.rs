use nagoya_api::models::{Config, ImplementingCountries, AppState};
use nagoya_api::registry::{get_implementing_countries, NagoyaCountryInfo, Treaties, Treaty};

fn record(code2: &str, code3: &str, party_date: Option<&str>) -> NagoyaCountryInfo {
    NagoyaCountryInfo {
        code2: code2.to_string(),
        code3: code3.to_string(),
        treaties: Treaties {
            nagoya: Treaty { party_date: party_date.map(|d| d.to_string()) },
        },
    }
}

#[test]
fn only_parties_become_implementing_countries() {
    let records = vec![
        record("DE", "DEU", Some("2016-07-20")),
        record("FR", "FRA", None),
        record("AU", "AUS", Some("2012-10-12")),
        record("AF", "AFG", None),
    ];
    let set = get_implementing_countries(&records);
    assert!(set.contains_str("DEU"));
    assert!(set.contains_str("AUS"));
    assert!(!set.contains_str("FRA"));
    assert!(!set.contains_str("AFG"));
}

#[test]
fn unknown_codes_are_dropped_and_case_is_canonicalized() {
    let records = vec![
        record("AD", "and", Some("2015-05-05")),
        record("??", "QQQ", Some("2015-05-05")),
        record("??", "TOOLONG", Some("2015-05-05")),
    ];
    let set = get_implementing_countries(&records);
    assert!(set.contains_str("AND"));
    assert!(!set.contains_str("and"));
    assert!(!set.contains_str("QQQ"));
    assert!(!set.contains_str("TOOLONG"));
}

#[test]
fn duplicate_records_collapse() {
    let records = vec![
        record("DE", "DEU", Some("2016-07-20")),
        record("DE", "deu", Some("2016-07-20")),
    ];
    let set = get_implementing_countries(&records);
    assert!(set.contains_str("DEU"));
}

#[test]
fn from_codes_keeps_only_canonical_codes() {
    let codes = vec![
        "deu".to_string(),
        "au".to_string(),
        "ZZ".to_string(),
        "XYZ".to_string(),
        "".to_string(),
    ];
    let set = ImplementingCountries::from_codes(&codes);
    assert!(set.contains_str("DEU"));
    assert!(set.contains_str("AUS"));
    assert!(!set.contains_str("ZZ"));
    assert!(!set.contains_str("XYZ"));
    assert!(!set.contains_str(""));
}

#[test]
fn state_parts_are_recovered_by_from_ref() {
    let state = AppState {
        implementing_countries: ImplementingCountries::from_codes(&vec!["DEU".to_string()]),
        config: Config {
            nominatim_host: "http://localhost:8080".to_string(),
            server_host: "127.0.0.1".to_string(),
            server_port: 3125,
        },
    };
    let countries = ImplementingCountries::from_ref(&state);
    assert!(countries.contains_str("DEU"));
    let config = Config::from_ref(&state);
    assert_eq!(config.nominatim_host, "http://localhost:8080");
    assert_eq!(config.server_host, "127.0.0.1");
    assert_eq!(config.server_port, 3125);
}
