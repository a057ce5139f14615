use guise::geo::{
    geo_self_probe, identity_geo_facts, timezone_languages, EgressGeoMismatch, GeoFactIncoherence,
    GeoSelfProbe, ObservedEgressGeo,
};
use guise::persona::timezone_country;
use std::collections::HashSet;

/// Every zone of the timezone reference catalogue, then one outside it.
const ZONES: [&str; 16] = [
    "America/New_York",
    "America/Chicago",
    "America/Denver",
    "America/Phoenix",
    "America/Los_Angeles",
    "Europe/London",
    "Europe/Berlin",
    "Europe/Paris",
    "Europe/Madrid",
    "Europe/Amsterdam",
    "Asia/Tokyo",
    "Asia/Shanghai",
    "Asia/Kolkata",
    "Australia/Sydney",
    "America/Toronto",
    "Africa/Lagos",
];

/// The US-East baseline persona: (timezone, country, locale, languages).
fn baseline() -> (String, String, String, Vec<String>) {
    (
        "America/New_York".to_string(),
        "US".to_string(),
        "en-US".to_string(),
        vec!["en-US".to_string(), "en".to_string()],
    )
}

fn facts(tz: &str, country: &str, locale: &str, langs: &[&str]) -> Option<Vec<GeoFactIncoherence>> {
    identity_geo_facts(tz, country, locale, &langs.iter().map(|l| l.to_string()).collect())
}

#[test]
fn timezone_facts_table_is_well_formed() {
    let mut seen = HashSet::new();
    for tz in &ZONES[..15] {
        assert!(seen.insert(*tz), "duplicate timezone key {tz}");
        assert!(tz.contains('/'), "{tz} is not an IANA Area/Location id");
        let country = timezone_country(tz).expect("catalogued zone has a country");
        assert_eq!(country.len(), 2, "{tz} country must be ISO-2");
        assert!(country.chars().all(|c| c.is_ascii_uppercase()), "{tz} country must be uppercase");
        let languages = timezone_languages(tz);
        assert!(!languages.is_empty(), "{tz} has no languages");
        for l in &languages {
            assert!(
                !l.is_empty() && l.chars().all(|c| c.is_ascii_lowercase()),
                "{tz} language {l:?} must be a lowercase subtag"
            );
        }
    }
}

#[test]
fn timezone_facts_lookup_hits_and_misses() {
    assert_eq!(timezone_country("Asia/Tokyo"), Some("JP"));
    assert_eq!(timezone_country("America/New_York"), Some("US"));
    assert!(timezone_country("Africa/Lagos").is_none());
    assert!(timezone_country("").is_none());
    assert!(timezone_languages("Africa/Lagos").is_empty());
    assert_eq!(timezone_languages("Europe/Berlin"), vec!["de", "en"]);
}

#[test]
fn baseline_persona_is_internally_geo_coherent() {
    let (tz, country, locale, langs) = baseline();
    assert_eq!(identity_geo_facts(&tz, &country, &locale, &langs), Some(vec![]));
}

#[test]
fn locale_country_mismatch_is_incoherent() {
    let problems = facts("America/New_York", "US", "de-DE", &["en-US", "en"]).unwrap();
    assert_eq!(
        problems,
        vec![GeoFactIncoherence::LocaleCountry {
            timezone_country: "US".to_string(),
            locale_region: "DE".to_string(),
        }]
    );
}

#[test]
fn primary_language_mismatch_is_incoherent() {
    let problems = facts("America/New_York", "US", "en-US", &["ja", "en"]).unwrap();
    assert_eq!(
        problems,
        vec![GeoFactIncoherence::Language {
            primary_language: "ja".to_string(),
            timezone_languages: vec!["en".to_string()],
        }]
    );
}

#[test]
fn persona_country_mismatch_is_incoherent_and_case_insensitive() {
    let problems = facts("America/New_York", "de", "en-US", &["en-US"]).unwrap();
    assert_eq!(
        problems,
        vec![GeoFactIncoherence::Country {
            timezone_country: "US".to_string(),
            persona_country: "DE".to_string(),
        }]
    );
    assert_eq!(facts("America/New_York", "us", "en-US", &["en-US"]), Some(vec![]));
}

#[test]
fn every_contradiction_is_reported_in_order() {
    let problems = facts("Asia/Tokyo", "US", "en_GB", &["EN-us"]).unwrap();
    assert_eq!(problems.len(), 3);
    assert!(matches!(problems[0], GeoFactIncoherence::Country { .. }));
    assert!(matches!(&problems[1], GeoFactIncoherence::LocaleCountry { locale_region, .. } if locale_region == "GB"));
    assert!(matches!(&problems[2], GeoFactIncoherence::Language { primary_language, .. } if primary_language == "en"));
}

#[test]
fn language_only_locale_and_odd_regions_are_not_compared() {
    assert_eq!(facts("Europe/Berlin", "", "de", &["de-DE"]), Some(vec![]));
    assert_eq!(facts("Europe/Berlin", "", "de-419", &["de"]), Some(vec![]));
    assert_eq!(facts("Europe/Berlin", "", "de-DE", &[]), Some(vec![]));
    assert_eq!(facts("Europe/Berlin", "", "zh-Hans-CN", &["en"]), Some(vec![]));
}

#[test]
fn unknown_timezone_is_loud_not_a_silent_pass() {
    assert_eq!(facts("Africa/Lagos", "NG", "en-NG", &["en"]), None);
}

#[test]
fn egress_self_probe_unmeasured_on_empty_observation() {
    let (tz, country, _, _) = baseline();
    assert_eq!(geo_self_probe(&country, &tz, &ObservedEgressGeo::default()), GeoSelfProbe::Unmeasured);
    assert!(ObservedEgressGeo::default().is_empty());
    assert!(!GeoSelfProbe::Unmeasured.is_coherent());
}

#[test]
fn egress_self_probe_coherent_when_country_matches() {
    let obs = ObservedEgressGeo { country: Some("US".to_string()), timezone: None };
    assert_eq!(geo_self_probe("US", "America/New_York", &obs), GeoSelfProbe::Coherent);
    assert!(!obs.is_empty());
}

#[test]
fn egress_self_probe_country_is_case_insensitive() {
    let obs = ObservedEgressGeo { country: Some("us".to_string()), timezone: None };
    assert_eq!(geo_self_probe("US", "America/New_York", &obs), GeoSelfProbe::Coherent);
}

#[test]
fn egress_self_probe_flags_country_mismatch() {
    let obs = ObservedEgressGeo { country: Some("DE".to_string()), timezone: None };
    match geo_self_probe("US", "America/New_York", &obs) {
        GeoSelfProbe::Incoherent(ms) => {
            assert_eq!(ms.len(), 1);
            assert_eq!(
                ms[0],
                EgressGeoMismatch::Country {
                    persona_country: "US".to_string(),
                    egress_country: "DE".to_string(),
                }
            );
        }
        other => panic!("expected Incoherent Country, got {other:?}"),
    }
}

#[test]
fn egress_self_probe_flags_timezone_mismatch() {
    let obs = ObservedEgressGeo { country: None, timezone: Some("Europe/Berlin".to_string()) };
    match geo_self_probe("US", "America/New_York", &obs) {
        GeoSelfProbe::Incoherent(ms) => assert_eq!(
            ms[0],
            EgressGeoMismatch::Timezone {
                persona_timezone: "America/New_York".to_string(),
                egress_timezone: "Europe/Berlin".to_string(),
            }
        ),
        other => panic!("expected Incoherent Timezone, got {other:?}"),
    }
}

#[test]
fn egress_self_probe_reports_both_layers_when_both_disagree() {
    let obs = ObservedEgressGeo {
        country: Some("DE".to_string()),
        timezone: Some("Europe/Berlin".to_string()),
    };
    match geo_self_probe("US", "America/New_York", &obs) {
        GeoSelfProbe::Incoherent(ms) => {
            assert_eq!(ms.len(), 2, "both country and timezone must be flagged");
            assert!(matches!(ms[0], EgressGeoMismatch::Country { .. }));
            assert!(matches!(ms[1], EgressGeoMismatch::Timezone { .. }));
        }
        other => panic!("expected Incoherent with two mismatches, got {other:?}"),
    }
}

#[test]
fn egress_self_probe_coherent_when_both_layers_agree() {
    let obs = ObservedEgressGeo {
        country: Some("US".to_string()),
        timezone: Some("America/New_York".to_string()),
    };
    assert_eq!(geo_self_probe("US", "America/New_York", &obs), GeoSelfProbe::Coherent);
    assert!(GeoSelfProbe::Coherent.is_coherent());
}

#[test]
fn egress_self_probe_unknown_persona_zone_does_not_falsely_pass_country() {
    let obs = ObservedEgressGeo { country: Some("US".to_string()), timezone: None };
    assert_eq!(geo_self_probe("", "Africa/Lagos", &obs), GeoSelfProbe::Unmeasured);
}

#[test]
fn egress_self_probe_resolves_the_country_from_the_timezone_when_absent() {
    let obs = ObservedEgressGeo { country: Some("JP".to_string()), timezone: None };
    assert_eq!(geo_self_probe("", "Asia/Tokyo", &obs), GeoSelfProbe::Coherent);
    let obs = ObservedEgressGeo { country: Some("FR".to_string()), timezone: None };
    assert!(matches!(geo_self_probe("", "Asia/Tokyo", &obs), GeoSelfProbe::Incoherent(_)));
}

#[test]
fn egress_self_probe_timezone_layer_works_without_catalogue() {
    let obs = ObservedEgressGeo { country: None, timezone: Some("America/New_York".to_string()) };
    match geo_self_probe("US", "Africa/Lagos", &obs) {
        GeoSelfProbe::Incoherent(ms) => assert_eq!(
            ms[0],
            EgressGeoMismatch::Timezone {
                persona_timezone: "Africa/Lagos".to_string(),
                egress_timezone: "America/New_York".to_string(),
            }
        ),
        other => panic!("expected Incoherent Timezone, got {other:?}"),
    }
}
