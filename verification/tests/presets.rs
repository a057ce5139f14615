use guise::akamai_h2::AkamaiH2Fingerprint;
use guise::geo::{
    geo_region_by_name, geo_region_by_timezone, geo_region_from_fields, geo_region_presets,
    identity_geo_facts, GeoFactIncoherence, GeoRegionLoadError,
};
use guise::tier_b::{screens_check, ScreenLoadError};

fn langs(v: &[&str]) -> Vec<String> {
    v.iter().map(|s| s.to_string()).collect()
}

fn invalid_reason(r: Result<(), ScreenLoadError>) -> (usize, String) {
    match r {
        Err(ScreenLoadError::Invalid { index, reason }) => (index, reason),
        other => panic!("expected Invalid, got {other:?}"),
    }
}

#[test]
fn screens_pass_when_every_entry_is_plausible() {
    assert!(screens_check(&vec![(1920, 1080, true, 24), (390, 844, true, 30)]).is_ok());
    assert!(screens_check(&vec![]).is_ok());
}

#[test]
fn screens_fail_closed_on_the_first_bad_entry() {
    let entries = vec![(1920, 1080, true, 24), (0, 1080, false, 7), (1, 1, true, 5)];
    assert_eq!(invalid_reason(screens_check(&entries)), (2, "width must be > 0".to_string()));
    assert_eq!(
        invalid_reason(screens_check(&vec![(10, 0, true, 24)])),
        (1, "height must be > 0".to_string())
    );
    assert_eq!(
        invalid_reason(screens_check(&vec![(10, 10, false, 24)])),
        (1, "dpr must be a positive finite number".to_string())
    );
    assert_eq!(
        invalid_reason(screens_check(&vec![(10, 10, true, 12)])),
        (1, "color_depth 12 is not a realistic display depth (8/16/24/30)".to_string())
    );
}

#[test]
fn geo_region_fields_are_trimmed_and_country_uppercased() {
    let f = geo_region_from_fields(
        "  US East ",
        " America/New_York",
        "en-US ",
        &langs(&[" en-US", "en "]),
        " us ",
        true,
    )
    .unwrap();
    assert_eq!(f.name, "US East");
    assert_eq!(f.timezone, "America/New_York");
    assert_eq!(f.locale, "en-US");
    assert_eq!(f.languages, langs(&["en-US", "en"]));
    assert_eq!(f.country, "US");
}

fn reason(r: Result<guise::geo::GeoRegionFields, GeoRegionLoadError>) -> String {
    match r {
        Err(GeoRegionLoadError::Invalid { reason }) => reason,
        other => panic!("expected Invalid, got {other:?}"),
    }
}

#[test]
fn geo_region_field_checks_come_in_order() {
    let l = langs(&["en"]);
    assert_eq!(reason(geo_region_from_fields(" ", "", "", &vec![], "x", true)), "empty name");
    assert_eq!(reason(geo_region_from_fields("a", " ", "", &vec![], "x", true)), "empty timezone");
    assert_eq!(reason(geo_region_from_fields("a", "b", "", &vec![], "x", true)), "empty locale");
    assert_eq!(
        reason(geo_region_from_fields("a", "b", "c", &l, "USA", true)),
        "country `USA` is not a 2-letter ISO-3166 code"
    );
    assert_eq!(
        reason(geo_region_from_fields("a", "b", "c", &l, "u1", true)),
        "country `u1` is not a 2-letter ISO-3166 code"
    );
    assert_eq!(
        reason(geo_region_from_fields("a", "b", "c", &vec![], "us", true)),
        "languages must not be empty"
    );
}

#[test]
fn geo_region_must_be_coherent_before_use() {
    // A German locale and language on a New York timezone.
    match geo_region_from_fields("x", "America/New_York", "de-DE", &langs(&["de-DE"]), "US", true) {
        Err(GeoRegionLoadError::Incoherent { facts: Some(f), coords_within_limit: true }) => {
            assert_eq!(f.len(), 2);
            assert!(matches!(f[0], GeoFactIncoherence::LocaleCountry { .. }));
            assert!(matches!(f[1], GeoFactIncoherence::Language { .. }));
        }
        other => panic!("expected Incoherent, got {other:?}"),
    }
    // Coherent facts but coordinates out of range.
    assert!(matches!(
        geo_region_from_fields("x", "America/New_York", "en-US", &langs(&["en-US"]), "US", false),
        Err(GeoRegionLoadError::Incoherent { facts: Some(_), coords_within_limit: false })
    ));
    // An uncatalogued timezone is never read as coherent.
    assert!(matches!(
        geo_region_from_fields("x", "Mars/Olympus", "en-US", &langs(&["en-US"]), "US", true),
        Err(GeoRegionLoadError::Incoherent { facts: None, .. })
    ));
}

#[test]
fn matches_requires_identical_settings_not_only_final_values() {
    let a = AkamaiH2Fingerprint::parse("1:1;1:2|0|0|m").unwrap();
    let b = AkamaiH2Fingerprint::parse("1:2;1:2|0|0|m").unwrap();
    assert!(a.diff(&b).is_empty());
    assert!(!a.matches(&b));
    assert!(a.matches(&a.clone()));
    assert_ne!(a.to_canonical(), b.to_canonical());
}

#[test]
fn built_in_regions_cover_shipped_timezones() {
    for tz in [
        "America/New_York",
        "America/Chicago",
        "America/Los_Angeles",
        "Europe/London",
        "Europe/Berlin",
        "Asia/Tokyo",
    ] {
        assert_eq!(geo_region_by_timezone(tz).unwrap().timezone, tz);
    }
}

#[test]
fn geo_region_by_timezone_falls_back_to_area() {
    let region = geo_region_by_timezone("America/Denver").unwrap();
    assert!(region.timezone.starts_with("America/"));
    assert_eq!(region.country, "US");
    assert!(geo_region_by_timezone("Mars/Olympus").is_none());
}

#[test]
fn geo_region_by_name_ignores_ascii_case() {
    assert_eq!(geo_region_by_name("eu germany").unwrap().timezone, "Europe/Berlin");
    assert!(geo_region_by_name("Atlantis").is_none());
}

#[test]
fn every_geo_region_is_internally_coherent() {
    for r in geo_region_presets() {
        let again = geo_region_from_fields(&r.name, &r.timezone, &r.locale, &r.languages, &r.country, true)
            .unwrap();
        assert_eq!(again, r);
        assert_eq!(identity_geo_facts(&r.timezone, &r.country, &r.locale, &r.languages), Some(vec![]));
    }
}

#[test]
fn zero_width_is_rejected() {
    let err = screens_check(&vec![(0, 1080, true, 24)]).unwrap_err();
    assert!(err.message().contains("width must be > 0"), "expected zero-width error, got {}", err.message());
}

#[test]
fn zero_dpr_is_rejected() {
    // A device pixel ratio of 0.0 fails the positive-finite check.
    let dpr: f64 = 0.0;
    let err = screens_check(&vec![(1920, 1080, dpr > 0.0 && dpr.is_finite(), 24)]).unwrap_err();
    assert!(
        err.message().contains("dpr must be a positive finite number"),
        "expected zero-dpr error, got {}",
        err.message()
    );
}

#[test]
fn invalid_color_depth_is_rejected() {
    let err = screens_check(&vec![(1920, 1080, true, 42)]).unwrap_err();
    assert!(
        err.message().contains("not a realistic display depth"),
        "expected color-depth error, got {}",
        err.message()
    );
}
