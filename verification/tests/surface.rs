use guise::surface::{by_category, must_cover, surfaces, Criticality, SurfaceCategory};
use std::collections::HashSet;

#[test]
fn inventory_is_substantial_and_unique() {
    let all = surfaces();
    assert!(all.len() >= 90, "inventory shrank: {}", all.len());
    let mut seen = HashSet::new();
    for s in &all {
        assert!(seen.insert(s.surface), "duplicate surface: {}", s.surface);
    }
}

#[test]
fn every_category_is_represented() {
    for cat in [
        SurfaceCategory::Navigator,
        SurfaceCategory::DevicePrompt,
        SurfaceCategory::WebGl,
        SurfaceCategory::Canvas,
        SurfaceCategory::Audio,
        SurfaceCategory::WebRtc,
        SurfaceCategory::Screen,
        SurfaceCategory::Timezone,
        SurfaceCategory::Lifecycle,
        SurfaceCategory::Storage,
        SurfaceCategory::CryptoAuth,
        SurfaceCategory::Sensor,
        SurfaceCategory::Notification,
        SurfaceCategory::Speech,
        SurfaceCategory::Font,
        SurfaceCategory::Timing,
        SurfaceCategory::Media,
    ] {
        assert!(!by_category(cat).is_empty(), "no surfaces for {cat:?}");
    }
}

#[test]
fn webdriver_is_the_one_critical_tell() {
    let critical: Vec<_> = surfaces()
        .iter()
        .filter(|s| s.criticality == Criticality::Critical)
        .map(|s| s.surface)
        .collect();
    assert_eq!(critical, vec!["navigator.webdriver"]);
}

#[test]
fn must_cover_is_a_meaningful_subset() {
    let n = must_cover().len();
    assert!(n >= 20 && n < surfaces().len(), "must_cover sized wrong: {n}");
}

#[test]
fn by_category_keeps_exactly_that_category_in_order() {
    let all = surfaces();
    let fonts = by_category(SurfaceCategory::Font);
    let expected: Vec<_> = all.iter().filter(|s| s.category == SurfaceCategory::Font).copied().collect();
    assert_eq!(fonts, expected);
    assert!(fonts.iter().all(|s| s.category == SurfaceCategory::Font));
}

#[test]
fn must_cover_is_the_critical_and_high_surfaces() {
    let cover = must_cover();
    assert!(cover
        .iter()
        .all(|s| matches!(s.criticality, Criticality::Critical | Criticality::High)));
    assert!(cover.iter().any(|s| s.surface == "navigator.webdriver"));
    let count = surfaces()
        .iter()
        .filter(|s| matches!(s.criticality, Criticality::Critical | Criticality::High))
        .count();
    assert_eq!(cover.len(), count);
}
