use guise::chrome_tls::{chrome_fingerprints, expected_fingerprint};
use guise::hash::md5_string;

#[test]
fn catalogue_covers_multiple_chrome_majors() {
    let mut majors: Vec<u32> = chrome_fingerprints()
        .iter()
        .map(|fingerprint| fingerprint.major_version)
        .collect();
    majors.sort_unstable();
    majors.dedup();
    assert!(
        majors.len() >= 5,
        "fingerprint table covers {} majors, expected >=5",
        majors.len()
    );
}

#[test]
fn catalogue_covers_desktop_and_mobile_platforms() {
    let mut platforms: Vec<&str> = chrome_fingerprints()
        .iter()
        .map(|fingerprint| fingerprint.platform)
        .collect();
    platforms.sort_unstable();
    platforms.dedup();
    for platform in ["Linux", "macOS", "Windows", "Android"] {
        assert!(platforms.contains(&platform), "missing platform: {platform}");
    }
}

#[test]
fn ja3_hashes_are_md5_length() {
    for fingerprint in chrome_fingerprints() {
        assert_eq!(
            fingerprint.ja3_hash.len(),
            32,
            "{}: ja3_hash must be 32 chars",
            fingerprint.name
        );
    }
}

#[test]
fn expected_fingerprint_finds_exact_match() {
    let fingerprint = expected_fingerprint(134, "Linux").expect("must find Chrome 134/Linux");
    assert_eq!(fingerprint.major_version, 134);
    assert_eq!(fingerprint.platform, "Linux");
}

#[test]
fn expected_fingerprint_falls_back_to_highest_same_platform() {
    let fingerprint =
        expected_fingerprint(9999, "Linux").expect("must fall back to a Linux entry");
    assert_eq!(fingerprint.platform, "Linux");
    assert!(fingerprint.major_version >= 130);
}

#[test]
fn expected_fingerprint_falls_back_to_first_entry_for_unknown_platform() {
    assert_eq!(
        expected_fingerprint(134, "FreeBSD"),
        chrome_fingerprints().first().copied()
    );
}

#[test]
fn ja3_strings_have_five_segments() {
    for fingerprint in chrome_fingerprints() {
        let segments: Vec<&str> = fingerprint.ja3.split(',').collect();
        assert_eq!(
            segments.len(),
            5,
            "{} ja3 string has wrong segment count: {}",
            fingerprint.name,
            fingerprint.ja3
        );
    }
}

#[test]
fn ja4_strings_are_tls13_grade() {
    for fingerprint in chrome_fingerprints() {
        assert!(
            fingerprint.ja4.starts_with("t13d"),
            "{} ja4 does not look like TLS 1.3: {}",
            fingerprint.name,
            fingerprint.ja4
        );
    }
}

#[test]
fn h2_fingerprints_have_four_segments() {
    for fingerprint in chrome_fingerprints() {
        let segments: Vec<&str> = fingerprint.h2_fingerprint.split('|').collect();
        assert_eq!(
            segments.len(),
            4,
            "{} h2 fingerprint has wrong segment count: {}",
            fingerprint.name,
            fingerprint.h2_fingerprint
        );
    }
}

#[test]
fn every_snapshot_ja3_hash_is_the_real_md5_of_its_ja3_string() {
    for fingerprint in chrome_fingerprints() {
        let real = md5_string(fingerprint.ja3);
        assert_eq!(
            fingerprint.ja3_hash, real,
            "{}: stored ja3_hash {} is not md5(ja3); real md5 is {}",
            fingerprint.name, fingerprint.ja3_hash, real
        );
    }
}

#[test]
fn ja3_string_and_hash_are_distinct_across_extension_variants() {
    let all = chrome_fingerprints();
    let with_17513 = all
        .iter()
        .find(|f| f.ja3.contains("-17513-"))
        .expect("a 17513-bearing Chrome snapshot ships");
    let without_17513 = all
        .iter()
        .find(|f| !f.ja3.contains("-17513-"))
        .expect("a non-17513 Chrome snapshot ships");
    assert_ne!(with_17513.ja3, without_17513.ja3);
    assert_ne!(with_17513.ja3_hash, without_17513.ja3_hash);
}

#[test]
fn expected_fingerprint_resolution_order() {
    // Exact match on another platform.
    let mac = expected_fingerprint(134, "macOS").unwrap();
    assert_eq!(mac.name, "Chrome 134 / macOS");
    // Unknown major on Linux: the highest Linux major.
    assert_eq!(expected_fingerprint(1, "Linux").unwrap().name, "Chrome 146 / Linux");
    // Unknown major on Android: the only Android entry.
    assert_eq!(
        expected_fingerprint(120, "Android").unwrap().name,
        "Chrome 134 / Android"
    );
    // Platform match is case-sensitive: falls back to the first entry.
    assert_eq!(
        expected_fingerprint(134, "linux").unwrap().name,
        "Chrome 146 / Linux"
    );
}
