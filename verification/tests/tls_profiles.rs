use guise::ja3::{compute_ja3, compute_ja3_hash, compute_ja4, is_grease};
use guise::tls_profiles::{
    build_cipher_suites, build_extensions, build_supported_groups, client_hello_fields,
    compute_ja3_string, compute_ja4_string, named_profile, profile_for, profile_for_stealth_profile,
    profile_summary, profiles, random_grease, random_profile, StealthProfile, TlsProfile,
};
use guise::tls_targets::{fingerprint_targets, lookup};
use std::collections::{BTreeSet, HashSet};

fn named(name: &str) -> TlsProfile {
    profiles()
        .into_iter()
        .find(|p| p.name == name)
        .unwrap_or_else(|| panic!("{name} profile must ship"))
}

fn curl_profile() -> TlsProfile {
    named("curl 8 / OpenSSL 3")
}

#[test]
fn all_profiles_have_required_fields() {
    for profile in profiles() {
        assert!(!profile.name.is_empty());
        assert!(!profile.cipher_suites.is_empty());
        assert!(!profile.extensions.is_empty());
        assert!(!profile.elliptic_curves.is_empty());
        assert!(!profile.ec_point_formats.is_empty());
        assert!(!profile.alpn_protocols.is_empty());
        assert!(!profile.expected_ja3.is_empty());
        assert!(!profile.signature_algorithms.is_empty());
    }
}

#[test]
fn profiles_count() {
    assert!(profiles().len() >= 6);
}

#[test]
fn profile_for_finds_chrome() {
    assert!(profile_for("chrome").unwrap().name.contains("Chrome"));
}

#[test]
fn profile_for_finds_firefox() {
    assert!(profile_for("firefox").unwrap().name.contains("Firefox"));
}

#[test]
fn profile_for_resolves_shared_stealth_profile_aliases_first() {
    assert_eq!(profile_for("chrome-mac").unwrap().name, "Chrome 146");
    assert_eq!(profile_for("firefox-windows").unwrap().name, "Firefox 150");
    assert_eq!(profile_for("safari-iphone").unwrap().name, "Safari 18 / iOS");
    assert!(profile_for("ie11").is_none());
}

#[test]
fn profile_for_rejects_empty_browser_name() {
    assert!(profile_for("").is_none());
    assert!(profile_for(" \t\n").is_none());
}

#[test]
fn profile_for_returns_none_for_unknown() {
    assert!(profile_for("netscape").is_none());
}

#[test]
fn legacy_ie_has_no_coherent_tls_catalogue_profile() {
    assert!(profile_for_stealth_profile(StealthProfile::Ie11Windows).is_none());
}

#[test]
fn tests_random_profile_returns_valid() {
    for _ in 0..50 {
        assert!(!random_profile().unwrap().name.is_empty());
    }
}

#[test]
fn build_cipher_suites_includes_grease_for_chrome() {
    let profile = profile_for("chrome").unwrap();
    assert!(profile.include_grease);
    let suites = build_cipher_suites(&profile);
    assert_eq!(suites.len(), profile.cipher_suites.len() + 1);
    assert!(is_grease(suites[0]));
    assert_eq!(&suites[1..], profile.cipher_suites);
}

#[test]
fn build_cipher_suites_no_grease_for_firefox() {
    let profile = profile_for("firefox").unwrap();
    assert!(!profile.include_grease);
    let suites = build_cipher_suites(&profile);
    assert_eq!(suites.len(), profile.cipher_suites.len());
    assert_eq!(suites.as_slice(), profile.cipher_suites);
}

#[test]
fn build_extensions_includes_grease_at_both_edges() {
    let profile = profile_for("chrome").unwrap();
    let extensions = build_extensions(&profile);
    assert_eq!(extensions.len(), profile.extensions.len() + 2);
    assert!(is_grease(*extensions.first().unwrap()));
    assert!(is_grease(*extensions.last().unwrap()));
    assert_eq!(&extensions[1..extensions.len() - 1], profile.extensions);
}

#[test]
fn ja3_string_format_uses_five_dash_joined_sections() {
    let profile = profile_for("chrome").unwrap();
    let ja3 = compute_ja3_string(&profile);
    let sections: Vec<&str> = ja3.split(',').collect();
    assert_eq!(sections.len(), 5);
    assert!(sections[0].parse::<u16>().is_ok());
    assert!(sections[1].contains('-'));
    assert!(sections[2].contains('-'));
    assert!(sections[3].contains('-'));
}

#[test]
fn ja3_string_delegates_to_shared_ja3_renderer() {
    let profile = profile_for("chrome").unwrap();
    let fields = client_hello_fields(&profile);
    assert_eq!(compute_ja3_string(&profile), compute_ja3(&fields));
}

#[test]
fn chrome_and_firefox_have_different_cipher_order() {
    let chrome = profile_for("chrome").unwrap();
    let firefox = profile_for("firefox").unwrap();
    assert_ne!(chrome.cipher_suites[1], firefox.cipher_suites[1]);
}

#[test]
fn chrome_and_firefox_have_different_sig_algs() {
    let chrome = profile_for("chrome").unwrap();
    let firefox = profile_for("firefox").unwrap();
    assert!(firefox.signature_algorithms.contains(&0x0603));
    assert!(!chrome.signature_algorithms.contains(&0x0603));
}

#[test]
fn grease_values_are_valid() {
    for _ in 0..64 {
        let grease = random_grease();
        assert_eq!(grease & 0x0f0f, 0x0a0a);
        assert_eq!(grease >> 8, grease & 0xff);
        assert!(is_grease(grease));
    }
}

#[test]
fn expected_ja3_values_are_md5_hex() {
    for profile in profiles() {
        assert_eq!(profile.expected_ja3.len(), 32, "{}", profile.name);
        assert!(
            profile
                .expected_ja3
                .chars()
                .all(|ch| ch.is_ascii_hexdigit() && !ch.is_ascii_uppercase()),
            "{}",
            profile.name
        );
    }
}

#[test]
fn expected_ja3_equals_md5_of_computed_ja3_string() {
    for profile in profiles() {
        let computed = compute_ja3_hash(&client_hello_fields(&profile));
        assert_eq!(
            profile.expected_ja3, computed,
            "{}: expected_ja3 is not md5 of its own computed JA3 string",
            profile.name
        );
    }
}

#[test]
fn profile_summary_readable() {
    for profile in profiles() {
        let summary = profile_summary(&profile);
        assert!(summary.contains(profile.name));
        assert!(summary.contains("ciphers"));
        assert!(summary.contains("ALPN"));
    }
}

#[test]
fn alpn_offers_match_each_client_family() {
    let http11_only: &[&str] = &["Python requests / urllib3 (OpenSSL 3.0.13)"];
    for profile in profiles() {
        assert!(profile.alpn_protocols.contains(&"http/1.1"), "{} must offer http/1.1", profile.name);
        if http11_only.contains(&profile.name) {
            assert!(!profile.alpn_protocols.contains(&"h2"), "{} must NOT advertise h2", profile.name);
        } else {
            assert!(profile.alpn_protocols.contains(&"h2"), "{} must offer h2", profile.name);
        }
    }
}

#[test]
fn all_profiles_include_sni_extension() {
    for profile in profiles() {
        assert!(profile.extensions.contains(&0x0000), "{} missing SNI extension", profile.name);
    }
}

#[test]
fn all_profiles_include_alpn_extension() {
    for profile in profiles() {
        assert!(profile.extensions.contains(&0x0010), "{} missing ALPN extension", profile.name);
    }
}

#[test]
fn build_supported_groups_includes_grease_for_chrome() {
    let profile = profile_for("chrome").unwrap();
    assert!(profile.include_grease);
    let groups = build_supported_groups(&profile);
    assert_eq!(groups.len(), profile.elliptic_curves.len() + 1);
    assert!(is_grease(groups[0]));
}

#[test]
fn build_supported_groups_no_grease_for_firefox() {
    let profile = profile_for("firefox").unwrap();
    assert!(!profile.include_grease);
    let groups = build_supported_groups(&profile);
    assert_eq!(groups.len(), profile.elliptic_curves.len());
    for group in &groups {
        assert!(!is_grease(*group));
    }
}

#[test]
fn build_supported_groups_preserves_order() {
    let profile = profile_for("chrome").unwrap();
    let groups = build_supported_groups(&profile);
    let start = if profile.include_grease { 1 } else { 0 };
    assert_eq!(&groups[start..], profile.elliptic_curves);
}

#[test]
fn every_profile_advertises_tls13_in_supported_versions() {
    for profile in profiles() {
        assert_eq!(profile.tls_version, 0x0303, "{}", profile.name);
        assert!(profile.supported_versions.contains(&0x0304), "{} must offer TLS 1.3", profile.name);
    }
}

#[test]
fn every_profile_ja4_reports_tls13_not_the_legacy_field() {
    for profile in profiles() {
        let ja4 = compute_ja4_string(&profile);
        assert!(ja4.starts_with("t13d"), "{} JA4 must start with t13d, got {ja4}", profile.name);
    }
}

#[test]
fn computed_profile_ja4_matches_the_published_target_catalogue() {
    assert_eq!(
        compute_ja4_string(&named("Chrome 146")),
        lookup("chrome-146-linux").unwrap().ja4,
        "CHROME_146 profile JA4 drifted from the published chrome-146 target"
    );
    assert_eq!(
        compute_ja4_string(&named("Firefox 150")),
        lookup("firefox-150-linux").unwrap().ja4,
        "FIREFOX_150 profile JA4 drifted from the published firefox-150 target"
    );
}

#[test]
fn anti_uniqueness_set_rejects_a_distinctive_ja4() {
    let populated: HashSet<&str> = fingerprint_targets().iter().map(|t| t.ja4).collect();
    assert!(!populated.contains("t13d9999h2_deadbeefcafe_0123456789ab"));
}

#[test]
fn safari_18_profile_reproduces_the_measured_wire_fingerprint() {
    let safari = named("Safari 18 / macOS");
    assert_eq!(
        compute_ja3_hash(&client_hello_fields(&safari)),
        "773906b0efdefa24a7f2b8eb6985bf37",
        "SAFARI_18 JA3 must reproduce the measured Safari-18 wire JA3 hash",
    );
    let ja4 = compute_ja4_string(&safari);
    assert_eq!(ja4, "t13d2014h2_a09f3c656075_2a6581477f52");
    assert!(ja4.starts_with("t13d2014h2_a09f3c656075_"));
}

#[test]
fn safari_ios_18_profile_reproduces_the_measured_wire_fingerprint() {
    let ios = named("Safari 18 / iOS");
    let mac = named("Safari 18 / macOS");
    assert_eq!(compute_ja3_hash(&client_hello_fields(&ios)), "773906b0efdefa24a7f2b8eb6985bf37");
    assert_eq!(compute_ja4_string(&ios), "t13d2014h2_a09f3c656075_2a6581477f52");
    assert_eq!(ios.cipher_suites, mac.cipher_suites);
    assert_eq!(ios.extensions, mac.extensions);
    assert_eq!(ios.elliptic_curves, mac.elliptic_curves);
    assert_eq!(ios.signature_algorithms, mac.signature_algorithms);
    assert_eq!(ios.include_grease, mac.include_grease);
    assert_eq!(ios.name, "Safari 18 / iOS");
    assert_ne!(ios.name, mac.name);
}

#[test]
fn ja4_string_delegates_to_shared_ja4_renderer() {
    let profile = profile_for("chrome").unwrap();
    let fields = client_hello_fields(&profile);
    assert_eq!(compute_ja4_string(&profile), compute_ja4(&fields));
}

#[test]
fn browser_profiles_advertise_h2_then_http11_alpn() {
    for name in ["chrome", "firefox", "safari"] {
        let profile = profile_for(name).unwrap_or_else(|| panic!("{name} profile must ship"));
        assert_eq!(profile.alpn_protocols, &["h2", "http/1.1"], "{name} ALPN must be h2 then http/1.1");
    }
}

#[test]
fn firefox_linux_profile_is_the_measured_ff150_modal_wire_shape() {
    let ff = profile_for_stealth_profile(StealthProfile::FirefoxLinux)
        .expect("FirefoxLinux must map to a TLS profile");
    assert_eq!(ff.name, "Firefox 150");
    let fields = client_hello_fields(&ff);
    assert_eq!(compute_ja3_hash(&fields), "0e76c7e9d06fa0e211b1827687dd8f43");
    assert_eq!(compute_ja4_string(&ff), "t13d1717h2_5b57614c22b0_e6dcd7ae0a9e");
}

#[test]
fn both_desktop_firefox_personas_share_the_os_independent_ff150_tls() {
    let linux = profile_for_stealth_profile(StealthProfile::FirefoxLinux).unwrap();
    let windows = profile_for_stealth_profile(StealthProfile::FirefoxWindows).unwrap();
    assert_eq!(windows.name, "Firefox 150");
    assert_eq!(
        compute_ja3_hash(&client_hello_fields(&linux)),
        compute_ja3_hash(&client_hello_fields(&windows))
    );
    assert_eq!(compute_ja4_string(&linux), compute_ja4_string(&windows));
}

#[test]
fn firefox_151_is_the_measured_current_stable_shape() {
    let ff151 = named("Firefox 151");
    let ff150 = named("Firefox 150");
    assert_eq!(compute_ja3_hash(&client_hello_fields(&ff151)), "f19d54c853fffdd9eeab77ae607448e9");
    assert_eq!(compute_ja4_string(&ff151), "t13d1617h2_86a278354501_e6dcd7ae0a9e");
    assert_eq!(ff151.cipher_suites.len(), 16);
    assert_eq!(ff150.cipher_suites.len(), 17);
    assert!(!ff151.cipher_suites.contains(&0xc009));
    let ff150_minus_c009: Vec<u16> =
        ff150.cipher_suites.iter().copied().filter(|c| *c != 0xc009).collect();
    assert_eq!(ff151.cipher_suites, ff150_minus_c009.as_slice());
    assert_eq!(ff151.extensions, ff150.extensions);
    assert_eq!(ff151.elliptic_curves, ff150.elliptic_curves);
    let c151 = compute_ja4_string(&ff151);
    let c150 = compute_ja4_string(&ff150);
    assert_eq!(&c151[c151.rfind('_').unwrap()..], &c150[c150.rfind('_').unwrap()..]);
}

#[test]
fn chrome_146_profile_reproduces_the_measured_stable_ja4() {
    let chrome = named("Chrome 146");
    assert_eq!(compute_ja4_string(&chrome), "t13d1517h2_8daaf6152771_b6f405a00624");
    assert_eq!(compute_ja3_hash(&client_hello_fields(&chrome)), "9c713794cc9790422a2bc435e7038fbf");
    assert_eq!(chrome.cipher_suites.len(), 15);
    assert_eq!(chrome.extensions.len(), 17);
    for ext in [0xfe0du16, 0x44cd, 0x0029] {
        assert!(chrome.extensions.contains(&ext), "Chrome 146 must advertise {ext:#06x}");
    }
    assert_eq!(chrome.elliptic_curves.first(), Some(&0x11ecu16));
    assert!(chrome.include_grease, "Chrome sends GREASE");
    assert_eq!(profile_for("chrome").unwrap().name, "Chrome 146");
}

#[test]
fn curl_8_openssl_is_the_measured_wire_shape() {
    let curl = curl_profile();
    let measured_ja3 = "771,4866-4867-4865-49196-49200-159-52393-52392-52394-49195-49199-158-49188-49192-107-49187-49191-103-49162-49172-57-49161-49171-51-157-156-61-60-53-47-255,0-11-10-16-22-23-49-13-43-45-51-21,29-23-30-25-24-256-257-258-259-260,0-1-2";
    assert_eq!(compute_ja3_string(&curl), measured_ja3);
    assert_eq!(compute_ja3_hash(&client_hello_fields(&curl)), "0149f47eabf9a20d0893e2a44e5a6323");
    assert_eq!(curl.cipher_suites.len(), 31);
    assert_eq!(curl.extensions.len(), 12);
    assert_eq!(curl.elliptic_curves.len(), 10);
    assert!(curl.extensions.contains(&0x0015), "curl sends RFC-7685 padding");
    assert_eq!(curl.ec_point_formats, &[0x00, 0x01, 0x02]);
}

#[test]
fn curl_ja4_follows_the_published_spec_padding_rule() {
    let curl = curl_profile();
    let spec_ja4 = compute_ja4_string(&curl);
    assert_eq!(spec_ja4, "t13d3112h2_e8f1e7e78f70_b26ce05bbdd6");
    let peet_ja4 = "t13d3112h2_e8f1e7e78f70_375ca2c5e164";
    assert_ne!(spec_ja4, peet_ja4);
    let spec_head = &spec_ja4[..spec_ja4.rfind('_').unwrap()];
    let peet_head = &peet_ja4[..peet_ja4.rfind('_').unwrap()];
    assert_eq!(spec_head, peet_head);
}

#[test]
fn python_requests_shares_curl_openssl3_ja3_but_differs_in_alpn_ja4() {
    let curl = curl_profile();
    let py = profiles()
        .into_iter()
        .find(|p| p.name.starts_with("Python requests"))
        .expect("python requests profile must ship");
    assert_eq!(compute_ja3_string(&py), compute_ja3_string(&curl));
    assert_eq!(compute_ja3_hash(&client_hello_fields(&py)), "0149f47eabf9a20d0893e2a44e5a6323");
    assert_eq!(py.cipher_suites, curl.cipher_suites);
    assert_eq!(py.extensions, curl.extensions);
    assert_eq!(py.signature_algorithms, curl.signature_algorithms);
    assert_eq!(py.elliptic_curves, curl.elliptic_curves);
    assert_eq!(py.alpn_protocols, &["http/1.1"]);
    assert!(curl.alpn_protocols.contains(&"h2"));
    let pj = compute_ja4_string(&py);
    let cj = compute_ja4_string(&curl);
    assert!(pj.starts_with("t13d3112h1_"), "python JA4 must carry h1: {pj}");
    assert!(cj.starts_with("t13d3112h2_"), "curl JA4 must carry h2: {cj}");
    assert_eq!(&pj[pj.find('_').unwrap()..], &cj[cj.find('_').unwrap()..]);
}

#[test]
fn firefox_extension_order_is_ff_authentic_and_unlike_chrome() {
    let ff = profile_for_stealth_profile(StealthProfile::FirefoxLinux).unwrap();
    let golden: &[u16] = &[
        0x0000, 0x0017, 0xff01, 0x000a, 0x000b, 0x0010, 0x0005, 0x0022, 0x0012, 0x0033, 0x002b,
        0x000d, 0x002d, 0x001c, 0x001b, 0xfe0d, 0x0029,
    ];
    assert_eq!(ff.extensions, golden);
    let chrome = profile_for("chrome").unwrap();
    assert_ne!(ff.extensions, chrome.extensions);
}

#[test]
fn firefox_150_carries_the_modern_tls_extensions_without_grease() {
    let ff = profile_for_stealth_profile(StealthProfile::FirefoxLinux).unwrap();
    for (ext, label) in [
        (0x0022u16, "delegated_credentials"),
        (0x001c, "record_size_limit"),
        (0x001b, "compress_certificate"),
        (0xfe0d, "encrypted_client_hello"),
        (0x0029, "pre_shared_key"),
    ] {
        assert!(ff.extensions.contains(&ext), "FF-150 must advertise {label} ({ext:#06x})");
    }
    for &ext in ff.extensions {
        assert!(!is_grease(ext), "Firefox must carry no GREASE extension, found {ext:#06x}");
    }
    assert!(!ff.include_grease);
}

#[test]
fn firefox_150_offers_the_post_quantum_hybrid_group_first() {
    let ff = profile_for_stealth_profile(StealthProfile::FirefoxLinux).unwrap();
    assert_eq!(ff.elliptic_curves.first(), Some(&0x11ec));
}

#[test]
fn chrome_grease_is_randomized_not_a_fixed_constant() {
    let chrome = profile_for("chrome").unwrap();
    assert!(chrome.include_grease);
    let mut seen = BTreeSet::new();
    for _ in 0..64 {
        let g = build_cipher_suites(&chrome)[0];
        assert!(is_grease(g), "slot 0 must be GREASE, got {g:#06x}");
        seen.insert(g);
    }
    assert!(seen.len() > 1, "GREASE must be randomized across handshakes, not pinned to {seen:?}");
}

#[test]
fn named_profile_aliases_resolve_to_personas() {
    assert_eq!(named_profile("chrome-windows"), Some(StealthProfile::ChromeWindowsStable));
    assert_eq!(named_profile("chrome-mac"), Some(StealthProfile::ChromeMacStable));
    assert_eq!(named_profile("firefox-linux"), Some(StealthProfile::FirefoxLinux));
    assert_eq!(named_profile("ie11"), Some(StealthProfile::Ie11Windows));
    assert_eq!(named_profile("netscape"), None);
}

#[test]
fn profile_for_is_case_and_whitespace_insensitive() {
    assert_eq!(profile_for("  CHROME ").unwrap().name, "Chrome 146");
    assert_eq!(profile_for("Safari").unwrap().name, profile_for("safari").unwrap().name);
}

#[test]
fn every_profile_builds_fields_whose_ja3_is_its_own_checksum() {
    for profile in profiles() {
        let fields = client_hello_fields(&profile);
        assert_eq!(compute_ja3(&fields), compute_ja3_string(&profile));
        assert_eq!(compute_ja4(&fields), compute_ja4_string(&profile));
    }
}
