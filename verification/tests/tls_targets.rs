use guise::akamai_h2::{AkamaiH2Fingerprint, PseudoHeader};
use guise::akamai_h2::PseudoHeader::{Authority, Method, Path, Scheme};
use guise::hash::md5_string;
use guise::tls_targets::{
    all_labels, builtin_with, fingerprint_targets, ja4_counts_match_ja3, lookup,
    validate_target_fields, FingerprintTarget,
};

#[test]
fn ships_three_measured_targets() {
    assert_eq!(
        fingerprint_targets().len(),
        3,
        "built-in catalogue must contain exactly the three measured targets"
    );
}

#[test]
fn every_label_resolves_via_lookup() {
    for target in fingerprint_targets() {
        let resolved = lookup(target.label).expect("label must round-trip");
        assert_eq!(resolved, target);
    }
}

#[test]
fn lookup_returns_none_for_unknown_label() {
    assert!(lookup("internet-explorer-6").is_none());
    assert!(lookup("").is_none());
    assert!(lookup("chrome-130-win").is_none());
    assert!(lookup("CHROME-146-LINUX").is_none(), "lookup is case-sensitive");
}

#[test]
fn every_target_has_non_empty_fields() {
    for target in fingerprint_targets() {
        assert!(!target.label.is_empty(), "target label empty");
        assert!(!target.ja3.is_empty(), "{}: empty JA3", target.label);
        assert!(!target.ja4.is_empty(), "{}: empty JA4", target.label);
        assert!(!target.akamai_h2.is_empty(), "{}: empty akamai_h2", target.label);
        assert!(!target.peet_h2.is_empty(), "{}: empty peet_h2", target.label);
    }
}

#[test]
fn all_labels_lists_every_target_in_order() {
    let labels = all_labels();
    let targets = fingerprint_targets();
    assert_eq!(labels.len(), targets.len());
    for (index, target) in targets.iter().enumerate() {
        assert_eq!(labels[index], target.label);
    }
}

#[test]
fn ja3_format_starts_with_tls_version_771() {
    for target in fingerprint_targets() {
        assert!(target.ja3.starts_with("771,"), "{}: JA3 must start with 771", target.label);
    }
}

#[test]
fn ja4_format_starts_with_t13d_for_tls_13_targets() {
    for target in fingerprint_targets() {
        assert!(target.ja4.starts_with("t13d"), "{}: JA4 must start with t13d", target.label);
    }
}

#[test]
fn akamai_h2_has_pipe_separated_four_part_format() {
    for target in fingerprint_targets() {
        let parts: Vec<&str> = target.akamai_h2.split('|').collect();
        assert_eq!(parts.len(), 4, "{}: akamai_h2 must have 4 parts", target.label);
    }
}

fn expected_order(label: &str) -> Vec<PseudoHeader> {
    if label.starts_with("chrome-") {
        vec![Method, Authority, Scheme, Path]
    } else if label.starts_with("firefox-") {
        vec![Method, Path, Authority, Scheme]
    } else {
        panic!("{label}: H2-coherence gate does not know this browser family");
    }
}

#[test]
fn every_target_h2_pseudo_header_order_matches_its_browser_family() {
    for target in fingerprint_targets() {
        let parsed = AkamaiH2Fingerprint::parse(target.akamai_h2)
            .unwrap_or_else(|e| panic!("{}: failed to parse: {e:?}", target.label));
        assert_eq!(parsed.pseudo_header_order, expected_order(target.label), "{}", target.label);
    }
}

#[test]
fn every_target_h2_settings_profile_matches_its_browser_family() {
    for target in fingerprint_targets() {
        let p = AkamaiH2Fingerprint::parse(target.akamai_h2)
            .unwrap_or_else(|e| panic!("{}: akamai_h2 failed to parse: {e:?}", target.label));
        let has_max_frame = p.max_frame_size().is_some();
        let has_max_header_list = p.max_header_list_size().is_some();
        let (want_frame, want_header_list) = if target.label.starts_with("chrome-") {
            (false, true)
        } else if target.label.starts_with("firefox-") {
            (true, false)
        } else {
            panic!("{}: unknown browser family", target.label);
        };
        assert_eq!(
            (has_max_frame, has_max_header_list),
            (want_frame, want_header_list),
            "{}",
            target.label
        );
    }
}

#[test]
fn every_target_peet_h2_is_the_real_md5_of_its_akamai_h2() {
    for target in fingerprint_targets() {
        let real = md5_string(target.akamai_h2);
        assert_eq!(target.peet_h2, real, "{}: stored peet_h2 is not md5(akamai_h2)", target.label);
    }
}

#[test]
fn every_builtin_target_passes_the_shared_validator() {
    for t in fingerprint_targets() {
        validate_target_fields(t.label, t.ja3, t.ja4, t.akamai_h2, t.peet_h2)
            .unwrap_or_else(|e| panic!("built-in {} fails the loader's validator: {e}", t.label));
    }
}

#[test]
fn builtin_with_appends_extra_after_builtins() {
    let extra = [FingerprintTarget {
        label: "synthetic-extra",
        ja3: "771,4865,0,29,0",
        ja4: "t13d0101h2_aaaaaaaaaaaa_bbbbbbbbbbbb",
        akamai_h2: "1:1|2|3|m",
        peet_h2: "deadbeef",
    }];
    let merged = builtin_with(&extra);
    let builtins = fingerprint_targets();
    assert_eq!(merged.len(), builtins.len() + 1);
    assert_eq!(merged[0].label, builtins[0].label);
    assert_eq!(merged.last().unwrap().label, "synthetic-extra");
}

#[test]
fn every_builtin_target_is_ja3_ja4_count_consistent() {
    for target in fingerprint_targets() {
        ja4_counts_match_ja3(target.ja3, target.ja4)
            .unwrap_or_else(|e| panic!("{} JA3/JA4 counts disagree: {e}", target.label));
    }
}

#[test]
fn measured_firefox_150_target_is_ja3_ja4_count_consistent() {
    let ff = lookup("firefox-150-linux").expect("ff-150 must ship");
    ja4_counts_match_ja3(ff.ja3, ff.ja4)
        .unwrap_or_else(|e| panic!("firefox-150-linux JA3/JA4 counts disagree: {e}"));
}

#[test]
fn ja4_counts_match_ja3_detects_mismatched_counts() {
    let ja3 = "771,4865-4866,0-23-65281,29,0";
    let ja4_ok = "t13d0203h2_aaaaaaaaaaaa_bbbbbbbbbbbb";
    assert!(ja4_counts_match_ja3(ja3, ja4_ok).is_ok());

    let ja4_bad_cipher = "t13d0303h2_aaaaaaaaaaaa_bbbbbbbbbbbb";
    assert!(ja4_counts_match_ja3(ja3, ja4_bad_cipher).is_err());

    let ja4_bad_ext = "t13d0202h2_aaaaaaaaaaaa_bbbbbbbbbbbb";
    assert!(ja4_counts_match_ja3(ja3, ja4_bad_ext).is_err());
}

#[test]
fn ja4_counts_match_ja3_rejects_malformed_inputs() {
    assert!(ja4_counts_match_ja3("not,five,fields", "t13d0202h2_x_y").is_err());
    assert!(ja4_counts_match_ja3("771,1,2,3,0", "short").is_err());
    assert!(ja4_counts_match_ja3("771,1,2,3,0", "t13dxx02h2_x_y").is_err());
}

#[test]
fn validator_rejects_each_malformed_field() {
    let ok = "1:65536|0|0|m,p,a,s";
    assert!(validate_target_fields("", "771,x", "t13", ok, "h").is_err(), "empty label");
    assert!(validate_target_fields("l", "770,x", "t13", ok, "h").is_err(), "bad JA3 version");
    assert!(validate_target_fields("l", "771,x", "t12", ok, "h").is_err(), "non-TLS1.3 JA4");
    assert!(validate_target_fields("l", "771,x", "t13", "a|b|c", "h").is_err(), "3 sections");
    assert!(validate_target_fields("l", "771,x", "t13", "nope|0|0|m", "h").is_err(), "bad SETTINGS");
    assert!(
        validate_target_fields("l", "771,x", "t13", "1:65536|0|0|x", "h").is_err(),
        "bad pseudo-header"
    );
    assert!(validate_target_fields("l", "771,x", "t13", ok, "").is_err(), "empty peetprint");
    assert!(
        validate_target_fields("l", "771,x", "t13", ok, "deadbeefdeadbeefdeadbeefdeadbeef").is_err(),
        "non-empty peet_h2 that is not md5(akamai_h2) is fabricated"
    );
    let ok_peet = md5_string(ok);
    assert!(validate_target_fields("l", "771,x", "t13", ok, &ok_peet).is_ok());
}

#[test]
fn validator_messages_quote_the_offending_prefix() {
    let ok = "1:65536|0|0|m,p,a,s";
    assert_eq!(
        validate_target_fields("l", "770,4865-4866-4867", "t13", ok, "h").unwrap_err(),
        "JA3 must start with `771,` (got `770,4865-486…`)"
    );
    assert_eq!(
        validate_target_fields("l", "771,x", "t12d1516h2", ok, "h").unwrap_err(),
        "JA4 must start with `t13` (got `t12d1516…`)"
    );
    assert_eq!(
        validate_target_fields("l", "771,x", "t13", "a|b|c", "h").unwrap_err(),
        "Akamai-H2 invalid: Akamai H2 fingerprint must have 4 `|`-separated sections, got 3"
    );
    assert_eq!(
        validate_target_fields("l", "771,x", "t13", ok, "abc").unwrap_err(),
        format!(
            "peet_h2 must be md5(akamai_h2); for {:?} that is {}, not abc",
            ok,
            md5_string(ok)
        )
    );
}

#[test]
fn count_mismatch_messages_carry_both_counts() {
    assert_eq!(
        ja4_counts_match_ja3("771,1-2,3,4,0", "t13d0301h2_x_y").unwrap_err(),
        "JA4 cipher count 3 != JA3 cipher-list length 2 (t13d0301h2_x_y vs 771,1-2,3,4,0)"
    );
    assert_eq!(
        ja4_counts_match_ja3("a,b", "t13d0301").unwrap_err(),
        "JA3 must have 5 comma-separated fields, got 2"
    );
    assert_eq!(ja4_counts_match_ja3("771,,,,0", "t13d0000h2"), Ok(()));
}

#[test]
fn quoted_prefixes_stop_at_character_boundaries() {
    // Byte 12 of this JA3 falls inside its `é`: the quote stops before it.
    assert_eq!(
        validate_target_fields("l", "aaaaaaaaaaaé", "t13", "1:65536|0|0|m,p,a,s", "h"),
        Err("JA3 must start with `771,` (got `aaaaaaaaaaa…`)".to_string())
    );
    // Byte 8 of this JA4 falls inside its fourth `é`.
    assert_eq!(
        validate_target_fields("x", "771,1", "xééééé", "1:1|0|0|m,a,s,p", "h"),
        Err("JA4 must start with `t13` (got `xééé…`)".to_string())
    );
    assert_eq!(
        validate_target_fields("x", "éééééé", "t13", "1:1|0|0|m,a,s,p", "h"),
        Err("JA3 must start with `771,` (got `éééééé…`)".to_string())
    );
}

#[test]
fn non_ascii_count_digits_are_not_numeric() {
    // Byte 4 falls inside the `é`.
    assert_eq!(
        ja4_counts_match_ja3("771,4865-4866,0-23-65281,29,0", "t13é0203h2_x_y").unwrap_err(),
        "JA4 cipher-count digits not numeric: t13é0203h2_x_y"
    );
    // Bytes 6..8 hold the whole `é`: sliceable, but not a number.
    assert_eq!(
        ja4_counts_match_ja3("771,4865-4866,0-23-65281,29,0", "t13d02é3h2_x_y").unwrap_err(),
        "JA4 extension-count digits not numeric: t13d02é3h2_x_y"
    );
}
