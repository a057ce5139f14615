use guise::cluster::{classify_against, ObservedFingerprint};
use guise::tier_b::{
    audio_devices_from_entries, built_in_matches_file, fonts_from_entries, linux_standard_fonts, targets_from_entries,
    valid_kind, voices_from_entries, webgl_gpu_vendor_family, webgl_gpus_from_entries,
    within_size_cap, AudioDeviceLoadError, AudioDevicePersona, FontLoadError, ScreenLoadError,
    TargetLoadError, TcpStackLoadError, VoiceLoadError, WebGlGpuFamily, WebGlGpuLoadError,
    MAX_TIER_B_TOML_BYTES,
};
use guise::tls_targets::{builtin_with, lookup};

fn pair(a: &str, b: &str) -> (String, String) {
    (a.to_string(), b.to_string())
}

fn target_entry(label: &str, ja3: &str, ja4: &str, akamai: &str, peet: &str) -> (String, String, String, String, String) {
    (label.to_string(), ja3.to_string(), ja4.to_string(), akamai.to_string(), peet.to_string())
}

#[test]
fn device_kind_helpers_work() {
    let input = AudioDevicePersona { kind: "audioinput", label: "Mic" };
    assert!(input.is_input());
    assert!(!input.is_output());

    let output = AudioDevicePersona { kind: "audiooutput", label: "Speakers" };
    assert!(!output.is_input());
    assert!(output.is_output());
}

#[test]
fn apple_gpu_family_is_apple_platform_only() {
    assert!(WebGlGpuFamily::Apple.coherent_with_platform("MacIntel"));
    assert!(WebGlGpuFamily::Apple.coherent_with_platform("iPhone"));
    assert!(WebGlGpuFamily::Apple.coherent_with_platform("iPad"));
    assert!(!WebGlGpuFamily::Apple.coherent_with_platform("Win32"));
    assert!(!WebGlGpuFamily::Apple.coherent_with_platform("Linux x86_64"));
}

#[test]
fn non_apple_gpu_families_are_non_apple_platform_only() {
    for family in [
        WebGlGpuFamily::Intel,
        WebGlGpuFamily::Nvidia,
        WebGlGpuFamily::Amd,
        WebGlGpuFamily::Qualcomm,
        WebGlGpuFamily::Mesa,
        WebGlGpuFamily::Brave,
        WebGlGpuFamily::Microsoft,
    ] {
        assert!(family.coherent_with_platform("Win32"), "{family:?} must be coherent on Windows");
        assert!(!family.coherent_with_platform("MacIntel"), "{family:?} must be incoherent on macOS");
        assert!(!family.coherent_with_platform("iPhone"), "{family:?} must be incoherent on iOS");
    }
}

#[test]
fn vendor_family_classification_matches_renderer_content() {
    assert_eq!(webgl_gpu_vendor_family("Google Inc. (Apple)"), WebGlGpuFamily::Apple);
    assert_eq!(webgl_gpu_vendor_family("Google Inc. (NVIDIA)"), WebGlGpuFamily::Nvidia);
    assert_eq!(webgl_gpu_vendor_family("Unknown Vendor"), WebGlGpuFamily::Other);
}

#[test]
fn vendor_family_follows_the_priority_order() {
    assert_eq!(webgl_gpu_vendor_family("Google Inc. (Intel)"), WebGlGpuFamily::Intel);
    assert_eq!(webgl_gpu_vendor_family("ATI Radeon"), WebGlGpuFamily::Amd);
    assert_eq!(webgl_gpu_vendor_family("Qualcomm"), WebGlGpuFamily::Qualcomm);
    assert_eq!(webgl_gpu_vendor_family("Mesa"), WebGlGpuFamily::Mesa);
    assert_eq!(webgl_gpu_vendor_family("Brave"), WebGlGpuFamily::Brave);
    assert_eq!(webgl_gpu_vendor_family("Microsoft"), WebGlGpuFamily::Microsoft);
    // "intel" is tested before "nvidia".
    assert_eq!(webgl_gpu_vendor_family("intel nvidia"), WebGlGpuFamily::Intel);
}

#[test]
fn well_formed_gpu_entries_load_trimmed() {
    let gpus = webgl_gpus_from_entries(&vec![
        pair("  Google Inc. (NVIDIA) ", "ANGLE (NVIDIA GeForce)"),
        pair("Apple Inc.", "Apple M1"),
    ])
    .expect("well-formed entries must load");
    assert_eq!(gpus.len(), 2);
    assert_eq!(gpus[0].vendor, "Google Inc. (NVIDIA)");
    assert_eq!(gpus[1].renderer, "Apple M1");
}

#[test]
fn malformed_empty_vendor_is_rejected() {
    let err = webgl_gpus_from_entries(&vec![pair("", "ANGLE")]).expect_err("empty vendor");
    assert!(err.message().contains("empty vendor"), "got {}", err.message());
    assert_eq!(err.message(), "tier-b webgl-gpu: entry #1 invalid: empty vendor");
}

#[test]
fn malformed_empty_renderer_is_rejected() {
    let err = webgl_gpus_from_entries(&vec![pair("Intel", "ok"), pair("NVIDIA", "  ")])
        .expect_err("empty renderer");
    match &err {
        WebGlGpuLoadError::Invalid { index, reason } => {
            assert_eq!(*index, 2);
            assert_eq!(reason, "empty renderer");
        }
        other => panic!("expected Invalid, got {other:?}"),
    }
}

#[test]
fn unknown_gpu_vendor_family_is_rejected_fail_closed() {
    let err = webgl_gpus_from_entries(&vec![pair("Acme Custom GPU", "Acme Render 3000")])
        .expect_err("unknown vendor family must be rejected");
    assert_eq!(
        err.message(),
        "tier-b webgl-gpu: entry #1 invalid: unknown GPU vendor family for vendor \"Acme Custom GPU\""
    );
}

#[test]
fn oversized_error_message_names_the_cap() {
    let err = WebGlGpuLoadError::TooLarge { path: "huge.toml".to_string(), bytes: 66587 };
    assert!(err.message().contains("over the 65536-byte cap"));
    assert_eq!(err.message(), "tier-b webgl-gpu: huge.toml is 66587 bytes, over the 65536-byte cap");
    assert_eq!(MAX_TIER_B_TOML_BYTES, 65536);
    let read = WebGlGpuLoadError::Read("gone".to_string());
    assert_eq!(read.message(), "tier-b webgl-gpu: read failed: gone");
    let parse = WebGlGpuLoadError::Parse("bad".to_string());
    assert_eq!(parse.message(), "tier-b webgl-gpu: TOML parse failed: bad");
}

#[test]
fn audio_entries_validate_kind_and_label() {
    assert!(valid_kind("audioinput"));
    assert!(valid_kind("audiooutput"));
    assert!(!valid_kind("videoinput"));
    let ok = audio_devices_from_entries(&vec![pair(" audioinput ", " Mic ")]).unwrap();
    assert_eq!(ok[0].kind, "audioinput");
    assert_eq!(ok[0].label, "Mic");
    let bad = audio_devices_from_entries(&vec![pair("videoinput", "Cam")]).unwrap_err();
    assert_eq!(
        bad.message(),
        "tier-b audio-devices: entry #1 invalid: kind `videoinput` is not audioinput/audiooutput"
    );
    let empty = audio_devices_from_entries(&vec![pair("audioinput", "x"), pair("audiooutput", "")])
        .unwrap_err();
    assert_eq!(empty.message(), "tier-b audio-devices: entry #2 invalid: empty label");
}

#[test]
fn fonts_reject_the_first_empty_family() {
    let ok = fonts_from_entries(&vec!["DejaVu Sans".to_string(), " Noto Sans ".to_string()]).unwrap();
    assert_eq!(ok[1].family, "Noto Sans");
    let err = fonts_from_entries(&vec!["A".to_string(), "".to_string(), "".to_string()]).unwrap_err();
    match &err {
        FontLoadError::Invalid { index, reason } => {
            assert_eq!(*index, 2);
            assert_eq!(reason, "empty family");
        }
        other => panic!("expected Invalid, got {other:?}"),
    }
    assert!(err.message().contains("empty family"));
}

#[test]
fn linux_standard_font_set_has_its_members() {
    let fonts = linux_standard_fonts();
    assert!(fonts.contains(&"DejaVu Sans"));
    assert!(fonts.contains(&"Droid Sans Fallback"));
    assert_eq!(fonts.len(), 15);
}

#[test]
fn voices_validate_name_and_lang() {
    let ok = voices_from_entries(&vec![("Alex".to_string(), "en-US".to_string(), true)]).unwrap();
    assert_eq!(ok[0].name, "Alex");
    assert!(ok[0].default);
    let empty_name = voices_from_entries(&vec![(" ".to_string(), "en-US".to_string(), false)]).unwrap_err();
    assert_eq!(empty_name.message(), "tier-b voices: entry #1 invalid: empty name");
    let bad_lang = voices_from_entries(&vec![("V".to_string(), "e".to_string(), false)]).unwrap_err();
    match &bad_lang {
        VoiceLoadError::Invalid { reason, .. } => {
            assert_eq!(reason, "lang `e` is not a plausible BCP 47 tag")
        }
        other => panic!("expected Invalid, got {other:?}"),
    }
}

#[test]
fn loaded_target_extends_the_cluster_catalogue() {
    let ff = lookup("firefox-150-linux").unwrap();
    let extra = targets_from_entries(&vec![target_entry(
        "firefox-150-linux-example",
        ff.ja3,
        ff.ja4,
        ff.akamai_h2,
        ff.peet_h2,
    )])
    .expect("a well-formed distinct target loads");
    assert_eq!(extra.len(), 1);
    assert_eq!(extra[0].label, "firefox-150-linux-example");
    let catalogue = builtin_with(&extra);
    let observed = ObservedFingerprint {
        ja4: Some(extra[0].ja4.to_string()),
        akamai_h2: Some(extra[0].akamai_h2.to_string()),
        ..Default::default()
    };
    let labels = classify_against(&observed, &catalogue).cluster_labels();
    assert!(labels.contains(&"firefox-150-linux-example"), "got {labels:?}");
    assert!(labels.contains(&"firefox-150-linux"), "got {labels:?}");
}

#[test]
fn malformed_target_fails_closed_not_skipped() {
    match targets_from_entries(&vec![target_entry("bad", "999,x", "t13d", "a|b|c|d", "h")]) {
        Err(TargetLoadError::Invalid { label, .. }) => assert_eq!(label, "bad"),
        other => panic!("expected Invalid, got {other:?}"),
    }
}

#[test]
fn duplicate_of_builtin_label_is_rejected() {
    match targets_from_entries(&vec![target_entry(
        "firefox-150-linux",
        "771,1",
        "t13d1",
        "1:65536|0|0|m,p,a,s",
        "c1bb6169cdbf746126ff369c72f0d5b8",
    )]) {
        Err(TargetLoadError::DuplicateLabel(label)) => assert_eq!(label, "firefox-150-linux"),
        other => panic!("expected DuplicateLabel, got {other:?}"),
    }
}

#[test]
fn duplicate_within_one_file_is_rejected() {
    let ff = lookup("firefox-150-linux").unwrap();
    let e = target_entry("mine", ff.ja3, ff.ja4, ff.akamai_h2, ff.peet_h2);
    match targets_from_entries(&vec![e.clone(), e]) {
        Err(err @ TargetLoadError::DuplicateLabel(_)) => assert_eq!(
            err.message(),
            "tier-b targets: duplicate label `mine` (already loaded or built-in)"
        ),
        other => panic!("expected DuplicateLabel, got {other:?}"),
    }
}

#[test]
fn empty_entry_list_loads_zero_targets() {
    assert!(targets_from_entries(&vec![]).unwrap().is_empty());
}

/// The families of the Linux standard Tier-B font file, in file order.
fn linux_standard_file_families() -> Vec<String> {
    [
        "DejaVu Sans", "DejaVu Serif", "DejaVu Sans Mono", "Liberation Sans", "Liberation Serif",
        "Liberation Mono", "Noto Sans", "Noto Serif", "Noto Mono", "Noto Color Emoji", "FreeSans",
        "FreeSerif", "FreeMono", "Cantarell", "Droid Sans Fallback",
    ]
    .iter()
    .map(|f| f.to_string())
    .collect()
}

#[test]
fn built_in_font_set_matches_tier_b_file() {
    let loaded = fonts_from_entries(&linux_standard_file_families()).expect("file must load");
    built_in_matches_file(&loaded).expect("built-in const must match Tier-B file");
}

#[test]
fn drifted_font_file_is_reported_with_both_lists() {
    let loaded = fonts_from_entries(&vec!["A".to_string(), "B b".to_string()]).unwrap();
    let err = built_in_matches_file(&loaded).unwrap_err();
    assert!(
        err.starts_with("Tier-B file and LINUX_STANDARD_FONTS drifted:\nfile: [\"A\", \"B b\"]\nconst: [\"DejaVu Sans\", "),
        "{err}"
    );
    assert!(err.ends_with("\"Droid Sans Fallback\"]"), "{err}");
    let mut reordered = linux_standard_file_families();
    reordered.swap(0, 1);
    assert!(built_in_matches_file(&fonts_from_entries(&reordered).unwrap()).is_err());
}

#[test]
fn every_library_error_names_its_library_and_cause() {
    let big = || ("x.toml".to_string(), 70000u64);
    let (p, b) = big();
    assert_eq!(
        AudioDeviceLoadError::TooLarge { path: p, bytes: b }.message(),
        "tier-b audio-devices: x.toml is 70000 bytes, over the 65536-byte cap"
    );
    assert_eq!(FontLoadError::Read("gone".to_string()).message(), "tier-b fonts: read failed: gone");
    assert_eq!(
        VoiceLoadError::Parse("bad".to_string()).message(),
        "tier-b voices: TOML parse failed: bad"
    );
    assert_eq!(
        ScreenLoadError::Invalid { index: 3, reason: "width must be > 0".to_string() }.message(),
        "tier-b screen: entry #3 invalid: width must be > 0"
    );
    assert_eq!(
        TcpStackLoadError::Invalid { label: "win".to_string(), reason: "r".to_string() }.message(),
        "tier-b tcp-stacks: stack `win` invalid: r"
    );
    assert_eq!(
        TcpStackLoadError::DuplicateLabel("win".to_string()).message(),
        "tier-b tcp-stacks: duplicate label `win`"
    );
    let (p, b) = big();
    assert_eq!(
        TargetLoadError::TooLarge { path: p, bytes: b }.message(),
        "tier-b targets: x.toml is 70000 bytes, over the 65536-byte cap"
    );
    assert_eq!(
        TargetLoadError::Invalid { label: "t".to_string(), reason: "empty peetprint".to_string() }.message(),
        "tier-b targets: target `t` invalid: empty peetprint"
    );
}

#[test]
fn size_cap_admits_exactly_64_kib() {
    assert!(within_size_cap(0));
    assert!(within_size_cap(65536));
    assert!(!within_size_cap(65537));
}
