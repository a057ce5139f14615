use guise::coherence::{validate_overrides, ProfileError};
use guise::hints::{client_hint_brands_json, client_hint_full_version_list_json, client_hints_from_overrides};
use guise::persona::{
    default_timezone_for_locale, firefox_app_version, firefox_oscpu, timezone_country,
    ProfileHardware, ProfileOverrides,
};

const CHROME_UA: &str =
    "Mozilla/5.0 (Windows NT 10.0; Win64; x64) AppleWebKit/537.36 (KHTML, like Gecko) Chrome/131.0.0.0 Safari/537.36";
const FIREFOX_LINUX_UA: &str = "Mozilla/5.0 (X11; Linux x86_64; rv:150.0) Gecko/20100101 Firefox/150.0";

fn chrome_windows() -> ProfileOverrides {
    ProfileOverrides {
        user_agent: CHROME_UA.to_string(),
        platform: "Win32".to_string(),
        navigator_vendor: "Google Inc.".to_string(),
        languages: vec!["en-US".to_string(), "en".to_string()],
        brands: vec![
            ("Google Chrome".to_string(), "131".to_string()),
            ("Chromium".to_string(), "131".to_string()),
            ("Not?A_Brand".to_string(), "99".to_string()),
        ],
        mobile: false,
        hardware_concurrency: 8,
        device_memory: 8,
        screen_width: 1920,
        screen_height: 1080,
        color_depth: 24,
        webgl_vendor: "Google Inc. (Intel)".to_string(),
        webgl_renderer: "ANGLE (Intel, Intel(R) UHD Graphics 630 Direct3D11 vs_5_0 ps_5_0, D3D11)".to_string(),
        timezone: "America/New_York".to_string(),
    }
}

fn firefox_linux() -> ProfileOverrides {
    ProfileOverrides {
        user_agent: FIREFOX_LINUX_UA.to_string(),
        platform: "Linux x86_64".to_string(),
        navigator_vendor: "".to_string(),
        languages: vec!["en-US".to_string(), "en".to_string()],
        brands: vec![],
        mobile: false,
        hardware_concurrency: 8,
        device_memory: 8,
        screen_width: 1920,
        screen_height: 1080,
        color_depth: 24,
        webgl_vendor: "".to_string(),
        webgl_renderer: "".to_string(),
        timezone: "America/New_York".to_string(),
    }
}

fn incoherent_reason(ov: &ProfileOverrides) -> String {
    match validate_overrides(ov) {
        Err(ProfileError::Incoherent(m)) => m,
        other => panic!("expected Incoherent, got {other:?}"),
    }
}

#[test]
fn extracts_the_os_token_from_each_firefox_ua_family() {
    assert_eq!(
        firefox_oscpu(
            "Mozilla/5.0 (X11; Linux x86_64; rv:151.0) Gecko/20100101 Firefox/151.0",
            "Linux x86_64"
        ),
        "Linux x86_64"
    );
    assert_eq!(
        firefox_oscpu(
            "Mozilla/5.0 (Windows NT 10.0; Win64; x64; rv:151.0) Gecko/20100101 Firefox/151.0",
            "Win32"
        ),
        "Windows NT 10.0; Win64; x64"
    );
    assert_eq!(
        firefox_oscpu(
            "Mozilla/5.0 (Macintosh; Intel Mac OS X 10.15; rv:151.0) Gecko/20100101 Firefox/151.0",
            "MacIntel"
        ),
        "Intel Mac OS X 10.15"
    );
}

#[test]
fn never_returns_the_host_when_the_ua_is_malformed() {
    assert_eq!(firefox_oscpu("not a real ua", "Win32"), "Windows NT 10.0; Win64; x64");
    assert_eq!(firefox_oscpu("not a real ua", "MacIntel"), "Intel Mac OS X 10.15");
    assert_eq!(firefox_oscpu("not a real ua", "Linux x86_64"), "Linux x86_64");
    assert_eq!(firefox_oscpu("Mozilla/5.0 () Firefox", "Win32"), "Windows NT 10.0; Win64; x64");
}

#[test]
fn windows_persona_oscpu_never_leaks_linux() {
    let oscpu = firefox_oscpu(
        "Mozilla/5.0 (Windows NT 10.0; Win64; x64; rv:151.0) Gecko/20100101 Firefox/151.0",
        "Win32",
    );
    assert!(!oscpu.contains("Linux"), "windows persona oscpu leaked Linux: {oscpu}");
}

#[test]
fn firefox_app_version_follows_the_platform_family() {
    assert_eq!(firefox_app_version("Win32"), "5.0 (Windows)");
    assert_eq!(firefox_app_version("MacIntel"), "5.0 (Macintosh)");
    assert_eq!(firefox_app_version("Linux x86_64"), "5.0 (X11)");
}

#[test]
fn default_timezone_maps_known_locales() {
    assert_eq!(default_timezone_for_locale("en-US"), "America/New_York");
    assert_eq!(default_timezone_for_locale("en-GB"), "Europe/London");
    assert_eq!(default_timezone_for_locale("de-DE"), "Europe/Berlin");
    assert_eq!(default_timezone_for_locale("ja-JP"), "Asia/Tokyo");
    assert_eq!(default_timezone_for_locale("ja"), "Asia/Tokyo");
    assert_eq!(default_timezone_for_locale("fr"), "Europe/Paris");
    assert_eq!(default_timezone_for_locale("en-CA"), "America/Toronto");
}

#[test]
fn default_timezone_is_case_insensitive_and_falls_back_to_en() {
    assert_eq!(default_timezone_for_locale("EN-us"), "America/New_York");
    assert_eq!(default_timezone_for_locale("xx-YY"), "America/New_York");
    assert_eq!(default_timezone_for_locale(""), "America/New_York");
}

#[test]
fn every_derived_default_timezone_is_geo_coherent_with_its_locale() {
    let cases = [
        ("en-US", "US"),
        ("en-GB", "GB"),
        ("de-DE", "DE"),
        ("fr-FR", "FR"),
        ("es-ES", "ES"),
        ("nl-NL", "NL"),
        ("ja-JP", "JP"),
        ("zh-CN", "CN"),
        ("en-CA", "CA"),
        ("en-AU", "AU"),
        ("en-IN", "IN"),
    ];
    for (locale, expected_country) in cases {
        let tz = default_timezone_for_locale(locale);
        let country = timezone_country(tz)
            .unwrap_or_else(|| panic!("derived tz {tz} for {locale} not in geo catalogue"));
        assert_eq!(country, expected_country, "derived tz {tz} for {locale}");
    }
}

#[test]
fn unknown_timezone_has_no_country() {
    assert_eq!(timezone_country("Mars/Olympus_Mons"), None);
    assert_eq!(timezone_country("Europe/Berlin"), Some("DE"));
}

#[test]
fn chromium_client_hints_derive_full_versions_from_the_user_agent() {
    let chrome = client_hints_from_overrides(&chrome_windows()).expect("Chrome exposes Client Hints");
    assert!(chrome
        .full_version_list
        .iter()
        .any(|entry| entry.brand == "Google Chrome" && entry.version == "131.0.0.0"));
    assert!(chrome
        .full_version_list
        .iter()
        .any(|entry| entry.brand == "Not?A_Brand" && entry.version == "99.0.0.0"));
    assert_eq!(chrome.ua_full_version, "131.0.0.0");
    assert_eq!(chrome.platform, "Windows");
    assert_eq!(chrome.platform_version, "15.0.0");
    assert_eq!(chrome.architecture, "x86");
    assert_eq!(chrome.bitness, "64");
    assert!(!chrome.mobile);
}

#[test]
fn firefox_overrides_have_no_client_hints() {
    let ff = firefox_linux();
    assert!(client_hints_from_overrides(&ff).is_none());
    assert_eq!(client_hint_brands_json(&ff), "[]");
    assert_eq!(client_hint_full_version_list_json(&ff), "[]");
}

#[test]
fn brands_json_lists_each_brand_and_version() {
    let json = client_hint_brands_json(&chrome_windows());
    assert_eq!(
        json,
        r#"[{"brand":"Google Chrome","version":"131"},{"brand":"Chromium","version":"131"},{"brand":"Not?A_Brand","version":"99"}]"#
    );
    let full = client_hint_full_version_list_json(&chrome_windows());
    assert!(full.contains(r#"{"brand":"Google Chrome","version":"131.0.0.0"}"#), "{full}");
}

#[test]
fn all_grease_brands_derive_full_version_from_ua_never_empty() {
    let mut overrides = chrome_windows();
    overrides.brands = vec![
        ("Not?A_Brand".to_string(), "99".to_string()),
        ("Not:A-Brand".to_string(), "8".to_string()),
    ];
    let expected = overrides
        .user_agent
        .split("Chrome/")
        .nth(1)
        .and_then(|rest| rest.split_whitespace().next())
        .expect("canonical Chrome UA must carry a Chrome/ token")
        .to_string();
    let hints = client_hints_from_overrides(&overrides)
        .expect("an all-GREASE brand list with a Chromium UA must still resolve");
    assert!(!hints.ua_full_version.is_empty());
    assert_eq!(hints.ua_full_version, expected);
}

#[test]
fn all_grease_brands_with_non_chromium_ua_fails_closed() {
    let mut overrides = chrome_windows();
    overrides.brands = vec![("Not?A_Brand".to_string(), "99".to_string())];
    overrides.user_agent =
        "Mozilla/5.0 (Windows NT 10.0; Win64; x64; rv:131.0) Gecko/20100101 Firefox/131.0".to_string();
    assert!(client_hints_from_overrides(&overrides).is_none());
}

#[test]
fn coherent_personas_validate() {
    assert_eq!(validate_overrides(&chrome_windows()), Ok(()));
    assert_eq!(validate_overrides(&firefox_linux()), Ok(()));
}

#[test]
fn windows_ua_on_a_mac_platform_is_incoherent() {
    let mut ov = chrome_windows();
    ov.platform = "MacIntel".to_string();
    assert_eq!(incoherent_reason(&ov), "UA claims Windows but platform is MacIntel");
}

#[test]
fn chromium_ua_without_brands_is_incoherent() {
    let mut ov = chrome_windows();
    ov.brands.clear();
    assert_eq!(incoherent_reason(&ov), "Chromium UA without userAgentData brands");
}

#[test]
fn firefox_ua_with_brands_is_incoherent() {
    let mut ov = firefox_linux();
    ov.brands = vec![("Firefox".to_string(), "150".to_string())];
    assert_eq!(incoherent_reason(&ov), "Firefox UA must not ship Client Hints brands");
}

#[test]
fn brand_major_must_match_the_user_agent() {
    let mut ov = chrome_windows();
    ov.brands[0].1 = "130".to_string();
    assert_eq!(
        incoherent_reason(&ov),
        "Client Hint brand \"Google Chrome\" version 130 does not match UA major 131"
    );
    ov.brands[0].1 = "13x".to_string();
    assert_eq!(
        incoherent_reason(&ov),
        "Client Hint brand \"Google Chrome\" has non-numeric version \"13x\""
    );
}

#[test]
fn timezone_from_another_country_is_incoherent() {
    let ov = chrome_windows().with_timezone("Asia/Tokyo".to_string());
    let reason = incoherent_reason(&ov);
    assert!(reason.starts_with("timezone Asia/Tokyo (country JP)"), "{reason}");
    assert!(reason.contains("expects country US"), "{reason}");
    let err = validate_overrides(&ov).unwrap_err();
    assert!(err.message().starts_with("profile bundle is internally inconsistent: "));
}

#[test]
fn apple_gpu_on_linux_is_incoherent() {
    let mut ov = firefox_linux();
    ov.webgl_vendor = "Apple Inc.".to_string();
    ov.webgl_renderer = "Apple M1".to_string();
    assert!(incoherent_reason(&ov).starts_with("WebGL claims an Apple GPU"));
}

#[test]
fn with_hardware_copies_every_hardware_field() {
    let hw = ProfileHardware {
        hardware_concurrency: 4,
        device_memory: 16,
        screen_width: 2560,
        screen_height: 1440,
        color_depth: 30,
        webgl_vendor: "Google Inc. (NVIDIA)",
        webgl_renderer: "ANGLE (NVIDIA)",
    };
    let ov = chrome_windows().with_hardware(hw);
    assert_eq!(ov.hardware_concurrency, 4);
    assert_eq!(ov.device_memory, 16);
    assert_eq!(ov.screen_width, 2560);
    assert_eq!(ov.screen_height, 1440);
    assert_eq!(ov.color_depth, 30);
    assert_eq!(ov.webgl_vendor, "Google Inc. (NVIDIA)");
    assert_eq!(ov.webgl_renderer, "ANGLE (NVIDIA)");
    assert_eq!(ov.user_agent, CHROME_UA);
}

#[test]
fn profile_error_messages_carry_their_prefix() {
    assert_eq!(ProfileError::TomlRead("x".to_string()).message(), "failed to read profile TOML: x");
    assert_eq!(ProfileError::TomlParse("y".to_string()).message(), "failed to parse profile TOML: y");
}
