use guise::evasion::{evasion_js_source, EvasionSurfaces};
use guise::page_js::{intl_spoof_js, profile_js, NATIVE_SEAL_PRELUDE};
use guise::persona::ProfileOverrides;

fn persona(ua: &str, platform: &str, brands: &[(&str, &str)], mobile: bool, vendor: &str, renderer: &str) -> ProfileOverrides {
    ProfileOverrides {
        user_agent: ua.to_string(),
        platform: platform.to_string(),
        navigator_vendor: if brands.is_empty() { String::new() } else { "Google Inc.".to_string() },
        languages: vec!["en-US".to_string(), "en".to_string()],
        brands: brands.iter().map(|(b, v)| (b.to_string(), v.to_string())).collect(),
        mobile,
        hardware_concurrency: 8,
        device_memory: 8,
        screen_width: 1920,
        screen_height: 1080,
        color_depth: 24,
        webgl_vendor: vendor.to_string(),
        webgl_renderer: renderer.to_string(),
        timezone: "America/New_York".to_string(),
    }
}

const CHROME_BRANDS: &[(&str, &str)] =
    &[("Google Chrome", "131"), ("Chromium", "131"), ("Not?A_Brand", "24")];

fn chrome_windows() -> ProfileOverrides {
    persona(
        "Mozilla/5.0 (Windows NT 10.0; Win64; x64) AppleWebKit/537.36 (KHTML, like Gecko) Chrome/131.0.0.0 Safari/537.36",
        "Win32",
        CHROME_BRANDS,
        false,
        "Google Inc. (Intel)",
        "ANGLE (Intel, Intel(R) UHD Graphics 630 Direct3D11 vs_5_0 ps_5_0, D3D11)",
    )
}

fn chrome_linux() -> ProfileOverrides {
    persona(
        "Mozilla/5.0 (X11; Linux x86_64) AppleWebKit/537.36 (KHTML, like Gecko) Chrome/131.0.0.0 Safari/537.36",
        "Linux x86_64",
        CHROME_BRANDS,
        false,
        "",
        "",
    )
}

fn chrome_mac() -> ProfileOverrides {
    persona(
        "Mozilla/5.0 (Macintosh; Intel Mac OS X 10_15_7) AppleWebKit/537.36 (KHTML, like Gecko) Chrome/131.0.0.0 Safari/537.36",
        "MacIntel",
        CHROME_BRANDS,
        false,
        "Google Inc. (Apple)",
        "ANGLE (Apple, ANGLE Metal Renderer: Apple M1 Pro, Unspecified Version)",
    )
}

fn chrome_android() -> ProfileOverrides {
    persona(
        "Mozilla/5.0 (Linux; Android 14; Pixel 8) AppleWebKit/537.36 (KHTML, like Gecko) Chrome/131.0.0.0 Mobile Safari/537.36",
        "Linux armv81",
        CHROME_BRANDS,
        true,
        "Qualcomm",
        "Adreno (TM) 740",
    )
}

fn firefox(os: &str, platform: &str, renderer: &str) -> ProfileOverrides {
    persona(
        &format!("Mozilla/5.0 ({os}; rv:150.0) Gecko/20100101 Firefox/150.0"),
        platform,
        &[],
        false,
        if renderer.is_empty() { "" } else { "Google Inc." },
        renderer,
    )
}

fn firefox_linux() -> ProfileOverrides {
    firefox("X11; Linux x86_64", "Linux x86_64", "")
}

fn firefox_windows() -> ProfileOverrides {
    firefox("Windows NT 10.0; Win64; x64", "Win32", "ANGLE (Intel, Intel(R) UHD Graphics Direct3D11)")
}

fn firefox_mac() -> ProfileOverrides {
    firefox("Macintosh; Intel Mac OS X 10.15", "MacIntel", "Apple M1")
}

#[test]
fn spoof_js_embeds_locale_zone_and_overrides_the_full_consistent_set() {
    let js = intl_spoof_js("de-DE", "Europe/Berlin");
    assert!(js.contains(r#""Europe/Berlin""#), "zone not embedded");
    assert!(js.contains(r#""de-DE""#), "locale not embedded");
    for needle in [
        "Date.prototype.getTimezoneOffset =",
        "Date.prototype.toString =",
        "Number.prototype.toLocaleString =",
        "String.prototype.localeCompare =",
        "Intl.DateTimeFormat = ",
        "['NumberFormat', 'Collator', 'RelativeTimeFormat', 'PluralRules', 'ListFormat']",
    ] {
        assert!(js.contains(needle), "spoof JS missing override: {needle}");
    }
    assert!(js.contains("timeZone: __TZ"), "must format via ICU for the target zone");
}

#[test]
fn spoof_js_is_embeddable_in_the_profile_iife_seal() {
    let js = intl_spoof_js("ja-JP", "Asia/Tokyo");
    assert!(js.contains("(typeof __seal === 'function') ? __seal"));
}

#[test]
fn spoof_js_quotes_its_inputs_as_json() {
    let js = intl_spoof_js("en\"US", "Etc/\\Odd");
    assert!(js.contains(r#"const __LOCALE = "en\"US";"#), "{js}");
    assert!(js.contains(r#"const __TZ = "Etc/\\Odd";"#));
}

#[test]
fn profile_script_emits_uadata_only_when_brands_present() {
    let chrome = profile_js(&chrome_windows());
    assert!(chrome.contains("userAgentData"));
    assert!(chrome.contains("brands.length > 0"));
    assert!(chrome.starts_with("\n(() => {"));
    assert!(chrome.contains(NATIVE_SEAL_PRELUDE));
    assert!(chrome.ends_with("})();\n"));
    let ff = profile_js(&firefox_linux());
    assert!(ff.contains("const brands = [];"), "Firefox has no brands");
}

#[test]
fn profile_script_high_entropy_client_hints_derive_from_the_persona() {
    let chrome = profile_js(&chrome_windows());
    assert!(chrome.contains("fullVersionList"));
    assert!(chrome.contains(r#""version":"131.0.0.0""#));
    assert!(chrome.contains("uaFullVersion: \"131.0.0.0\""));
    assert!(!chrome.contains("uaFullVersion: '130.0.0.0'"));

    let linux = profile_js(&chrome_linux());
    assert!(linux.contains("platformVersion: \"\""));
    assert!(linux.contains("platform: \"Linux\""));
}

#[test]
fn profile_script_overrides_webgl_unmasked_params_for_chromium() {
    let js = profile_js(&chrome_mac());
    assert!(js.contains("0x1F01"));
    assert!(js.contains("0x9245"));
    assert!(js.contains("0x9246"));
    assert!(js.contains("getParameter"));
    assert!(js.contains("Apple M1 Pro"));
}

#[test]
fn profile_script_for_firefox_omits_webgl_getparameter_override() {
    for ov in [firefox_windows(), firefox_mac(), firefox_linux()] {
        let js = profile_js(&ov);
        assert!(!js.contains("UNMASKED_RENDERER = 0x9246"), "{}", ov.user_agent);
    }
}

#[test]
fn profile_script_pins_touch_capability_not_window_dimensions() {
    let desktop = profile_js(&chrome_windows());
    assert!(!desktop.contains("Object.defineProperty(window, 'outerWidth'"));
    assert!(!desktop.contains("Object.defineProperty(window, 'innerWidth'"));
    assert!(!desktop.contains("Object.defineProperty(window, 'innerHeight'"));
    assert!(!desktop.contains("Object.defineProperty(window, 'screenY'"));
    assert!(desktop.contains("Object.defineProperty(Navigator.prototype, 'maxTouchPoints'"));
    assert!(desktop.contains("get: __seal(() => 0, 'get maxTouchPoints')"));

    let mobile = profile_js(&chrome_android());
    assert!(mobile.contains("get: __seal(() => 5, 'get maxTouchPoints')"));
    assert!(mobile.contains("mobile: true"));
}

#[test]
fn profile_script_emits_frozen_firefox_appversion_not_full_ua() {
    for (ov, expected) in [
        (firefox_linux(), "5.0 (X11)"),
        (firefox_windows(), "5.0 (Windows)"),
        (firefox_mac(), "5.0 (Macintosh)"),
    ] {
        let js = profile_js(&ov);
        assert!(js.contains(&format!("get: __seal(() => \"{expected}\", 'get appVersion')")), "{js}");
        assert!(!js.contains(".replace('Mozilla/', '')"));
    }
}

#[test]
fn profile_script_emits_oscpu_coherent_with_persona_os() {
    for (ov, expected) in [
        (firefox_linux(), "Linux x86_64"),
        (firefox_windows(), "Windows NT 10.0; Win64; x64"),
        (firefox_mac(), "Intel Mac OS X 10.15"),
    ] {
        let js = profile_js(&ov);
        assert!(js.contains(&format!("get: __seal(() => \"{expected}\", 'get oscpu')")), "{js}");
    }
    for ov in [firefox_windows(), firefox_mac()] {
        let js = profile_js(&ov);
        assert!(!js.contains("get: __seal(() => \"Linux x86_64\", 'get oscpu')"));
    }
}

#[test]
fn profile_script_suppresses_host_speech_voices_for_cross_os_persona() {
    let win = profile_js(&firefox_windows());
    assert!(win.contains("'getVoices'") && win.contains("return []"));
    let lin = profile_js(&firefox_linux());
    assert!(!lin.contains("'getVoices'"));
}

#[test]
fn profile_script_deletes_oscpu_and_pins_device_memory_for_chromium() {
    let js = profile_js(&chrome_windows());
    assert!(js.contains("delete Navigator.prototype.oscpu"));
    assert!(!js.contains("'get oscpu')"));
    assert!(js.contains("get: __seal(() => 8, 'get deviceMemory')"));
    let ff = profile_js(&firefox_linux());
    assert!(!ff.contains("'get deviceMemory'"), "Firefox has no navigator.deviceMemory");
}

#[test]
fn profile_script_pins_navigator_language_singular_and_timezone() {
    let ov = chrome_windows();
    let js = profile_js(&ov);
    assert!(js.contains("Object.defineProperty(Navigator.prototype, 'language'"));
    assert!(js.contains("get: __seal(() => \"en-US\", 'get language')"));
    assert!(js.contains(r#"get: __seal(() => ["en-US","en"], 'get languages')"#));
    assert!(js.contains(r#"const __TZ = "America/New_York";"#));
    assert!(js.contains(&intl_spoof_js("en-US", "America/New_York")));

    let mut none = chrome_windows();
    none.languages.clear();
    let js = profile_js(&none);
    assert!(js.contains("get: __seal(() => \"en-US\", 'get language')"), "falls back to en-US");
    assert!(js.contains("get: __seal(() => [], 'get languages')"));
}

#[derive(PartialEq)]
enum JsState {
    Normal,
    Line,
    Block,
    Str(char),
}

/// JS-aware bracket-balance check: strips `//` line comments, `/* */` block
/// comments (first `*/` closes, as a real parser does), and `'`/`"`/`` ` ``
/// strings (honouring `\` escapes), then verifies every `()[]{}` is matched.
fn js_brackets_balanced(src: &str) -> Result<(), String> {
    let b = src.as_bytes();
    let mut st = JsState::Normal;
    let mut depth: i64 = 0;
    let mut i = 0;
    let mut escape = false;
    while i < b.len() {
        let c = b[i] as char;
        let next = if i + 1 < b.len() { b[i + 1] as char } else { '\0' };
        match st {
            JsState::Normal => match c {
                '/' if next == '/' => {
                    st = JsState::Line;
                    i += 2;
                    continue;
                }
                '/' if next == '*' => {
                    st = JsState::Block;
                    i += 2;
                    continue;
                }
                '\'' | '"' | '`' => st = JsState::Str(c),
                '(' | '[' | '{' => depth += 1,
                ')' | ']' | '}' => {
                    depth -= 1;
                    if depth < 0 {
                        return Err(format!("unbalanced '{c}' at byte {i} (depth < 0)"));
                    }
                }
                _ => {}
            },
            JsState::Line => {
                if c == '\n' {
                    st = JsState::Normal;
                }
            }
            JsState::Block => {
                if c == '*' && next == '/' {
                    st = JsState::Normal;
                    i += 2;
                    continue;
                }
            }
            JsState::Str(delim) => {
                if escape {
                    escape = false;
                } else if c == '\\' {
                    escape = true;
                } else if c == delim {
                    st = JsState::Normal;
                }
            }
        }
        i += 1;
    }
    if depth != 0 {
        return Err(format!("unbalanced brackets: final depth {depth}"));
    }
    if st != JsState::Normal {
        return Err("unterminated string or comment".into());
    }
    Ok(())
}

#[test]
fn js_brackets_balanced_catches_premature_comment_close() {
    let bad = "(() => { /* screen.* (width/height/avail*/colorDepth/pixelDepth) NOT */ })()";
    assert!(js_brackets_balanced(bad).is_err(), "must catch premature */");
    let good = "(() => { /* screen.* (width/height/availWidth/colorDepth/pixelDepth) NOT */ })()";
    assert!(js_brackets_balanced(good).is_ok(), "clean comment must pass");
}

#[test]
fn profile_script_is_syntactically_balanced_for_every_persona_shape() {
    for ov in [
        chrome_windows(),
        chrome_linux(),
        chrome_mac(),
        chrome_android(),
        firefox_linux(),
        firefox_windows(),
        firefox_mac(),
    ] {
        let js = profile_js(&ov);
        js_brackets_balanced(&js).unwrap_or_else(|e| panic!("{}: {e}", ov.user_agent));
    }
    js_brackets_balanced(&intl_spoof_js("de-DE", "Europe/Berlin")).unwrap();
    let all = EvasionSurfaces {
        audio_noise: true,
        font_noise: true,
        performance_noise: true,
        hardware_concurrency: Some(8),
        device_memory: Some(8),
        webgl_override: true,
    };
    js_brackets_balanced(&evasion_js_source(42, None, &all)).unwrap();
}
