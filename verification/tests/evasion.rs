use guise::evasion::{
    audio_noise_js, device_memory_js, evasion_js_source, font_noise_js, hardware_concurrency_js,
    performance_noise_js, seed32, webgl_shape_js, EvasionSurfaces,
};
use guise::page_js::NATIVE_SEAL_PRELUDE;

fn default_surfaces() -> EvasionSurfaces {
    EvasionSurfaces {
        audio_noise: true,
        font_noise: true,
        performance_noise: false,
        hardware_concurrency: None,
        device_memory: None,
        webgl_override: true,
    }
}

fn minimal_surfaces() -> EvasionSurfaces {
    EvasionSurfaces {
        audio_noise: false,
        font_noise: false,
        performance_noise: false,
        hardware_concurrency: None,
        device_memory: None,
        webgl_override: false,
    }
}

#[test]
fn evasion_script_covers_the_configured_surfaces() {
    let js = evasion_js_source(42, None, &default_surfaces());
    for needle in [
        "measureText",
        "AudioBuffer.prototype.getChannelData",
        "AnalyserNode.prototype",
        "WebGLRenderingContext",
        "getSupportedExtensions",
    ] {
        assert!(js.contains(needle), "missing {needle}");
    }
    assert!(!js.contains("getShaderPrecisionFormat"));
    assert!(js.starts_with(NATIVE_SEAL_PRELUDE));
    assert!(js.ends_with(";\n"));
}

#[test]
fn evasion_script_skips_disabled_surfaces() {
    let js = evasion_js_source(42, Some("(function() { canvas })()".to_string()), &minimal_surfaces());
    assert!(js.contains("canvas"));
    assert!(!js.contains("getChannelData"));
    assert!(!js.contains("measureText"));
    assert!(!js.contains("WebGLRenderingContext"));
    assert_eq!(js, format!("{NATIVE_SEAL_PRELUDE}\n(function() {{ canvas }})();\n"));
}

#[test]
fn evasion_script_is_empty_when_nothing_is_enabled() {
    assert_eq!(evasion_js_source(7, None, &minimal_surfaces()), "");
}

#[test]
fn evasion_script_does_not_reimplement_identity_surfaces() {
    let js = evasion_js_source(42, None, &default_surfaces());
    for forbidden in [
        "navigator.userAgent",
        "navigator.platform",
        "navigator.languages",
        "navigator.webdriver",
        "screen.width",
        "screen.height",
    ] {
        assert!(!js.contains(forbidden), "must not reimplement {forbidden}");
    }
}

#[test]
fn evasion_script_clamps_untrusted_counts() {
    let surfaces = EvasionSurfaces {
        hardware_concurrency: Some(255),
        device_memory: Some(0),
        ..minimal_surfaces()
    };
    let js = evasion_js_source(42, None, &surfaces);
    assert!(js.contains("get: __seal(() => 64, 'get hardwareConcurrency')"));
    assert!(js.contains("get: __seal(() => 1, 'get deviceMemory')"));
    assert!(hardware_concurrency_js(8).contains("get: __seal(() => 8, 'get hardwareConcurrency')"));
    assert!(device_memory_js(16).contains("get: __seal(() => 16, 'get deviceMemory')"));
}

#[test]
fn evasion_scripts_are_joined_with_semicolons_in_order() {
    let surfaces = EvasionSurfaces { performance_noise: true, ..default_surfaces() };
    let js = evasion_js_source(9, Some("C".to_string()), &surfaces);
    let expected = format!(
        "{NATIVE_SEAL_PRELUDE}\nC;\n{};\n{};\n{};\n{};\n",
        audio_noise_js(9),
        font_noise_js(9),
        performance_noise_js(9),
        webgl_shape_js()
    );
    assert_eq!(js, expected);
}

#[test]
fn scripts_are_deterministic_for_a_seed() {
    assert_eq!(audio_noise_js(42), audio_noise_js(42));
    assert!(audio_noise_js(42).contains("const baseSeed = 42;"));
    assert!(font_noise_js(7).contains("const baseSeed = 7;"));
    assert!(performance_noise_js(3).contains("let state = 3;"));
    assert_ne!(audio_noise_js(1), audio_noise_js(2));
}

#[test]
fn session_seed_keeps_its_low_32_bits() {
    assert_eq!(seed32(42), 42);
    assert_eq!(seed32(0x1_0000_002a), 42);
    assert_eq!(seed32(u64::MAX), u32::MAX);
}
