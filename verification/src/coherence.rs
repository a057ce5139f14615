//! The persona coherence gate: a materialised persona whose surfaces
//! contradict each other (a Windows UA on a macOS platform, an Apple GPU on
//! Linux, a Chromium UA without Client Hints, a timezone from another
//! country than the language) is refused before it reaches a WAF.
use vstd::prelude::*;
use crate::persona::{
    default_timezone_for_locale, default_timezone_spec, timezone_country, timezone_country_spec,
    OverridesView, ProfileOverrides,
};
use crate::text::{
    after_first, after_first_exec, all_ascii_digits, all_ascii_digits_exec, before_first,
    before_first_exec, chars_of, contains, contains_str, debug_str, push_all, push_str, starts_with,
    starts_with_str, str_debug, str_eq, string_from_chars, vchars,
};

verus! {

/// Errors loading or validating profile bundles.
#[derive(Debug, Clone, PartialEq, Eq)]
pub enum ProfileError {
    /// The bundle's surfaces contradict each other.
    Incoherent(String),
    /// Reading a profile TOML file failed.
    TomlRead(String),
    /// Parsing or validating a profile TOML file failed.
    TomlParse(String),
}

impl ProfileError {
    /// Human-readable description of the error.
    pub fn message(&self) -> (s: String)
        ensures
            s@ == match self {
                ProfileError::Incoherent(m) => "profile bundle is internally inconsistent: "@ + m@,
                ProfileError::TomlRead(m) => "failed to read profile TOML: "@ + m@,
                ProfileError::TomlParse(m) => "failed to parse profile TOML: "@ + m@,
            },
    {
        let mut out: Vec<char> = Vec::new();
        match self {
            ProfileError::Incoherent(m) => {
                push_str(&mut out, "profile bundle is internally inconsistent: ");
                push_str(&mut out, m.as_str());
            },
            ProfileError::TomlRead(m) => {
                push_str(&mut out, "failed to read profile TOML: ");
                push_str(&mut out, m.as_str());
            },
            ProfileError::TomlParse(m) => {
                push_str(&mut out, "failed to parse profile TOML: ");
                push_str(&mut out, m.as_str());
            },
        }
        string_from_chars(out.as_slice())
    }
}

/// The brand's major version token, read from the UA, for the brands whose
/// UA token is known.
pub open spec fn expected_major_spec(ua: Seq<char>, brand: Seq<char>) -> Option<Seq<char>> {
    if brand == "Chromium"@ || brand == "Google Chrome"@ || brand == "Brave"@ {
        major_after_spec(ua, "Chrome/"@)
    } else if brand == "Microsoft Edge"@ {
        major_after_spec(ua, "Edg/"@)
    } else if brand == "Opera"@ {
        major_after_spec(ua, "OPR/"@)
    } else if brand == "Samsung Internet"@ {
        major_after_spec(ua, "SamsungBrowser/"@)
    } else {
        None
    }
}

/// What follows the first `token` of `ua`, up to its first `.`, when that
/// is not empty.
pub open spec fn major_after_spec(ua: Seq<char>, token: Seq<char>) -> Option<Seq<char>> {
    match after_first(ua, token) {
        None => None,
        Some(after) => {
            let major = before_first(after, "."@);
            if major.len() == 0 {
                None
            } else {
                Some(major)
            }
        },
    }
}

/// The first brand (from index `i` on) whose version is not all digits or
/// differs from the UA major of its brand.
pub open spec fn brand_error_from(ua: Seq<char>, brands: Seq<(Seq<char>, Seq<char>)>, i: nat) -> Option<
    Seq<char>,
>
    decreases brands.len() - i,
{
    if i >= brands.len() {
        None
    } else {
        let (brand, version) = brands[i as int];
        if !all_ascii_digits(version) {
            Some("Client Hint brand "@ + str_debug(brand) + " has non-numeric version "@ + str_debug(
                version,
            ))
        } else {
            match expected_major_spec(ua, brand) {
                Some(e) => if version != e {
                    Some("Client Hint brand "@ + str_debug(brand) + " version "@ + version
                        + " does not match UA major "@ + e)
                } else {
                    brand_error_from(ua, brands, i + 1)
                },
                None => brand_error_from(ua, brands, i + 1),
            }
        }
    }
}

/// A pinned timezone from another country than the primary language's
/// default timezone, when both are catalogued.
pub open spec fn timezone_error(o: OverridesView) -> Option<Seq<char>> {
    if o.languages.len() == 0 {
        None
    } else {
        let primary = o.languages[0];
        match (
            timezone_country_spec(default_timezone_spec(primary)),
            timezone_country_spec(o.timezone),
        ) {
            (Some(expected), Some(actual)) => if expected != actual {
                Some("timezone "@ + o.timezone + " (country "@ + actual
                    + ") is incoherent with primary language "@ + str_debug(primary)
                    + " (expects country "@ + expected + ")"@)
            } else {
                None
            },
            _ => None,
        }
    }
}

/// The first incoherence of a persona's surfaces, in gate order, or `None`.
pub open spec fn overrides_error(o: OverridesView) -> Option<Seq<char>> {
    let ua = o.user_agent;
    let p = o.platform;
    let ios_ua = contains(ua, "iPhone"@) || contains(ua, "iPad"@);
    let apple_gpu = contains(o.webgl_vendor, "Apple"@) || contains(o.webgl_renderer, "Apple"@);
    let apple_platform = p == "MacIntel"@ || p == "iPhone"@ || p == "iPad"@;
    let direct3d = contains(o.webgl_renderer, "Direct3D"@) || contains(o.webgl_renderer, "D3D11"@);
    let chromium_ua = contains(ua, "Chrome/"@) || contains(ua, "Chromium"@);
    if contains(ua, "Windows"@) && p != "Win32"@ {
        Some("UA claims Windows but platform is "@ + p)
    } else if contains(ua, "Mac OS X"@) && !ios_ua && p != "MacIntel"@ {
        Some("UA claims macOS desktop but platform is "@ + p)
    } else if ios_ua && p != "iPhone"@ && p != "iPad"@ {
        Some("iOS UA (iPhone/iPad) but platform is "@ + p + " (expected iPhone or iPad)"@)
    } else if contains(ua, "Android"@) && !o.mobile {
        Some("Android UA requires mobile=true"@)
    } else if contains(ua, "Linux"@) && !starts_with(p, "Linux"@) {
        Some("UA is Linux-based but platform is "@ + p
            + " (expected a Linux-prefixed navigator.platform)"@)
    } else if apple_gpu && !apple_platform {
        Some("WebGL claims an Apple GPU (vendor "@ + str_debug(o.webgl_vendor) + ", renderer "@
            + str_debug(o.webgl_renderer) + ") but platform is "@ + p
            + " (Apple GPUs exist only on MacIntel/iPhone/iPad)"@)
    } else if direct3d && p != "Win32"@ {
        Some("WebGL claims a Direct3D renderer ("@ + str_debug(o.webgl_renderer)
            + ") but platform is "@ + p
            + " (Direct3D/D3D11 is the Windows ANGLE backend; macOS uses Metal, Linux Mesa/OpenGL)"@)
    } else if chromium_ua && !contains(ua, "Firefox/"@) && o.brands.len() == 0 {
        Some("Chromium UA without userAgentData brands"@)
    } else if contains(ua, "Firefox/"@) && o.brands.len() > 0 {
        Some("Firefox UA must not ship Client Hints brands"@)
    } else {
        match brand_error_from(ua, o.brands, 0) {
            Some(m) => Some(m),
            None => timezone_error(o),
        }
    }
}

fn major_after(ua: &Vec<char>, token: &str) -> (r: Option<Vec<char>>)
    ensures
        match major_after_spec(ua@, token@) {
            Some(m) => r matches Some(v) && v@ == m,
            None => r is None,
        },
{
    let t = vchars(token);
    match after_first_exec(ua, &t) {
        None => None,
        Some(after) => {
            let major = before_first_exec(&after, &vchars("."));
            if major.len() == 0 {
                None
            } else {
                Some(major)
            }
        },
    }
}

fn expected_brand_major(ua: &Vec<char>, brand: &str) -> (r: Option<Vec<char>>)
    ensures
        match expected_major_spec(ua@, brand@) {
            Some(m) => r matches Some(v) && v@ == m,
            None => r is None,
        },
{
    if str_eq(brand, "Chromium") || str_eq(brand, "Google Chrome") || str_eq(brand, "Brave") {
        major_after(ua, "Chrome/")
    } else if str_eq(brand, "Microsoft Edge") {
        major_after(ua, "Edg/")
    } else if str_eq(brand, "Opera") {
        major_after(ua, "OPR/")
    } else if str_eq(brand, "Samsung Internet") {
        major_after(ua, "SamsungBrowser/")
    } else {
        None
    }
}

fn validate_brand_versions(ov: &ProfileOverrides) -> (r: Option<String>)
    ensures
        match brand_error_from(ov@.user_agent, ov@.brands, 0) {
            Some(m) => r matches Some(e) && e@ == m,
            None => r is None,
        },
{
    let ua = chars_of(ov.user_agent.as_str());
    let ghost bs = ov@.brands;
    let mut i: usize = 0;
    while i < ov.brands.len()
        invariant
            i <= ov.brands@.len(),
            ua@ == ov@.user_agent,
            bs == ov@.brands,
            bs.len() == ov.brands@.len(),
            brand_error_from(ov@.user_agent, bs, 0) == brand_error_from(ov@.user_agent, bs, i as nat),
        decreases ov.brands@.len() - i,
    {
        let brand = &ov.brands[i].0;
        let version = &ov.brands[i].1;
        assert(bs[i as int] == (brand@, version@));
        let vc = chars_of(version.as_str());
        if !all_ascii_digits_exec(&vc) {
            let mut out: Vec<char> = Vec::new();
            push_str(&mut out, "Client Hint brand ");
            let d = debug_str(brand.as_str());
            push_str(&mut out, d.as_str());
            push_str(&mut out, " has non-numeric version ");
            let dv = debug_str(version.as_str());
            push_str(&mut out, dv.as_str());
            return Some(string_from_chars(out.as_slice()));
        }
        match expected_brand_major(&ua, brand.as_str()) {
            Some(expected) => {
                if !crate::text::seq_eq(&vc, &expected) {
                    let mut out: Vec<char> = Vec::new();
                    push_str(&mut out, "Client Hint brand ");
                    let d = debug_str(brand.as_str());
                    push_str(&mut out, d.as_str());
                    push_str(&mut out, " version ");
                    push_str(&mut out, version.as_str());
                    push_str(&mut out, " does not match UA major ");
                    push_all(&mut out, &expected);
                    return Some(string_from_chars(out.as_slice()));
                }
            },
            None => {},
        }
        i = i + 1;
    }
    None
}

fn validate_timezone_geo(ov: &ProfileOverrides) -> (r: Option<String>)
    ensures
        match timezone_error(ov@) {
            Some(m) => r matches Some(e) && e@ == m,
            None => r is None,
        },
{
    if ov.languages.len() == 0 {
        return None;
    }
    let primary = &ov.languages[0];
    assert(ov@.languages[0] == primary@);
    let expected_tz = default_timezone_for_locale(primary.as_str());
    let expected = timezone_country(expected_tz);
    let actual = timezone_country(ov.timezone.as_str());
    match (expected, actual) {
        (Some(e), Some(a)) => {
            if !str_eq(e, a) {
                let mut out: Vec<char> = Vec::new();
                push_str(&mut out, "timezone ");
                push_str(&mut out, ov.timezone.as_str());
                push_str(&mut out, " (country ");
                push_str(&mut out, a);
                push_str(&mut out, ") is incoherent with primary language ");
                let d = debug_str(primary.as_str());
                push_str(&mut out, d.as_str());
                push_str(&mut out, " (expects country ");
                push_str(&mut out, e);
                push_str(&mut out, ")");
                Some(string_from_chars(out.as_slice()))
            } else {
                None
            }
        },
        _ => None,
    }
}

fn incoherent(parts: Vec<char>) -> (r: Result<(), ProfileError>)
    ensures
        r matches Err(ProfileError::Incoherent(m)) && m@ == parts@,
{
    Err(ProfileError::Incoherent(string_from_chars(parts.as_slice())))
}

/// Internal coherence checks on materialised overrides: `Err(Incoherent)`
/// with the first contradiction, in gate order (see [`overrides_error`]).
pub fn validate_overrides(ov: &ProfileOverrides) -> (r: Result<(), ProfileError>)
    ensures
        match overrides_error(ov@) {
            None => r is Ok,
            Some(m) => r matches Err(ProfileError::Incoherent(e)) && e@ == m,
        },
{
    let ua = ov.user_agent.as_str();
    let p = ov.platform.as_str();
    let mut out: Vec<char> = Vec::new();
    if contains_str(ua, "Windows") && !str_eq(p, "Win32") {
        push_str(&mut out, "UA claims Windows but platform is ");
        push_str(&mut out, p);
        return incoherent(out);
    }
    let ios_ua = contains_str(ua, "iPhone") || contains_str(ua, "iPad");
    if contains_str(ua, "Mac OS X") && !ios_ua && !str_eq(p, "MacIntel") {
        push_str(&mut out, "UA claims macOS desktop but platform is ");
        push_str(&mut out, p);
        return incoherent(out);
    }
    if ios_ua && !str_eq(p, "iPhone") && !str_eq(p, "iPad") {
        push_str(&mut out, "iOS UA (iPhone/iPad) but platform is ");
        push_str(&mut out, p);
        push_str(&mut out, " (expected iPhone or iPad)");
        return incoherent(out);
    }
    if contains_str(ua, "Android") && !ov.mobile {
        push_str(&mut out, "Android UA requires mobile=true");
        return incoherent(out);
    }
    if contains_str(ua, "Linux") && !starts_with_str(p, "Linux") {
        push_str(&mut out, "UA is Linux-based but platform is ");
        push_str(&mut out, p);
        push_str(&mut out, " (expected a Linux-prefixed navigator.platform)");
        return incoherent(out);
    }
    let vendor = ov.webgl_vendor.as_str();
    let renderer = ov.webgl_renderer.as_str();
    let claims_apple_gpu = contains_str(vendor, "Apple") || contains_str(renderer, "Apple");
    let apple_platform = str_eq(p, "MacIntel") || str_eq(p, "iPhone") || str_eq(p, "iPad");
    if claims_apple_gpu && !apple_platform {
        push_str(&mut out, "WebGL claims an Apple GPU (vendor ");
        let dv = debug_str(vendor);
        push_str(&mut out, dv.as_str());
        push_str(&mut out, ", renderer ");
        let dr = debug_str(renderer);
        push_str(&mut out, dr.as_str());
        push_str(&mut out, ") but platform is ");
        push_str(&mut out, p);
        push_str(&mut out, " (Apple GPUs exist only on MacIntel/iPhone/iPad)");
        return incoherent(out);
    }
    let claims_direct3d = contains_str(renderer, "Direct3D") || contains_str(renderer, "D3D11");
    if claims_direct3d && !str_eq(p, "Win32") {
        push_str(&mut out, "WebGL claims a Direct3D renderer (");
        let dr = debug_str(renderer);
        push_str(&mut out, dr.as_str());
        push_str(&mut out, ") but platform is ");
        push_str(&mut out, p);
        push_str(
            &mut out,
            " (Direct3D/D3D11 is the Windows ANGLE backend; macOS uses Metal, Linux Mesa/OpenGL)",
        );
        return incoherent(out);
    }
    let chromium_ua = contains_str(ua, "Chrome/") || contains_str(ua, "Chromium");
    let firefox_ua = contains_str(ua, "Firefox/");
    if chromium_ua && !firefox_ua && ov.brands.len() == 0 {
        push_str(&mut out, "Chromium UA without userAgentData brands");
        return incoherent(out);
    }
    if firefox_ua && ov.brands.len() > 0 {
        push_str(&mut out, "Firefox UA must not ship Client Hints brands");
        return incoherent(out);
    }
    if let Some(m) = validate_brand_versions(ov) {
        return Err(ProfileError::Incoherent(m));
    }
    if let Some(m) = validate_timezone_geo(ov) {
        return Err(ProfileError::Incoherent(m));
    }
    Ok(())
}


proof fn lemma_brands_ok_from(ua: Seq<char>, brands: Seq<(Seq<char>, Seq<char>)>, i: nat)
    requires
        brand_error_from(ua, brands, i) is None,
    ensures
        forall|k: int|
            i <= k < brands.len() ==> all_ascii_digits(#[trigger] brands[k].1) && (
            expected_major_spec(ua, brands[k].0) matches Some(e) ==> brands[k].1 == e),
    decreases brands.len() - i,
{
    if i < brands.len() {
        lemma_brands_ok_from(ua, brands, i + 1);
    }
}

/// What a persona that passes the coherence gate satisfies: a Windows UA on
/// `Win32`, a macOS desktop UA on `MacIntel`, an iOS UA on `iPhone` or
/// `iPad`, an Android UA mobile, a Linux UA on a `Linux` platform; an Apple
/// GPU only on `MacIntel`, `iPhone` or `iPad`; a Direct3D renderer only on
/// `Win32`; brands exactly when the UA is Chromium and not Firefox; every
/// brand version all ASCII digits and equal to the UA major of its brand
/// when the UA carries that brand's token; a pinned timezone in the country
/// of the primary language's default timezone, when both are catalogued.
pub proof fn lemma_coherent_overrides(o: OverridesView)
    requires
        overrides_error(o) is None,
    ensures
        contains(o.user_agent, "Windows"@) ==> o.platform == "Win32"@,
        contains(o.user_agent, "Mac OS X"@) && !contains(o.user_agent, "iPhone"@) && !contains(
            o.user_agent,
            "iPad"@,
        ) ==> o.platform == "MacIntel"@,
        contains(o.user_agent, "iPhone"@) || contains(o.user_agent, "iPad"@) ==> o.platform
            == "iPhone"@ || o.platform == "iPad"@,
        contains(o.user_agent, "Android"@) ==> o.mobile,
        contains(o.user_agent, "Linux"@) ==> starts_with(o.platform, "Linux"@),
        contains(o.webgl_vendor, "Apple"@) || contains(o.webgl_renderer, "Apple"@) ==> o.platform
            == "MacIntel"@ || o.platform == "iPhone"@ || o.platform == "iPad"@,
        contains(o.webgl_renderer, "Direct3D"@) || contains(o.webgl_renderer, "D3D11"@) ==> o.platform
            == "Win32"@,
        (contains(o.user_agent, "Chrome/"@) || contains(o.user_agent, "Chromium"@)) && !contains(
            o.user_agent,
            "Firefox/"@,
        ) ==> o.brands.len() > 0,
        contains(o.user_agent, "Firefox/"@) ==> o.brands.len() == 0,
        forall|k: int|
            0 <= k < o.brands.len() ==> all_ascii_digits(#[trigger] o.brands[k].1) && (
            expected_major_spec(o.user_agent, o.brands[k].0) matches Some(e) ==> o.brands[k].1 == e),
        timezone_error(o) is None,
{
    lemma_brands_ok_from(o.user_agent, o.brands, 0);
}


/// The timezone check compares countries: it rejects a persona exactly
/// when it has a primary language, that language's default timezone and
/// the persona's timezone are both catalogued, and their countries differ.
/// So a timezone in the same country as the language's default is never
/// rejected.
pub proof fn lemma_timezone_check_compares_countries(o: OverridesView)
    ensures
        timezone_error(o) is Some <==> (o.languages.len() > 0 && timezone_country_spec(
            default_timezone_spec(o.languages[0]),
        ) is Some && timezone_country_spec(o.timezone) is Some && timezone_country_spec(
            default_timezone_spec(o.languages[0]),
        )->0 != timezone_country_spec(o.timezone)->0),
{
}

/// Validation depends on a persona's timezone only through the timezone's
/// country: moving the persona to another timezone of the same country (or
/// between two uncatalogued zones) never changes whether it passes.
pub proof fn lemma_same_country_timezones_validate_alike(o: OverridesView, tz: Seq<char>)
    requires
        timezone_country_spec(o.timezone) == timezone_country_spec(tz),
    ensures
        (overrides_error(o) is None) == (overrides_error(OverridesView { timezone: tz, ..o }) is None),
{
    let o2 = OverridesView { timezone: tz, ..o };
    assert((timezone_error(o) is None) == (timezone_error(o2) is None));
}

} // verus!
