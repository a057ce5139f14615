//! The materialised fingerprint surface a persona pins, the values derived
//! from it (Firefox `appVersion` / `oscpu`, the default timezone of a
//! locale), and the coherence gate every persona must pass.
use vstd::prelude::*;
use crate::text::{
    after_first, before_first, before_first_exec, chars_of, contains, contains_str, debug_str,
    find_char_exec, first_occurrence, lower, lower_chars, push_all, push_str, slice_chars,
    starts_with, starts_with_str, str_debug, str_eq, string_from_chars, strip_prefix,
    strip_prefix_exec, trim, trim_chars, vchars, all_ascii_digits, all_ascii_digits_exec,
    after_first_exec, find_char, split,
};

verus! {

/// Hardware and display values of a persona.
#[derive(Debug, Clone, Copy, PartialEq, Eq)]
pub struct ProfileHardware {
    /// `navigator.hardwareConcurrency`.
    pub hardware_concurrency: u8,
    /// `navigator.deviceMemory` GB.
    pub device_memory: u8,
    /// `screen.width`.
    pub screen_width: u32,
    /// `screen.height`.
    pub screen_height: u32,
    /// `screen.colorDepth`.
    pub color_depth: u8,
    /// WebGL `UNMASKED_VENDOR_WEBGL`.
    pub webgl_vendor: &'static str,
    /// WebGL `UNMASKED_RENDERER_WEBGL`.
    pub webgl_renderer: &'static str,
}

/// Browser fingerprint signals as collected from a live page.
#[derive(Debug, Clone, PartialEq, Eq)]
pub struct FingerprintSignals {
    /// Canvas fingerprint length from a deterministic test canvas.
    pub canvas_hash: i64,
    /// Reported WebGL vendor.
    pub webgl_vendor: String,
    /// Reported WebGL renderer.
    pub webgl_renderer: String,
    /// Reported navigator user agent.
    pub user_agent: String,
    /// Reported navigator platform.
    pub platform: String,
    /// Reported primary navigator language.
    pub language: String,
    /// Reported hardware concurrency.
    pub hardware_concurrency: u8,
    /// Reported device memory in GB.
    pub device_memory: u8,
    /// Reported screen width.
    pub screen_width: u32,
    /// Reported screen height.
    pub screen_height: u32,
    /// Reported screen color depth.
    pub color_depth: u8,
    /// Reported Intl timezone.
    pub timezone: String,
}

/// The set of fingerprint values a profile pins.
#[derive(Debug, Clone, PartialEq, Eq)]
pub struct ProfileOverrides {
    /// `navigator.userAgent` string.
    pub user_agent: String,
    /// `navigator.platform` value.
    pub platform: String,
    /// `navigator.vendor` value.
    pub navigator_vendor: String,
    /// `navigator.languages` array.
    pub languages: Vec<String>,
    /// `userAgentData.brands` (brand, major version); empty for Firefox.
    pub brands: Vec<(String, String)>,
    /// `userAgentData.mobile` boolean.
    pub mobile: bool,
    /// `navigator.hardwareConcurrency`.
    pub hardware_concurrency: u32,
    /// `navigator.deviceMemory` GB.
    pub device_memory: u32,
    /// `screen.width`.
    pub screen_width: u32,
    /// `screen.height`.
    pub screen_height: u32,
    /// `screen.colorDepth` / `screen.pixelDepth`.
    pub color_depth: u8,
    /// WebGL `UNMASKED_VENDOR_WEBGL`.
    pub webgl_vendor: String,
    /// WebGL `UNMASKED_RENDERER_WEBGL`.
    pub webgl_renderer: String,
    /// IANA timezone the persona presents through `Intl` / `Date`.
    pub timezone: String,
}

/// The plain values of a [`ProfileOverrides`].
pub struct OverridesView {
    pub user_agent: Seq<char>,
    pub platform: Seq<char>,
    pub navigator_vendor: Seq<char>,
    pub languages: Seq<Seq<char>>,
    pub brands: Seq<(Seq<char>, Seq<char>)>,
    pub mobile: bool,
    pub hardware_concurrency: u32,
    pub device_memory: u32,
    pub screen_width: u32,
    pub screen_height: u32,
    pub color_depth: u8,
    pub webgl_vendor: Seq<char>,
    pub webgl_renderer: Seq<char>,
    pub timezone: Seq<char>,
}

pub open spec fn brand_views(b: Seq<(String, String)>) -> Seq<(Seq<char>, Seq<char>)> {
    b.map_values(|p: (String, String)| (p.0@, p.1@))
}

impl View for ProfileOverrides {
    type V = OverridesView;

    open spec fn view(&self) -> OverridesView {
        OverridesView {
            user_agent: self.user_agent@,
            platform: self.platform@,
            navigator_vendor: self.navigator_vendor@,
            languages: self.languages@.map_values(|l: String| l@),
            brands: brand_views(self.brands@),
            mobile: self.mobile,
            hardware_concurrency: self.hardware_concurrency,
            device_memory: self.device_memory,
            screen_width: self.screen_width,
            screen_height: self.screen_height,
            color_depth: self.color_depth,
            webgl_vendor: self.webgl_vendor@,
            webgl_renderer: self.webgl_renderer@,
            timezone: self.timezone@,
        }
    }
}

impl ProfileOverrides {
    /// These overrides presenting `timezone` (everything else unchanged).
    pub fn with_timezone(self, timezone: String) -> (r: ProfileOverrides)
        ensures
            r == (ProfileOverrides { timezone, ..self }),
    {
        let mut s = self;
        s.timezone = timezone;
        s
    }

    /// These overrides with the hardware and display surfaces replaced by
    /// `hardware` (everything else unchanged).
    pub fn with_hardware(self, hardware: ProfileHardware) -> (r: ProfileOverrides)
        ensures
            r.hardware_concurrency == hardware.hardware_concurrency as u32,
            r.device_memory == hardware.device_memory as u32,
            r.screen_width == hardware.screen_width,
            r.screen_height == hardware.screen_height,
            r.color_depth == hardware.color_depth,
            r.webgl_vendor@ == hardware.webgl_vendor@,
            r.webgl_renderer@ == hardware.webgl_renderer@,
            r.user_agent == self.user_agent,
            r.platform == self.platform,
            r.navigator_vendor == self.navigator_vendor,
            r.languages == self.languages,
            r.brands == self.brands,
            r.mobile == self.mobile,
            r.timezone == self.timezone,
    {
        let mut s = self;
        s.hardware_concurrency = hardware.hardware_concurrency as u32;
        s.device_memory = hardware.device_memory as u32;
        s.screen_width = hardware.screen_width;
        s.screen_height = hardware.screen_height;
        s.color_depth = hardware.color_depth;
        s.webgl_vendor = crate::text::owned(hardware.webgl_vendor);
        s.webgl_renderer = crate::text::owned(hardware.webgl_renderer);
        s
    }
}

// ───────────────────────── Firefox appVersion / oscpu ─────────────────────────

/// Firefox's reduced `navigator.appVersion` for a platform: Windows,
/// Macintosh, else X11.
pub open spec fn app_version_spec(platform: Seq<char>) -> Seq<char> {
    let p = lower(platform);
    if contains(p, "win"@) {
        "5.0 (Windows)"@
    } else if contains(p, "mac"@) {
        "5.0 (Macintosh)"@
    } else {
        "5.0 (X11)"@
    }
}

/// Firefox's reduced `navigator.appVersion` for a persona OS family (by
/// case-insensitive `win` / `mac` in the platform).
pub fn firefox_app_version(platform: &str) -> (r: &'static str)
    ensures
        r@ == app_version_spec(platform@),
{
    let p = lower_chars(&chars_of(platform));
    let ps = string_from_chars(p.as_slice());
    if contains_str(ps.as_str(), "win") {
        "5.0 (Windows)"
    } else if contains_str(ps.as_str(), "mac") {
        "5.0 (Macintosh)"
    } else {
        "5.0 (X11)"
    }
}

/// The OS token Firefox's `oscpu` falls back to for a platform.
pub open spec fn oscpu_fallback(platform: Seq<char>) -> Seq<char> {
    let p = lower(platform);
    if contains(p, "win"@) {
        "Windows NT 10.0; Win64; x64"@
    } else if contains(p, "mac"@) {
        "Intel Mac OS X 10.15"@
    } else {
        "Linux x86_64"@
    }
}

/// The OS token inside the first parenthesised comment of a UA: the
/// comment before `; rv:`, trimmed, without an `X11; ` or `Macintosh; `
/// prefix, trimmed again; `None` without a closed comment.
pub open spec fn ua_os_token(ua: Seq<char>) -> Option<Seq<char>> {
    match find_char(ua, '(') {
        None => None,
        Some(start) => {
            let rest = ua.skip(start + 1);
            match find_char(rest, ')') {
                None => None,
                Some(end) => {
                    let comment = rest.take(end);
                    let os = trim(before_first(comment, "; rv:"@));
                    Some(trim(strip_prefix(strip_prefix(os, "X11; "@), "Macintosh; "@)))
                },
            }
        },
    }
}

/// Firefox's `navigator.oscpu`: the UA's OS token when the UA carries a
/// non-empty one, else the token of the platform's OS family.
pub open spec fn oscpu_spec(ua: Seq<char>, platform: Seq<char>) -> Seq<char> {
    match ua_os_token(ua) {
        Some(os) => if os.len() > 0 {
            os
        } else {
            oscpu_fallback(platform)
        },
        None => oscpu_fallback(platform),
    }
}

fn oscpu_fallback_exec(platform: &str) -> (r: String)
    ensures
        r@ == oscpu_fallback(platform@),
{
    let p = lower_chars(&chars_of(platform));
    let ps = string_from_chars(p.as_slice());
    if contains_str(ps.as_str(), "win") {
        crate::text::owned("Windows NT 10.0; Win64; x64")
    } else if contains_str(ps.as_str(), "mac") {
        crate::text::owned("Intel Mac OS X 10.15")
    } else {
        crate::text::owned("Linux x86_64")
    }
}

/// Firefox's `navigator.oscpu`, derived from the persona UA so the two always
/// agree: the OS token of the UA's parenthesised comment (see
/// [`ua_os_token`]); without a non-empty one, the OS family of `platform`,
/// never the host.
pub fn firefox_oscpu(user_agent: &str, platform: &str) -> (r: String)
    ensures
        r@ == oscpu_spec(user_agent@, platform@),
{
    let ua = chars_of(user_agent);
    if let Some(start) = find_char_exec(&ua, '(') {
        let n = ua.len();
        assert(start < n);
        let rest = slice_chars(&ua, start + 1, n);
        assert(rest@ == ua@.skip(start + 1));
        if let Some(end) = find_char_exec(&rest, ')') {
            let comment = slice_chars(&rest, 0, end);
            assert(comment@ == rest@.take(end as int));
            let head = before_first_exec(&comment, &vchars("; rv:"));
            let os = trim_chars(&head);
            let os = strip_prefix_exec(&os, &vchars("X11; "));
            let os = strip_prefix_exec(&os, &vchars("Macintosh; "));
            let os = trim_chars(&os);
            if os.len() > 0 {
                return string_from_chars(os.as_slice());
            }
        }
    }
    oscpu_fallback_exec(platform)
}

// ───────────────────────── locale → timezone ─────────────────────────

/// `s` up to its first `-` or `_`.
pub open spec fn primary_subtag(s: Seq<char>) -> Seq<char> {
    s.take(first_sep(s))
}

pub open spec fn first_sep(s: Seq<char>) -> int
    decreases s.len(),
{
    if s.len() == 0 {
        0
    } else if s[0] == '-' || s[0] == '_' {
        0
    } else {
        1 + first_sep(s.drop_first())
    }
}

/// The default IANA timezone of a primary language tag: a region-qualified
/// tag (`en-GB`) first, then the bare language (`en`), else
/// `America/New_York`; ASCII case is ignored.
pub open spec fn default_timezone_spec(tag: Seq<char>) -> Seq<char> {
    let l = lower(tag);
    if l == "en-us"@ {
        "America/New_York"@
    } else if l == "en-gb"@ {
        "Europe/London"@
    } else if l == "en-ca"@ || l == "fr-ca"@ {
        "America/Toronto"@
    } else if l == "en-au"@ {
        "Australia/Sydney"@
    } else if l == "en-in"@ || l == "hi-in"@ {
        "Asia/Kolkata"@
    } else if l == "de-de"@ || l == "de-at"@ {
        "Europe/Berlin"@
    } else if l == "fr-fr"@ {
        "Europe/Paris"@
    } else if l == "es-es"@ {
        "Europe/Madrid"@
    } else if l == "nl-nl"@ {
        "Europe/Amsterdam"@
    } else if l == "ja-jp"@ {
        "Asia/Tokyo"@
    } else if l == "zh-cn"@ {
        "Asia/Shanghai"@
    } else {
        let p = primary_subtag(l);
        if p == "de"@ {
            "Europe/Berlin"@
        } else if p == "fr"@ {
            "Europe/Paris"@
        } else if p == "es"@ {
            "Europe/Madrid"@
        } else if p == "nl"@ {
            "Europe/Amsterdam"@
        } else if p == "ja"@ {
            "Asia/Tokyo"@
        } else if p == "zh"@ {
            "Asia/Shanghai"@
        } else if p == "hi"@ {
            "Asia/Kolkata"@
        } else {
            "America/New_York"@
        }
    }
}

pub(crate) fn primary_subtag_exec(s: &Vec<char>) -> (r: Vec<char>)
    ensures
        r@ == primary_subtag(s@),
{
    let mut i: usize = 0;
    assert(s@.skip(0) =~= s@);
    while i < s.len() && s[i] != '-' && s[i] != '_'
        invariant
            i <= s@.len(),
            first_sep(s@) == i + first_sep(s@.skip(i as int)),
        decreases s@.len() - i,
    {
        assert(s@.skip(i as int)[0] == s@[i as int]);
        assert(s@.skip(i as int).drop_first() =~= s@.skip(i + 1));
        i = i + 1;
    }
    proof {
        if i < s@.len() {
            assert(s@.skip(i as int)[0] == s@[i as int]);
        }
    }
    slice_chars(s, 0, i)
}

fn eq_lit(v: &Vec<char>, lit: &str) -> (r: bool)
    ensures
        r == (v@ == lit@),
{
    let l = chars_of(lit);
    crate::text::seq_eq(v, &l)
}

/// The default IANA timezone of a persona's primary language tag, so the
/// emitted timezone is coherent with `navigator.languages` (see
/// [`default_timezone_spec`]).
pub fn default_timezone_for_locale(primary_language: &str) -> (r: &'static str)
    ensures
        r@ == default_timezone_spec(primary_language@),
{
    let l = lower_chars(&chars_of(primary_language));
    if eq_lit(&l, "en-us") {
        return "America/New_York";
    } else if eq_lit(&l, "en-gb") {
        return "Europe/London";
    } else if eq_lit(&l, "en-ca") || eq_lit(&l, "fr-ca") {
        return "America/Toronto";
    } else if eq_lit(&l, "en-au") {
        return "Australia/Sydney";
    } else if eq_lit(&l, "en-in") || eq_lit(&l, "hi-in") {
        return "Asia/Kolkata";
    } else if eq_lit(&l, "de-de") || eq_lit(&l, "de-at") {
        return "Europe/Berlin";
    } else if eq_lit(&l, "fr-fr") {
        return "Europe/Paris";
    } else if eq_lit(&l, "es-es") {
        return "Europe/Madrid";
    } else if eq_lit(&l, "nl-nl") {
        return "Europe/Amsterdam";
    } else if eq_lit(&l, "ja-jp") {
        return "Asia/Tokyo";
    } else if eq_lit(&l, "zh-cn") {
        return "Asia/Shanghai";
    }
    let p = primary_subtag_exec(&l);
    if eq_lit(&p, "de") {
        "Europe/Berlin"
    } else if eq_lit(&p, "fr") {
        "Europe/Paris"
    } else if eq_lit(&p, "es") {
        "Europe/Madrid"
    } else if eq_lit(&p, "nl") {
        "Europe/Amsterdam"
    } else if eq_lit(&p, "ja") {
        "Asia/Tokyo"
    } else if eq_lit(&p, "zh") {
        "Asia/Shanghai"
    } else if eq_lit(&p, "hi") {
        "Asia/Kolkata"
    } else {
        "America/New_York"
    }
}

/// The ISO-3166 country of each catalogued IANA timezone.
pub open spec fn timezone_country_spec(tz: Seq<char>) -> Option<Seq<char>> {
    if tz == "America/New_York"@ || tz == "America/Chicago"@ || tz == "America/Denver"@ || tz
        == "America/Phoenix"@ || tz == "America/Los_Angeles"@ {
        Some("US"@)
    } else if tz == "Europe/London"@ {
        Some("GB"@)
    } else if tz == "Europe/Berlin"@ {
        Some("DE"@)
    } else if tz == "Europe/Paris"@ {
        Some("FR"@)
    } else if tz == "Europe/Madrid"@ {
        Some("ES"@)
    } else if tz == "Europe/Amsterdam"@ {
        Some("NL"@)
    } else if tz == "Asia/Tokyo"@ {
        Some("JP"@)
    } else if tz == "Asia/Shanghai"@ {
        Some("CN"@)
    } else if tz == "Asia/Kolkata"@ {
        Some("IN"@)
    } else if tz == "Australia/Sydney"@ {
        Some("AU"@)
    } else if tz == "America/Toronto"@ {
        Some("CA"@)
    } else {
        None
    }
}

/// The ISO-3166 country a catalogued IANA timezone belongs to, or `None`
/// for a zone outside the catalogue.
pub fn timezone_country(tz: &str) -> (r: Option<&'static str>)
    ensures
        match timezone_country_spec(tz@) {
            Some(c) => r matches Some(s) && s@ == c,
            None => r is None,
        },
{
    if str_eq(tz, "America/New_York") || str_eq(tz, "America/Chicago") || str_eq(
        tz,
        "America/Denver",
    ) || str_eq(tz, "America/Phoenix") || str_eq(tz, "America/Los_Angeles") {
        Some("US")
    } else if str_eq(tz, "Europe/London") {
        Some("GB")
    } else if str_eq(tz, "Europe/Berlin") {
        Some("DE")
    } else if str_eq(tz, "Europe/Paris") {
        Some("FR")
    } else if str_eq(tz, "Europe/Madrid") {
        Some("ES")
    } else if str_eq(tz, "Europe/Amsterdam") {
        Some("NL")
    } else if str_eq(tz, "Asia/Tokyo") {
        Some("JP")
    } else if str_eq(tz, "Asia/Shanghai") {
        Some("CN")
    } else if str_eq(tz, "Asia/Kolkata") {
        Some("IN")
    } else if str_eq(tz, "Australia/Sydney") {
        Some("AU")
    } else if str_eq(tz, "America/Toronto") {
        Some("CA")
    } else {
        None
    }
}

/// Every default timezone is a catalogued zone, so a persona's derived
/// timezone always has a known country.
pub proof fn lemma_default_timezone_is_catalogued(tag: Seq<char>)
    ensures
        timezone_country_spec(default_timezone_spec(tag)) is Some,
{
}

} // verus!
