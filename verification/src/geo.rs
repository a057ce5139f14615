//! Persona geography: do a persona's own geo facts (timezone, country,
//! locale, languages) agree with each other, and does the country (and
//! timezone) it claims match what the caller's egress IP geolocates to? An
//! unknown zone or an absent observation is never read as agreement.
use vstd::prelude::*;
use crate::persona::{
    default_timezone_spec, first_sep, primary_subtag, primary_subtag_exec, timezone_country,
    timezone_country_spec,
};
use crate::text::{
    chars_of, lower, lower_chars, push_str, slice_chars, str_eq, string_from_chars, trim, trim_chars,
    upper, upper_chars,
};

verus! {

/// The geography of the actual egress, as the caller reports it; a `None`
/// field is not cross-checked.
#[derive(Debug, Clone, PartialEq, Eq)]
pub struct ObservedEgressGeo {
    /// ISO-3166-1 alpha-2 country code the egress IP geolocates to.
    pub country: Option<String>,
    /// IANA timezone the egress IP geolocates to, if resolved.
    pub timezone: Option<String>,
}

impl Default for ObservedEgressGeo {
    fn default() -> (r: ObservedEgressGeo)
        ensures
            r.country is None,
            r.timezone is None,
    {
        ObservedEgressGeo { country: None, timezone: None }
    }
}

impl ObservedEgressGeo {
    /// Whether no egress layer is present to cross-check.
    pub fn is_empty(&self) -> (r: bool)
        ensures
            r == (self.country is None && self.timezone is None),
    {
        self.country.is_none() && self.timezone.is_none()
    }
}

/// One way a persona's claimed geography contradicts its actual egress.
#[derive(Debug, Clone, PartialEq, Eq)]
pub enum EgressGeoMismatch {
    /// The persona's country differs from the egress IP's country.
    Country {
        /// Country the persona belongs to.
        persona_country: String,
        /// Country the egress IP geolocates to.
        egress_country: String,
    },
    /// The persona's timezone differs from the egress IP's timezone.
    Timezone {
        /// Timezone the persona claims.
        persona_timezone: String,
        /// Timezone the egress IP geolocates to.
        egress_timezone: String,
    },
}

/// Verdict of probing a persona's claimed geography against its egress.
#[derive(Debug, Clone, PartialEq, Eq)]
pub enum GeoSelfProbe {
    /// Every measured egress layer agrees with the persona.
    Coherent,
    /// At least one egress layer contradicts the persona; each is named.
    Incoherent(Vec<EgressGeoMismatch>),
    /// No egress layer was supplied, explicitly not `Coherent`.
    Unmeasured,
}

impl GeoSelfProbe {
    /// Whether the egress agreed with the persona on every measured layer.
    pub fn is_coherent(&self) -> (r: bool)
        ensures
            r == (self is Coherent),
    {
        match self {
            GeoSelfProbe::Coherent => true,
            _ => false,
        }
    }
}

pub enum MismatchView {
    Country { persona_country: Seq<char>, egress_country: Seq<char> },
    Timezone { persona_timezone: Seq<char>, egress_timezone: Seq<char> },
}

pub enum ProbeView {
    Coherent,
    Incoherent(Seq<MismatchView>),
    Unmeasured,
}

impl View for EgressGeoMismatch {
    type V = MismatchView;

    open spec fn view(&self) -> MismatchView {
        match self {
            EgressGeoMismatch::Country { persona_country, egress_country } => MismatchView::Country {
                persona_country: persona_country@,
                egress_country: egress_country@,
            },
            EgressGeoMismatch::Timezone { persona_timezone, egress_timezone } => {
                MismatchView::Timezone {
                    persona_timezone: persona_timezone@,
                    egress_timezone: egress_timezone@,
                }
            },
        }
    }
}

impl View for GeoSelfProbe {
    type V = ProbeView;

    open spec fn view(&self) -> ProbeView {
        match self {
            GeoSelfProbe::Coherent => ProbeView::Coherent,
            GeoSelfProbe::Incoherent(v) => ProbeView::Incoherent(
                v@.map_values(|m: EgressGeoMismatch| m@),
            ),
            GeoSelfProbe::Unmeasured => ProbeView::Unmeasured,
        }
    }
}

/// The persona country the country layer compares: the persona's own
/// country when it has one, else the country of its timezone.
pub open spec fn persona_country_spec(country: Seq<char>, timezone: Seq<char>) -> Option<Seq<char>> {
    if country.len() == 0 {
        timezone_country_spec(timezone)
    } else {
        Some(country)
    }
}

/// The country layer: compared when the egress country is known and the
/// persona country resolves; a mismatch when they differ (egress country
/// uppercased).
pub open spec fn country_layer(country: Seq<char>, timezone: Seq<char>, observed: Option<Seq<char>>) -> Option<
    Option<MismatchView>,
> {
    match observed {
        None => None,
        Some(ec) => match persona_country_spec(country, timezone) {
            None => None,
            Some(pc) => Some(
                if pc != upper(ec) {
                    Some(MismatchView::Country { persona_country: pc, egress_country: upper(ec) })
                } else {
                    None
                },
            ),
        },
    }
}

/// The timezone layer: compared when the egress timezone is known; a
/// mismatch when it differs from the persona's.
pub open spec fn timezone_layer(timezone: Seq<char>, observed: Option<Seq<char>>) -> Option<
    Option<MismatchView>,
> {
    match observed {
        None => None,
        Some(et) => Some(
            if timezone != et {
                Some(MismatchView::Timezone { persona_timezone: timezone, egress_timezone: et })
            } else {
                None
            },
        ),
    }
}

pub open spec fn layer_mismatches(l: Option<Option<MismatchView>>) -> Seq<MismatchView> {
    match l {
        Some(Some(m)) => seq![m],
        _ => Seq::empty(),
    }
}

/// The probe's answer: unmeasured when neither layer has an observation,
/// otherwise coherent, or incoherent with the country and then the timezone mismatch.
pub open spec fn geo_probe_spec(
    country: Seq<char>,
    timezone: Seq<char>,
    egress_country: Option<Seq<char>>,
    egress_timezone: Option<Seq<char>>,
) -> ProbeView {
    let c = country_layer(country, timezone, egress_country);
    let t = timezone_layer(timezone, egress_timezone);
    let mismatches = layer_mismatches(c) + layer_mismatches(t);
    if c is None && t is None {
        ProbeView::Unmeasured
    } else if mismatches.len() == 0 {
        ProbeView::Coherent
    } else {
        ProbeView::Incoherent(mismatches)
    }
}

pub open spec fn opt_str_view(o: Option<String>) -> Option<Seq<char>> {
    match o {
        Some(s) => Some(s@),
        None => None,
    }
}

/// Probe a persona's country and timezone against the caller-supplied
/// egress geography (see [`geo_probe_spec`]): only the layers the
/// observation supplies are compared, every contradiction is named, and no
/// layer at all is `Unmeasured`.
pub fn geo_self_probe(country: &str, timezone: &str, observed: &ObservedEgressGeo) -> (r:
    GeoSelfProbe)
    ensures
        r@ == geo_probe_spec(
            country@,
            timezone@,
            opt_str_view(observed.country),
            opt_str_view(observed.timezone),
        ),
        observed.country is None && observed.timezone is None ==> r is Unmeasured,
{
    let mut mismatches: Vec<EgressGeoMismatch> = Vec::new();
    let mut compared: usize = 0;
    let ghost c = country_layer(country@, timezone@, opt_str_view(observed.country));
    let ghost t = timezone_layer(timezone@, opt_str_view(observed.timezone));
    if let Some(egress_country) = &observed.country {
        let persona_country: Option<String> = if country.is_empty() {
            match timezone_country(timezone) {
                Some(p) => Some(crate::text::owned(p)),
                None => None,
            }
        } else {
            Some(crate::text::owned(country))
        };
        if let Some(pc) = persona_country {
            compared = compared + 1;
            let ec = string_from_chars(upper_chars(&chars_of(egress_country.as_str())).as_slice());
            if !str_eq(pc.as_str(), ec.as_str()) {
                mismatches.push(EgressGeoMismatch::Country { persona_country: pc, egress_country: ec });
            }
        }
    }
    assert(mismatches@.map_values(|m: EgressGeoMismatch| m@) =~= layer_mismatches(c));
    assert(compared == 0 <==> c is None);
    if let Some(egress_tz) = &observed.timezone {
        compared = compared + 1;
        if !str_eq(timezone, egress_tz.as_str()) {
            let ghost before = mismatches@.map_values(|m: EgressGeoMismatch| m@);
            mismatches.push(
                EgressGeoMismatch::Timezone {
                    persona_timezone: crate::text::owned(timezone),
                    egress_timezone: crate::text::owned(egress_tz.as_str()),
                },
            );
            assert(mismatches@.map_values(|m: EgressGeoMismatch| m@) =~= before.push(
                MismatchView::Timezone { persona_timezone: timezone@, egress_timezone: egress_tz@ },
            ));
        }
    }
    assert(mismatches@.map_values(|m: EgressGeoMismatch| m@) =~= layer_mismatches(c)
        + layer_mismatches(t));
    if compared == 0 {
        GeoSelfProbe::Unmeasured
    } else if mismatches.len() == 0 {
        GeoSelfProbe::Coherent
    } else {
        GeoSelfProbe::Incoherent(mismatches)
    }
}

// ───────────────────────── internal geo facts ─────────────────────────

/// The primary-language subtags of a catalogued timezone's country, by
/// prevalence (empty outside the catalogue).
pub open spec fn timezone_languages_spec(tz: Seq<char>) -> Seq<Seq<char>> {
    if tz == "America/New_York"@ || tz == "America/Chicago"@ || tz == "America/Denver"@
        || tz == "America/Phoenix"@ || tz == "America/Los_Angeles"@ || tz == "Europe/London"@
        || tz == "Australia/Sydney"@ {
        seq!["en"@]
    } else if tz == "Europe/Berlin"@ {
        seq!["de"@, "en"@]
    } else if tz == "Europe/Paris"@ {
        seq!["fr"@]
    } else if tz == "Europe/Madrid"@ {
        seq!["es"@]
    } else if tz == "Europe/Amsterdam"@ {
        seq!["nl"@, "en"@]
    } else if tz == "Asia/Tokyo"@ {
        seq!["ja"@]
    } else if tz == "Asia/Shanghai"@ {
        seq!["zh"@]
    } else if tz == "Asia/Kolkata"@ {
        seq!["en"@, "hi"@]
    } else if tz == "America/Toronto"@ {
        seq!["en"@, "fr"@]
    } else {
        Seq::empty()
    }
}

/// The primary-language subtags of a catalogued timezone's country.
pub fn timezone_languages(tz: &str) -> (r: Vec<&'static str>)
    ensures
        r@.map_values(|l: &str| l@) == timezone_languages_spec(tz@),
{
    let r: Vec<&'static str> = if str_eq(tz, "America/New_York") || str_eq(tz, "America/Chicago")
        || str_eq(tz, "America/Denver") || str_eq(tz, "America/Phoenix") || str_eq(
        tz,
        "America/Los_Angeles",
    ) || str_eq(tz, "Europe/London") || str_eq(tz, "Australia/Sydney") {
        vec!["en"]
    } else if str_eq(tz, "Europe/Berlin") {
        vec!["de", "en"]
    } else if str_eq(tz, "Europe/Paris") {
        vec!["fr"]
    } else if str_eq(tz, "Europe/Madrid") {
        vec!["es"]
    } else if str_eq(tz, "Europe/Amsterdam") {
        vec!["nl", "en"]
    } else if str_eq(tz, "Asia/Tokyo") {
        vec!["ja"]
    } else if str_eq(tz, "Asia/Shanghai") {
        vec!["zh"]
    } else if str_eq(tz, "Asia/Kolkata") {
        vec!["en", "hi"]
    } else if str_eq(tz, "America/Toronto") {
        vec!["en", "fr"]
    } else {
        Vec::new()
    };
    assert(r@.map_values(|l: &str| l@) =~= timezone_languages_spec(tz@));
    r
}

pub open spec fn ascii_alpha(c: char) -> bool {
    ('a' <= c && c <= 'z') || ('A' <= c && c <= 'Z')
}

fn ascii_alpha_exec(c: char) -> (r: bool)
    ensures
        r == ascii_alpha(c),
{
    ('a' <= c && c <= 'z') || ('A' <= c && c <= 'Z')
}

/// The second `-` / `_`-separated subtag of a tag, if there is one.
pub open spec fn second_subtag(s: Seq<char>) -> Option<Seq<char>> {
    let i = first_sep(s);
    if i < s.len() {
        Some(primary_subtag(s.skip(i + 1)))
    } else {
        None
    }
}

/// The uppercased region subtag of a BCP 47 locale (`en-US` gives `US`):
/// its second subtag when that is two ASCII letters.
pub open spec fn locale_region_spec(locale: Seq<char>) -> Option<Seq<char>> {
    match second_subtag(locale) {
        Some(r) => if r.len() == 2 && ascii_alpha(r[0]) && ascii_alpha(r[1]) {
            Some(upper(r))
        } else {
            None
        },
        None => None,
    }
}

/// One way a persona's own geo facts contradict its timezone.
#[derive(Debug, Clone, PartialEq, Eq)]
pub enum GeoFactIncoherence {
    /// The persona's country differs from the timezone's country.
    Country {
        /// Country the persona's timezone belongs to.
        timezone_country: String,
        /// The persona's own country, uppercased.
        persona_country: String,
    },
    /// The locale's region subtag names another country than the timezone.
    LocaleCountry {
        /// Country the persona's timezone belongs to.
        timezone_country: String,
        /// Region subtag of the persona's locale.
        locale_region: String,
    },
    /// The persona's primary language is not a language of the timezone's
    /// country.
    Language {
        /// The persona's primary language subtag.
        primary_language: String,
        /// Languages the timezone's country is expected to use.
        timezone_languages: Vec<String>,
    },
}

pub enum FactView {
    Country { timezone_country: Seq<char>, persona_country: Seq<char> },
    LocaleCountry { timezone_country: Seq<char>, locale_region: Seq<char> },
    Language { primary_language: Seq<char>, timezone_languages: Seq<Seq<char>> },
}

impl View for GeoFactIncoherence {
    type V = FactView;

    open spec fn view(&self) -> FactView {
        match self {
            GeoFactIncoherence::Country { timezone_country, persona_country } => FactView::Country {
                timezone_country: timezone_country@,
                persona_country: persona_country@,
            },
            GeoFactIncoherence::LocaleCountry { timezone_country, locale_region } => {
                FactView::LocaleCountry {
                    timezone_country: timezone_country@,
                    locale_region: locale_region@,
                }
            },
            GeoFactIncoherence::Language { primary_language, timezone_languages } => {
                FactView::Language {
                    primary_language: primary_language@,
                    timezone_languages: timezone_languages@.map_values(|l: String| l@),
                }
            },
        }
    }
}

/// The contradictions between a persona's country, locale and primary
/// language and the country and languages of its timezone, in that order,
/// or `None` when the timezone is outside the catalogue (nothing can be
/// cross-checked, which is never agreement).
pub open spec fn geo_facts_spec(
    timezone: Seq<char>,
    country: Seq<char>,
    locale: Seq<char>,
    languages: Seq<Seq<char>>,
) -> Option<Seq<FactView>> {
    match timezone_country_spec(timezone) {
        None => None,
        Some(tc) => {
            let c = if country.len() > 0 && upper(country) != tc {
                seq![FactView::Country { timezone_country: tc, persona_country: upper(country) }]
            } else {
                Seq::empty()
            };
            let l = match locale_region_spec(locale) {
                Some(r) => if r != tc {
                    seq![FactView::LocaleCountry { timezone_country: tc, locale_region: r }]
                } else {
                    Seq::empty()
                },
                None => Seq::empty(),
            };
            let langs = timezone_languages_spec(timezone);
            let g = if languages.len() > 0 && !langs.contains(lower(primary_subtag(languages[0]))) {
                seq![
                    FactView::Language {
                        primary_language: lower(primary_subtag(languages[0])),
                        timezone_languages: langs,
                    },
                ]
            } else {
                Seq::empty()
            };
            Some(c + l + g)
        },
    }
}

fn locale_region(locale: &str) -> (r: Option<String>)
    ensures
        match locale_region_spec(locale@) {
            Some(x) => r matches Some(s) && s@ == x,
            None => r is None,
        },
{
    let s = chars_of(locale);
    let mut i: usize = 0;
    assert(s@.skip(0) =~= s@);
    while i < s.len() && s[i] != '-' && s[i] != '_'
        invariant
            i <= s@.len(),
            first_sep(s@) == i + first_sep(s@.skip(i as int)),
        decreases s@.len() - i,
    {
        assert(s@.skip(i as int)[0] == s@[i as int]);
        assert(s@.skip(i as int).drop_first() =~= s@.skip(i + 1));
        i = i + 1;
    }
    if i >= s.len() {
        return None;
    }
    assert(s@.skip(i as int)[0] == s@[i as int]);
    let rest = slice_chars(&s, i + 1, s.len());
    assert(rest@ =~= s@.skip(i + 1));
    let r = primary_subtag_exec(&rest);
    if r.len() == 2 && (('a' <= r[0] && r[0] <= 'z') || ('A' <= r[0] && r[0] <= 'Z')) && (('a'
        <= r[1] && r[1] <= 'z') || ('A' <= r[1] && r[1] <= 'Z')) {
        Some(string_from_chars(upper_chars(&r).as_slice()))
    } else {
        None
    }
}

/// Check a persona's internal geo facts against its timezone (see
/// [`geo_facts_spec`]): its country and its locale's region must be the
/// timezone's country, and its primary language one of that country's
/// languages. `None` for a timezone outside the catalogue.
pub fn identity_geo_facts(timezone: &str, country: &str, locale: &str, languages: &Vec<String>) -> (r:
    Option<Vec<GeoFactIncoherence>>)
    ensures
        match geo_facts_spec(timezone@, country@, locale@, languages@.map_values(|l: String| l@)) {
            None => r is None,
            Some(v) => r matches Some(p) && p@.map_values(|f: GeoFactIncoherence| f@) == v,
        },
{
    let ghost ls = languages@.map_values(|l: String| l@);
    let tc = match timezone_country(timezone) {
        None => return None,
        Some(t) => t,
    };
    let mut problems: Vec<GeoFactIncoherence> = Vec::new();
    let ghost mut acc: Seq<FactView> = Seq::empty();
    if country.as_bytes().len() > 0 {
        let pc = string_from_chars(upper_chars(&chars_of(country)).as_slice());
        if !str_eq(pc.as_str(), tc) {
            problems.push(
                GeoFactIncoherence::Country { timezone_country: crate::text::owned(tc), persona_country: pc },
            );
        }
    }
    proof {
        crate::text::lemma_encode_utf8_len(country@);
    }
    assert(problems@.map_values(|f: GeoFactIncoherence| f@) =~= (if country@.len() > 0 && upper(
        country@,
    ) != tc@ {
        seq![FactView::Country { timezone_country: tc@, persona_country: upper(country@) }]
    } else {
        Seq::empty()
    }));
    let ghost before_locale = problems@.map_values(|f: GeoFactIncoherence| f@);
    if let Some(region) = locale_region(locale) {
        if !str_eq(region.as_str(), tc) {
            problems.push(
                GeoFactIncoherence::LocaleCountry {
                    timezone_country: crate::text::owned(tc),
                    locale_region: region,
                },
            );
        }
    }
    let ghost before_lang = problems@.map_values(|f: GeoFactIncoherence| f@);
    assert(before_lang =~= before_locale + match locale_region_spec(locale@) {
        Some(r) => if r != tc@ {
            seq![FactView::LocaleCountry { timezone_country: tc@, locale_region: r }]
        } else {
            Seq::empty()
        },
        None => Seq::empty(),
    });
    if languages.len() > 0 {
        let primary = lower_chars(&primary_subtag_exec(&chars_of(languages[0].as_str())));
        let langs = timezone_languages(timezone);
        let ghost lv = langs@.map_values(|l: &str| l@);
        let mut found = false;
        let mut k: usize = 0;
        while k < langs.len()
            invariant
                k <= langs@.len(),
                lv == langs@.map_values(|l: &str| l@),
                found == (exists|q: int| 0 <= q < k && lv[q] == primary@),
            decreases langs@.len() - k,
        {
            if str_eq(langs[k], string_from_chars(primary.as_slice()).as_str()) {
                assert(lv[k as int] == primary@);
                found = true;
            }
            k = k + 1;
        }
        assert(found == lv.contains(primary@));
        if !found {
            let mut names: Vec<String> = Vec::new();
            let mut j: usize = 0;
            while j < langs.len()
                invariant
                    j <= langs@.len(),
                    lv == langs@.map_values(|l: &str| l@),
                    names@.len() == j,
                    forall|q: int| 0 <= q < j ==> (#[trigger] names@[q])@ == lv[q],
                decreases langs@.len() - j,
            {
                names.push(crate::text::owned(langs[j]));
                j = j + 1;
            }
            assert(names@.map_values(|l: String| l@) =~= lv);
            problems.push(
                GeoFactIncoherence::Language {
                    primary_language: string_from_chars(primary.as_slice()),
                    timezone_languages: names,
                },
            );
        }
    }
    Some(problems)
}


// ───────────────────────── Tier-B geo-region presets ─────────────────────────

/// The validated, non-float fields of a Tier-B geo-region preset: trimmed
/// name, timezone, locale and languages, and the uppercased country.
#[derive(Debug, Clone, PartialEq, Eq)]
pub struct GeoRegionFields {
    /// Human-readable label, e.g. `"US East"`.
    pub name: String,
    /// IANA timezone identifier.
    pub timezone: String,
    /// Primary BCP-47 locale.
    pub locale: String,
    /// Ordered `navigator.languages` values.
    pub languages: Vec<String>,
    /// ISO-3166-1 alpha-2 country, uppercased.
    pub country: String,
}

pub struct GeoRegionFieldsView {
    pub name: Seq<char>,
    pub timezone: Seq<char>,
    pub locale: Seq<char>,
    pub languages: Seq<Seq<char>>,
    pub country: Seq<char>,
}

impl View for GeoRegionFields {
    type V = GeoRegionFieldsView;

    open spec fn view(&self) -> GeoRegionFieldsView {
        GeoRegionFieldsView {
            name: self.name@,
            timezone: self.timezone@,
            locale: self.locale@,
            languages: self.languages@.map_values(|l: String| l@),
            country: self.country@,
        }
    }
}

/// Upper bound on a single Tier-B geo-region TOML (16 KiB).
pub const MAX_GEO_REGION_TOML_BYTES: u64 = 16384;

/// Error loading a Tier-B geo-region preset. Every variant is fail-closed.
#[derive(Debug, Clone, PartialEq, Eq)]
pub enum GeoRegionLoadError {
    /// The file could not be read.
    Read(String),
    /// The file exceeds the size cap.
    TooLarge {
        /// The offending path.
        path: String,
        /// Actual size in bytes.
        bytes: u64,
    },
    /// The TOML did not parse.
    Parse(String),
    /// A field was missing or invalid.
    Invalid {
        /// Why it was rejected.
        reason: String,
    },
    /// The preset failed the geo-coherence gate.
    Incoherent {
        /// The country, locale and language contradictions (`None`: the
        /// timezone is not catalogued).
        facts: Option<Vec<GeoFactIncoherence>>,
        /// Whether the coordinates lie within range of the timezone's region.
        coords_within_limit: bool,
    },
}

pub enum GeoRegionErrorView {
    Read(Seq<char>),
    TooLarge { path: Seq<char>, bytes: u64 },
    Parse(Seq<char>),
    Invalid(Seq<char>),
    Incoherent { facts: Option<Seq<FactView>>, coords_within_limit: bool },
}

impl View for GeoRegionLoadError {
    type V = GeoRegionErrorView;

    open spec fn view(&self) -> GeoRegionErrorView {
        match self {
            GeoRegionLoadError::Read(m) => GeoRegionErrorView::Read(m@),
            GeoRegionLoadError::TooLarge { path, bytes } => GeoRegionErrorView::TooLarge {
                path: path@,
                bytes: *bytes,
            },
            GeoRegionLoadError::Parse(m) => GeoRegionErrorView::Parse(m@),
            GeoRegionLoadError::Invalid { reason } => GeoRegionErrorView::Invalid(reason@),
            GeoRegionLoadError::Incoherent { facts, coords_within_limit } => GeoRegionErrorView::Incoherent {
                facts: match facts {
                    Some(v) => Some(v@.map_values(|f: GeoFactIncoherence| f@)),
                    None => None,
                },
                coords_within_limit: *coords_within_limit,
            },
        }
    }
}

/// Why a preset's fields are rejected before the coherence gate, if they
/// are, checked in this order on the trimmed values: an empty name,
/// timezone or locale, a country that is not two ASCII letters, an empty
/// language list.
pub open spec fn geo_region_field_error(
    name: Seq<char>,
    timezone: Seq<char>,
    locale: Seq<char>,
    languages_len: nat,
    country: Seq<char>,
) -> Option<Seq<char>> {
    let c = trim(country);
    if trim(name).len() == 0 {
        Some("empty name"@)
    } else if trim(timezone).len() == 0 {
        Some("empty timezone"@)
    } else if trim(locale).len() == 0 {
        Some("empty locale"@)
    } else if !(c.len() == 2 && ascii_alpha(c[0]) && ascii_alpha(c[1])) {
        Some("country `"@ + c + "` is not a 2-letter ISO-3166 code"@)
    } else if languages_len == 0 {
        Some("languages must not be empty"@)
    } else {
        None
    }
}

pub open spec fn trimmed_languages(languages: Seq<Seq<char>>) -> Seq<Seq<char>> {
    languages.map_values(|l: Seq<char>| trim(l))
}

/// The outcome of validating a preset's fields: the first failing field
/// check, else the coherence gate over the trimmed fields with the
/// country uppercased (see [`geo_facts_spec`]) together with the
/// caller's coordinate check.
pub open spec fn geo_region_spec(
    name: Seq<char>,
    timezone: Seq<char>,
    locale: Seq<char>,
    languages: Seq<Seq<char>>,
    country: Seq<char>,
    coords_within_limit: bool,
) -> Result<GeoRegionFieldsView, GeoRegionErrorView> {
    match geo_region_field_error(name, timezone, locale, languages.len(), country) {
        Some(reason) => Err(GeoRegionErrorView::Invalid(reason)),
        None => {
            let fields = GeoRegionFieldsView {
                name: trim(name),
                timezone: trim(timezone),
                locale: trim(locale),
                languages: trimmed_languages(languages),
                country: upper(trim(country)),
            };
            let facts = geo_facts_spec(fields.timezone, fields.country, fields.locale, fields.languages);
            if facts == Some(Seq::<FactView>::empty()) && coords_within_limit {
                Ok(fields)
            } else {
                Err(GeoRegionErrorView::Incoherent { facts, coords_within_limit })
            }
        },
    }
}

/// Validate the parsed fields of a Tier-B geo-region preset and prove it
/// coherent before any persona uses it (see [`geo_region_spec`]);
/// `coords_within_limit` is the caller's check that the preset's
/// coordinates lie near its timezone's region.
pub fn geo_region_from_fields(
    name: &str,
    timezone: &str,
    locale: &str,
    languages: &Vec<String>,
    country: &str,
    coords_within_limit: bool,
) -> (r: Result<GeoRegionFields, GeoRegionLoadError>)
    ensures
        match geo_region_spec(
            name@,
            timezone@,
            locale@,
            languages@.map_values(|l: String| l@),
            country@,
            coords_within_limit,
        ) {
            Ok(f) => r matches Ok(x) && x@ == f,
            Err(e) => r matches Err(x) && x@ == e,
        },
{
    let n = trim_chars(&chars_of(name));
    let tz = trim_chars(&chars_of(timezone));
    let lc = trim_chars(&chars_of(locale));
    let c = trim_chars(&chars_of(country));
    let mut reason: Vec<char> = Vec::new();
    let bad = if n.len() == 0 {
        push_str(&mut reason, "empty name");
        true
    } else if tz.len() == 0 {
        push_str(&mut reason, "empty timezone");
        true
    } else if lc.len() == 0 {
        push_str(&mut reason, "empty locale");
        true
    } else if !(c.len() == 2 && ascii_alpha_exec(c[0]) && ascii_alpha_exec(c[1])) {
        push_str(&mut reason, "country `");
        crate::text::push_all(&mut reason, &c);
        push_str(&mut reason, "` is not a 2-letter ISO-3166 code");
        true
    } else if languages.len() == 0 {
        push_str(&mut reason, "languages must not be empty");
        true
    } else {
        false
    };
    let ghost lv = languages@.map_values(|l: String| l@);
    if bad {
        assert(geo_region_field_error(name@, timezone@, locale@, lv.len(), country@) == Some(reason@));
        return Err(GeoRegionLoadError::Invalid { reason: string_from_chars(reason.as_slice()) });
    }
    let mut langs: Vec<String> = Vec::new();
    let mut i: usize = 0;
    while i < languages.len()
        invariant
            i <= languages@.len(),
            lv == languages@.map_values(|l: String| l@),
            langs@.map_values(|l: String| l@) =~= trimmed_languages(lv).take(i as int),
        decreases languages@.len() - i,
    {
        let t = trim_chars(&chars_of(languages[i].as_str()));
        let ghost before = langs@.map_values(|l: String| l@);
        assert(lv[i as int] == languages@[i as int]@);
        langs.push(string_from_chars(t.as_slice()));
        assert(langs@.map_values(|l: String| l@) =~= before.push(trim(lv[i as int])));
        assert(trimmed_languages(lv).take(i + 1) =~= trimmed_languages(lv).take(i as int).push(
            trim(lv[i as int]),
        ));
        i = i + 1;
        assert(langs@.map_values(|l: String| l@) =~= trimmed_languages(lv).take(i as int));
    }
    assert(trimmed_languages(lv).take(i as int) =~= trimmed_languages(lv));
    let fields = GeoRegionFields {
        name: string_from_chars(n.as_slice()),
        timezone: string_from_chars(tz.as_slice()),
        locale: string_from_chars(lc.as_slice()),
        languages: langs,
        country: string_from_chars(upper_chars(&c).as_slice()),
    };
    let facts = identity_geo_facts(
        fields.timezone.as_str(),
        fields.country.as_str(),
        fields.locale.as_str(),
        &fields.languages,
    );
    let coherent = match &facts {
        Some(v) => v.len() == 0,
        None => false,
    };
    if coherent && coords_within_limit {
        assert(facts.unwrap()@.map_values(|f: GeoFactIncoherence| f@) =~= Seq::<FactView>::empty());
        Ok(fields)
    } else {
        Err(GeoRegionLoadError::Incoherent { facts, coords_within_limit })
    }
}


// ───────────────────────── built-in geo regions ─────────────────────────

/// The built-in coherent geo regions the shipped personas draw from (their
/// representative coordinates are those of their timezone's city).
pub open spec fn geo_region_catalog() -> Seq<GeoRegionFieldsView> {
    seq![
        GeoRegionFieldsView { name: "US East"@, timezone: "America/New_York"@, locale: "en-US"@, languages: seq!["en-US"@, "en"@], country: "US"@ },
        GeoRegionFieldsView { name: "US Central"@, timezone: "America/Chicago"@, locale: "en-US"@, languages: seq!["en-US"@, "en"@], country: "US"@ },
        GeoRegionFieldsView { name: "US West"@, timezone: "America/Los_Angeles"@, locale: "en-US"@, languages: seq!["en-US"@, "en"@], country: "US"@ },
        GeoRegionFieldsView { name: "EU Germany"@, timezone: "Europe/Berlin"@, locale: "de-DE"@, languages: seq!["de-DE"@, "de"@, "en"@], country: "DE"@ },
        GeoRegionFieldsView { name: "EU UK"@, timezone: "Europe/London"@, locale: "en-GB"@, languages: seq!["en-GB"@, "en"@], country: "GB"@ },
        GeoRegionFieldsView { name: "EU France"@, timezone: "Europe/Paris"@, locale: "fr-FR"@, languages: seq!["fr-FR"@, "fr"@, "en"@], country: "FR"@ },
        GeoRegionFieldsView { name: "APAC Japan"@, timezone: "Asia/Tokyo"@, locale: "ja-JP"@, languages: seq!["ja-JP"@, "ja"@, "en-US"@, "en"@], country: "JP"@ },
        GeoRegionFieldsView { name: "APAC India"@, timezone: "Asia/Kolkata"@, locale: "en-IN"@, languages: seq!["en-IN"@, "en"@, "hi"@], country: "IN"@ },
        GeoRegionFieldsView { name: "APAC Australia"@, timezone: "Australia/Sydney"@, locale: "en-AU"@, languages: seq!["en-AU"@, "en"@], country: "AU"@ },
        GeoRegionFieldsView { name: "North America Canada"@, timezone: "America/Toronto"@, locale: "en-CA"@, languages: seq!["en-CA"@, "en"@, "fr"@], country: "CA"@ },
    ]
}

fn region(name: &str, timezone: &str, locale: &str, languages: Vec<String>, country: &str) -> (r:
    GeoRegionFields)
    ensures
        r@ == (GeoRegionFieldsView {
            name: name@,
            timezone: timezone@,
            locale: locale@,
            languages: languages@.map_values(|l: String| l@),
            country: country@,
        }),
{
    GeoRegionFields {
        name: crate::text::owned(name),
        timezone: crate::text::owned(timezone),
        locale: crate::text::owned(locale),
        languages,
        country: crate::text::owned(country),
    }
}

fn strings(a: &str, b: &str) -> (r: Vec<String>)
    ensures
        r@.map_values(|l: String| l@) == seq![a@, b@],
{
    let mut r: Vec<String> = Vec::new();
    r.push(crate::text::owned(a));
    r.push(crate::text::owned(b));
    assert(r@.map_values(|l: String| l@) =~= seq![a@, b@]);
    r
}

fn strings3(a: &str, b: &str, c: &str) -> (r: Vec<String>)
    ensures
        r@.map_values(|l: String| l@) == seq![a@, b@, c@],
{
    let mut r = strings(a, b);
    let ghost before = r@.map_values(|l: String| l@);
    r.push(crate::text::owned(c));
    assert(r@.map_values(|l: String| l@) =~= before.push(c@));
    r
}

fn strings4(a: &str, b: &str, c: &str, d: &str) -> (r: Vec<String>)
    ensures
        r@.map_values(|l: String| l@) == seq![a@, b@, c@, d@],
{
    let mut r = strings3(a, b, c);
    let ghost before = r@.map_values(|l: String| l@);
    r.push(crate::text::owned(d));
    assert(r@.map_values(|l: String| l@) =~= before.push(d@));
    r
}

/// The built-in geo regions (see [`geo_region_catalog`]).
pub fn geo_region_presets() -> (r: Vec<GeoRegionFields>)
    ensures
        r@.map_values(|g: GeoRegionFields| g@) == geo_region_catalog(),
{
    let mut r: Vec<GeoRegionFields> = Vec::new();
    r.push(region("US East", "America/New_York", "en-US", strings("en-US", "en"), "US"));
    r.push(region("US Central", "America/Chicago", "en-US", strings("en-US", "en"), "US"));
    r.push(region("US West", "America/Los_Angeles", "en-US", strings("en-US", "en"), "US"));
    r.push(region("EU Germany", "Europe/Berlin", "de-DE", strings3("de-DE", "de", "en"), "DE"));
    r.push(region("EU UK", "Europe/London", "en-GB", strings("en-GB", "en"), "GB"));
    r.push(region("EU France", "Europe/Paris", "fr-FR", strings3("fr-FR", "fr", "en"), "FR"));
    r.push(region("APAC Japan", "Asia/Tokyo", "ja-JP", strings4("ja-JP", "ja", "en-US", "en"), "JP"));
    r.push(region("APAC India", "Asia/Kolkata", "en-IN", strings3("en-IN", "en", "hi"), "IN"));
    r.push(region("APAC Australia", "Australia/Sydney", "en-AU", strings("en-AU", "en"), "AU"));
    r.push(region("North America Canada", "America/Toronto", "en-CA", strings3("en-CA", "en", "fr"), "CA"));
    assert(r@.map_values(|g: GeoRegionFields| g@) =~= geo_region_catalog());
    r
}

/// Whether region `r` is what a lookup by `key` looks for: by name
/// (`mode` 0, `key` lowercased, names compared without ASCII case), by
/// exact timezone (1) or by timezone prefix (2).
pub open spec fn region_matches(mode: u8, r: GeoRegionFieldsView, key: Seq<char>) -> bool {
    if mode == 0 {
        lower(r.name) == key
    } else if mode == 1 {
        r.timezone == key
    } else {
        crate::text::starts_with(r.timezone, key)
    }
}

/// The first region of `c` from index `i` on that a lookup by `key` finds.
pub open spec fn find_region_from(c: Seq<GeoRegionFieldsView>, mode: u8, key: Seq<char>, i: nat) -> Option<
    int,
>
    decreases c.len() - i,
{
    if i >= c.len() {
        None
    } else if region_matches(mode, c[i as int], key) {
        Some(i as int)
    } else {
        find_region_from(c, mode, key, i + 1)
    }
}

proof fn lemma_find_region_range(c: Seq<GeoRegionFieldsView>, mode: u8, key: Seq<char>, i: nat)
    ensures
        find_region_from(c, mode, key, i) matches Some(k) ==> i <= k < c.len(),
    decreases c.len() - i,
{
    if i < c.len() {
        lemma_find_region_range(c, mode, key, i + 1);
    }
}

fn find_region(all: &Vec<GeoRegionFields>, mode: u8, key: &Vec<char>) -> (r: Option<usize>)
    ensures
        match find_region_from(all@.map_values(|g: GeoRegionFields| g@), mode, key@, 0) {
            Some(k) => r == Some(k as usize),
            None => r is None,
        },
{
    let ghost c = all@.map_values(|g: GeoRegionFields| g@);
    let mut i: usize = 0;
    while i < all.len()
        invariant
            i <= all@.len(),
            c == all@.map_values(|g: GeoRegionFields| g@),
            find_region_from(c, mode, key@, 0) == find_region_from(c, mode, key@, i as nat),
        decreases all@.len() - i,
    {
        assert(c[i as int] == all@[i as int]@);
        let hit = if mode == 0 {
            let n = lower_chars(&chars_of(all[i].name.as_str()));
            crate::text::seq_eq(&n, key)
        } else if mode == 1 {
            let t = chars_of(all[i].timezone.as_str());
            crate::text::seq_eq(&t, key)
        } else {
            let t = chars_of(all[i].timezone.as_str());
            crate::text::starts_with_chars(&t, key)
        };
        if hit {
            return Some(i);
        }
        i = i + 1;
    }
    None
}

/// The built-in region a name lookup finds: the first whose name equals
/// `name` ignoring ASCII case.
pub open spec fn region_by_name_spec(name: Seq<char>) -> Option<GeoRegionFieldsView> {
    match find_region_from(geo_region_catalog(), 0, lower(name), 0) {
        Some(k) => Some(geo_region_catalog()[k]),
        None => None,
    }
}

/// The built-in region a timezone lookup finds: the first with exactly that
/// timezone, else the first whose timezone starts with the timezone's IANA
/// area (what precedes its first `/`, or the whole string).
pub open spec fn region_by_timezone_spec(timezone: Seq<char>) -> Option<GeoRegionFieldsView> {
    match find_region_from(geo_region_catalog(), 1, timezone, 0) {
        Some(k) => Some(geo_region_catalog()[k]),
        None => match find_region_from(
            geo_region_catalog(),
            2,
            crate::text::before_first(timezone, "/"@),
            0,
        ) {
            Some(k) => Some(geo_region_catalog()[k]),
            None => None,
        },
    }
}

fn take_region(all: Vec<GeoRegionFields>, k: usize) -> (r: GeoRegionFields)
    requires
        k < all@.len(),
    ensures
        r@ == all@[k as int]@,
{
    let mut all = all;
    all.swap_remove(k)
}

/// Look up a built-in region by its name, ignoring ASCII case (see
/// [`region_by_name_spec`]).
pub fn geo_region_by_name(name: &str) -> (r: Option<GeoRegionFields>)
    ensures
        match region_by_name_spec(name@) {
            Some(g) => r matches Some(x) && x@ == g,
            None => r is None,
        },
{
    let all = geo_region_presets();
    let key = lower_chars(&chars_of(name));
    proof {
        lemma_find_region_range(geo_region_catalog(), 0, lower(name@), 0);
    }
    match find_region(&all, 0, &key) {
        Some(k) => {
            assert(all@[k as int]@ == geo_region_catalog()[k as int]);
            Some(take_region(all, k))
        },
        None => None,
    }
}

/// Look up a built-in region by timezone, falling back to a region whose
/// timezone starts with the same IANA area (see [`region_by_timezone_spec`]).
pub fn geo_region_by_timezone(timezone: &str) -> (r: Option<GeoRegionFields>)
    ensures
        match region_by_timezone_spec(timezone@) {
            Some(g) => r matches Some(x) && x@ == g,
            None => r is None,
        },
{
    let all = geo_region_presets();
    let tz = chars_of(timezone);
    proof {
        lemma_find_region_range(geo_region_catalog(), 1, timezone@, 0);
        lemma_find_region_range(
            geo_region_catalog(),
            2,
            crate::text::before_first(timezone@, "/"@),
            0,
        );
    }
    match find_region(&all, 1, &tz) {
        Some(k) => {
            assert(all@[k as int]@ == geo_region_catalog()[k as int]);
            return Some(take_region(all, k));
        },
        None => {},
    }
    let area = crate::text::before_first_exec(&tz, &crate::text::vchars("/"));
    match find_region(&all, 2, &area) {
        Some(k) => {
            assert(all@[k as int]@ == geo_region_catalog()[k as int]);
            Some(take_region(all, k))
        },
        None => None,
    }
}




proof fn lemma_differ_at(a: Seq<char>, b: Seq<char>, i: int)
    requires
        0 <= i < a.len(),
        i < b.len(),
        a[i] != b[i],
    ensures
        a != b,
{
}

proof fn lemma_literal_differ(a: Seq<char>, b: Seq<char>)
    requires
        a.len() != b.len() || (a.len() > 8 && b.len() > 8 && a[8] != b[8]) || (a.len() > 0 && b.len() > 0
            && a[0] != b[0]) || (a.len() > 1 && b.len() > 1 && a[1] != b[1]) || (a.len() > 7 && b.len()
            > 7 && a[7] != b[7]),
    ensures
        a != b,
{
}

/// The languages spoken in each catalogued country, by prevalence: English
/// in the United States, the United Kingdom and Australia; German then
/// English in Germany; French in France; Spanish in Spain; Dutch then
/// English in the Netherlands; Japanese in Japan; Chinese in China; English
/// then Hindi in India; English then French in Canada.
pub open spec fn country_languages(country: Seq<char>) -> Seq<Seq<char>> {
    if country == "US"@ || country == "GB"@ || country == "AU"@ {
        seq!["en"@]
    } else if country == "DE"@ {
        seq!["de"@, "en"@]
    } else if country == "FR"@ {
        seq!["fr"@]
    } else if country == "ES"@ {
        seq!["es"@]
    } else if country == "NL"@ {
        seq!["nl"@, "en"@]
    } else if country == "JP"@ {
        seq!["ja"@]
    } else if country == "CN"@ {
        seq!["zh"@]
    } else if country == "IN"@ {
        seq!["en"@, "hi"@]
    } else if country == "CA"@ {
        seq!["en"@, "fr"@]
    } else {
        Seq::empty()
    }
}

/// A timezone's languages are those of its country: every catalogued zone
/// expects the languages of the country it belongs to (so a French-Canadian
/// persona on Toronto time is coherent), and a zone outside the catalogue
/// expects none.
pub proof fn lemma_timezone_languages_are_country_languages(tz: Seq<char>)
    ensures
        timezone_languages_spec(tz) == match timezone_country_spec(tz) {
            Some(c) => country_languages(c),
            None => Seq::<Seq<char>>::empty(),
        },
{
    reveal_strlit("America/New_York");
    reveal_strlit("America/Chicago");
    reveal_strlit("America/Denver");
    reveal_strlit("America/Phoenix");
    reveal_strlit("America/Los_Angeles");
    reveal_strlit("Europe/London");
    reveal_strlit("Europe/Berlin");
    reveal_strlit("Europe/Paris");
    reveal_strlit("Europe/Madrid");
    reveal_strlit("Europe/Amsterdam");
    reveal_strlit("Asia/Tokyo");
    reveal_strlit("Asia/Shanghai");
    reveal_strlit("Asia/Kolkata");
    reveal_strlit("Australia/Sydney");
    reveal_strlit("America/Toronto");
    reveal_strlit("US");
    reveal_strlit("GB");
    reveal_strlit("DE");
    reveal_strlit("FR");
    reveal_strlit("ES");
    reveal_strlit("NL");
    reveal_strlit("JP");
    reveal_strlit("CN");
    reveal_strlit("IN");
    reveal_strlit("AU");
    reveal_strlit("CA");
    if tz == "America/New_York"@ {
        assert("America/New_York"@ != "America/Chicago"@) by { lemma_literal_differ("America/New_York"@, "America/Chicago"@); }
        assert("America/New_York"@ != "America/Denver"@) by { lemma_literal_differ("America/New_York"@, "America/Denver"@); }
        assert("America/New_York"@ != "America/Phoenix"@) by { lemma_literal_differ("America/New_York"@, "America/Phoenix"@); }
        assert("America/New_York"@ != "America/Los_Angeles"@) by { lemma_literal_differ("America/New_York"@, "America/Los_Angeles"@); }
        assert("America/New_York"@ != "Europe/London"@) by { lemma_literal_differ("America/New_York"@, "Europe/London"@); }
        assert("America/New_York"@ != "Europe/Berlin"@) by { lemma_literal_differ("America/New_York"@, "Europe/Berlin"@); }
        assert("America/New_York"@ != "Europe/Paris"@) by { lemma_literal_differ("America/New_York"@, "Europe/Paris"@); }
        assert("America/New_York"@ != "Europe/Madrid"@) by { lemma_literal_differ("America/New_York"@, "Europe/Madrid"@); }
        assert("America/New_York"@ != "Europe/Amsterdam"@) by { lemma_literal_differ("America/New_York"@, "Europe/Amsterdam"@); }
        assert("America/New_York"@ != "Asia/Tokyo"@) by { lemma_literal_differ("America/New_York"@, "Asia/Tokyo"@); }
        assert("America/New_York"@ != "Asia/Shanghai"@) by { lemma_literal_differ("America/New_York"@, "Asia/Shanghai"@); }
        assert("America/New_York"@ != "Asia/Kolkata"@) by { lemma_literal_differ("America/New_York"@, "Asia/Kolkata"@); }
        assert("America/New_York"@ != "Australia/Sydney"@) by { lemma_literal_differ("America/New_York"@, "Australia/Sydney"@); }
        assert("America/New_York"@ != "America/Toronto"@) by { lemma_literal_differ("America/New_York"@, "America/Toronto"@); }
        assert(timezone_country_spec(tz) == Some("US"@));
        assert(timezone_languages_spec(tz) == seq!["en"@]);
        assert("US"@ != "GB"@) by { lemma_literal_differ("US"@, "GB"@); }
        assert("US"@ != "AU"@) by { lemma_literal_differ("US"@, "AU"@); }
        assert("US"@ != "DE"@) by { lemma_literal_differ("US"@, "DE"@); }
        assert("US"@ != "FR"@) by { lemma_literal_differ("US"@, "FR"@); }
        assert("US"@ != "ES"@) by { lemma_literal_differ("US"@, "ES"@); }
        assert("US"@ != "NL"@) by { lemma_literal_differ("US"@, "NL"@); }
        assert("US"@ != "JP"@) by { lemma_literal_differ("US"@, "JP"@); }
        assert("US"@ != "CN"@) by { lemma_literal_differ("US"@, "CN"@); }
        assert("US"@ != "IN"@) by { lemma_literal_differ("US"@, "IN"@); }
        assert("US"@ != "CA"@) by { lemma_literal_differ("US"@, "CA"@); }
        assert(country_languages("US"@) == seq!["en"@]);
    } else if tz == "America/Chicago"@ {
        assert("America/Chicago"@ != "America/New_York"@) by { lemma_literal_differ("America/Chicago"@, "America/New_York"@); }
        assert("America/Chicago"@ != "America/Denver"@) by { lemma_literal_differ("America/Chicago"@, "America/Denver"@); }
        assert("America/Chicago"@ != "America/Phoenix"@) by { lemma_literal_differ("America/Chicago"@, "America/Phoenix"@); }
        assert("America/Chicago"@ != "America/Los_Angeles"@) by { lemma_literal_differ("America/Chicago"@, "America/Los_Angeles"@); }
        assert("America/Chicago"@ != "Europe/London"@) by { lemma_literal_differ("America/Chicago"@, "Europe/London"@); }
        assert("America/Chicago"@ != "Europe/Berlin"@) by { lemma_literal_differ("America/Chicago"@, "Europe/Berlin"@); }
        assert("America/Chicago"@ != "Europe/Paris"@) by { lemma_literal_differ("America/Chicago"@, "Europe/Paris"@); }
        assert("America/Chicago"@ != "Europe/Madrid"@) by { lemma_literal_differ("America/Chicago"@, "Europe/Madrid"@); }
        assert("America/Chicago"@ != "Europe/Amsterdam"@) by { lemma_literal_differ("America/Chicago"@, "Europe/Amsterdam"@); }
        assert("America/Chicago"@ != "Asia/Tokyo"@) by { lemma_literal_differ("America/Chicago"@, "Asia/Tokyo"@); }
        assert("America/Chicago"@ != "Asia/Shanghai"@) by { lemma_literal_differ("America/Chicago"@, "Asia/Shanghai"@); }
        assert("America/Chicago"@ != "Asia/Kolkata"@) by { lemma_literal_differ("America/Chicago"@, "Asia/Kolkata"@); }
        assert("America/Chicago"@ != "Australia/Sydney"@) by { lemma_literal_differ("America/Chicago"@, "Australia/Sydney"@); }
        assert("America/Chicago"@ != "America/Toronto"@) by { lemma_literal_differ("America/Chicago"@, "America/Toronto"@); }
        assert(timezone_country_spec(tz) == Some("US"@));
        assert(timezone_languages_spec(tz) == seq!["en"@]);
        assert("US"@ != "GB"@) by { lemma_literal_differ("US"@, "GB"@); }
        assert("US"@ != "AU"@) by { lemma_literal_differ("US"@, "AU"@); }
        assert("US"@ != "DE"@) by { lemma_literal_differ("US"@, "DE"@); }
        assert("US"@ != "FR"@) by { lemma_literal_differ("US"@, "FR"@); }
        assert("US"@ != "ES"@) by { lemma_literal_differ("US"@, "ES"@); }
        assert("US"@ != "NL"@) by { lemma_literal_differ("US"@, "NL"@); }
        assert("US"@ != "JP"@) by { lemma_literal_differ("US"@, "JP"@); }
        assert("US"@ != "CN"@) by { lemma_literal_differ("US"@, "CN"@); }
        assert("US"@ != "IN"@) by { lemma_literal_differ("US"@, "IN"@); }
        assert("US"@ != "CA"@) by { lemma_literal_differ("US"@, "CA"@); }
        assert(country_languages("US"@) == seq!["en"@]);
    } else if tz == "America/Denver"@ {
        assert("America/Denver"@ != "America/New_York"@) by { lemma_literal_differ("America/Denver"@, "America/New_York"@); }
        assert("America/Denver"@ != "America/Chicago"@) by { lemma_literal_differ("America/Denver"@, "America/Chicago"@); }
        assert("America/Denver"@ != "America/Phoenix"@) by { lemma_literal_differ("America/Denver"@, "America/Phoenix"@); }
        assert("America/Denver"@ != "America/Los_Angeles"@) by { lemma_literal_differ("America/Denver"@, "America/Los_Angeles"@); }
        assert("America/Denver"@ != "Europe/London"@) by { lemma_literal_differ("America/Denver"@, "Europe/London"@); }
        assert("America/Denver"@ != "Europe/Berlin"@) by { lemma_literal_differ("America/Denver"@, "Europe/Berlin"@); }
        assert("America/Denver"@ != "Europe/Paris"@) by { lemma_literal_differ("America/Denver"@, "Europe/Paris"@); }
        assert("America/Denver"@ != "Europe/Madrid"@) by { lemma_literal_differ("America/Denver"@, "Europe/Madrid"@); }
        assert("America/Denver"@ != "Europe/Amsterdam"@) by { lemma_literal_differ("America/Denver"@, "Europe/Amsterdam"@); }
        assert("America/Denver"@ != "Asia/Tokyo"@) by { lemma_literal_differ("America/Denver"@, "Asia/Tokyo"@); }
        assert("America/Denver"@ != "Asia/Shanghai"@) by { lemma_literal_differ("America/Denver"@, "Asia/Shanghai"@); }
        assert("America/Denver"@ != "Asia/Kolkata"@) by { lemma_literal_differ("America/Denver"@, "Asia/Kolkata"@); }
        assert("America/Denver"@ != "Australia/Sydney"@) by { lemma_literal_differ("America/Denver"@, "Australia/Sydney"@); }
        assert("America/Denver"@ != "America/Toronto"@) by { lemma_literal_differ("America/Denver"@, "America/Toronto"@); }
        assert(timezone_country_spec(tz) == Some("US"@));
        assert(timezone_languages_spec(tz) == seq!["en"@]);
        assert("US"@ != "GB"@) by { lemma_literal_differ("US"@, "GB"@); }
        assert("US"@ != "AU"@) by { lemma_literal_differ("US"@, "AU"@); }
        assert("US"@ != "DE"@) by { lemma_literal_differ("US"@, "DE"@); }
        assert("US"@ != "FR"@) by { lemma_literal_differ("US"@, "FR"@); }
        assert("US"@ != "ES"@) by { lemma_literal_differ("US"@, "ES"@); }
        assert("US"@ != "NL"@) by { lemma_literal_differ("US"@, "NL"@); }
        assert("US"@ != "JP"@) by { lemma_literal_differ("US"@, "JP"@); }
        assert("US"@ != "CN"@) by { lemma_literal_differ("US"@, "CN"@); }
        assert("US"@ != "IN"@) by { lemma_literal_differ("US"@, "IN"@); }
        assert("US"@ != "CA"@) by { lemma_literal_differ("US"@, "CA"@); }
        assert(country_languages("US"@) == seq!["en"@]);
    } else if tz == "America/Phoenix"@ {
        assert("America/Phoenix"@ != "America/New_York"@) by { lemma_literal_differ("America/Phoenix"@, "America/New_York"@); }
        assert("America/Phoenix"@ != "America/Chicago"@) by { lemma_literal_differ("America/Phoenix"@, "America/Chicago"@); }
        assert("America/Phoenix"@ != "America/Denver"@) by { lemma_literal_differ("America/Phoenix"@, "America/Denver"@); }
        assert("America/Phoenix"@ != "America/Los_Angeles"@) by { lemma_literal_differ("America/Phoenix"@, "America/Los_Angeles"@); }
        assert("America/Phoenix"@ != "Europe/London"@) by { lemma_literal_differ("America/Phoenix"@, "Europe/London"@); }
        assert("America/Phoenix"@ != "Europe/Berlin"@) by { lemma_literal_differ("America/Phoenix"@, "Europe/Berlin"@); }
        assert("America/Phoenix"@ != "Europe/Paris"@) by { lemma_literal_differ("America/Phoenix"@, "Europe/Paris"@); }
        assert("America/Phoenix"@ != "Europe/Madrid"@) by { lemma_literal_differ("America/Phoenix"@, "Europe/Madrid"@); }
        assert("America/Phoenix"@ != "Europe/Amsterdam"@) by { lemma_literal_differ("America/Phoenix"@, "Europe/Amsterdam"@); }
        assert("America/Phoenix"@ != "Asia/Tokyo"@) by { lemma_literal_differ("America/Phoenix"@, "Asia/Tokyo"@); }
        assert("America/Phoenix"@ != "Asia/Shanghai"@) by { lemma_literal_differ("America/Phoenix"@, "Asia/Shanghai"@); }
        assert("America/Phoenix"@ != "Asia/Kolkata"@) by { lemma_literal_differ("America/Phoenix"@, "Asia/Kolkata"@); }
        assert("America/Phoenix"@ != "Australia/Sydney"@) by { lemma_literal_differ("America/Phoenix"@, "Australia/Sydney"@); }
        assert("America/Phoenix"@ != "America/Toronto"@) by { lemma_literal_differ("America/Phoenix"@, "America/Toronto"@); }
        assert(timezone_country_spec(tz) == Some("US"@));
        assert(timezone_languages_spec(tz) == seq!["en"@]);
        assert("US"@ != "GB"@) by { lemma_literal_differ("US"@, "GB"@); }
        assert("US"@ != "AU"@) by { lemma_literal_differ("US"@, "AU"@); }
        assert("US"@ != "DE"@) by { lemma_literal_differ("US"@, "DE"@); }
        assert("US"@ != "FR"@) by { lemma_literal_differ("US"@, "FR"@); }
        assert("US"@ != "ES"@) by { lemma_literal_differ("US"@, "ES"@); }
        assert("US"@ != "NL"@) by { lemma_literal_differ("US"@, "NL"@); }
        assert("US"@ != "JP"@) by { lemma_literal_differ("US"@, "JP"@); }
        assert("US"@ != "CN"@) by { lemma_literal_differ("US"@, "CN"@); }
        assert("US"@ != "IN"@) by { lemma_literal_differ("US"@, "IN"@); }
        assert("US"@ != "CA"@) by { lemma_literal_differ("US"@, "CA"@); }
        assert(country_languages("US"@) == seq!["en"@]);
    } else if tz == "America/Los_Angeles"@ {
        assert("America/Los_Angeles"@ != "America/New_York"@) by { lemma_literal_differ("America/Los_Angeles"@, "America/New_York"@); }
        assert("America/Los_Angeles"@ != "America/Chicago"@) by { lemma_literal_differ("America/Los_Angeles"@, "America/Chicago"@); }
        assert("America/Los_Angeles"@ != "America/Denver"@) by { lemma_literal_differ("America/Los_Angeles"@, "America/Denver"@); }
        assert("America/Los_Angeles"@ != "America/Phoenix"@) by { lemma_literal_differ("America/Los_Angeles"@, "America/Phoenix"@); }
        assert("America/Los_Angeles"@ != "Europe/London"@) by { lemma_literal_differ("America/Los_Angeles"@, "Europe/London"@); }
        assert("America/Los_Angeles"@ != "Europe/Berlin"@) by { lemma_literal_differ("America/Los_Angeles"@, "Europe/Berlin"@); }
        assert("America/Los_Angeles"@ != "Europe/Paris"@) by { lemma_literal_differ("America/Los_Angeles"@, "Europe/Paris"@); }
        assert("America/Los_Angeles"@ != "Europe/Madrid"@) by { lemma_literal_differ("America/Los_Angeles"@, "Europe/Madrid"@); }
        assert("America/Los_Angeles"@ != "Europe/Amsterdam"@) by { lemma_literal_differ("America/Los_Angeles"@, "Europe/Amsterdam"@); }
        assert("America/Los_Angeles"@ != "Asia/Tokyo"@) by { lemma_literal_differ("America/Los_Angeles"@, "Asia/Tokyo"@); }
        assert("America/Los_Angeles"@ != "Asia/Shanghai"@) by { lemma_literal_differ("America/Los_Angeles"@, "Asia/Shanghai"@); }
        assert("America/Los_Angeles"@ != "Asia/Kolkata"@) by { lemma_literal_differ("America/Los_Angeles"@, "Asia/Kolkata"@); }
        assert("America/Los_Angeles"@ != "Australia/Sydney"@) by { lemma_literal_differ("America/Los_Angeles"@, "Australia/Sydney"@); }
        assert("America/Los_Angeles"@ != "America/Toronto"@) by { lemma_literal_differ("America/Los_Angeles"@, "America/Toronto"@); }
        assert(timezone_country_spec(tz) == Some("US"@));
        assert(timezone_languages_spec(tz) == seq!["en"@]);
        assert("US"@ != "GB"@) by { lemma_literal_differ("US"@, "GB"@); }
        assert("US"@ != "AU"@) by { lemma_literal_differ("US"@, "AU"@); }
        assert("US"@ != "DE"@) by { lemma_literal_differ("US"@, "DE"@); }
        assert("US"@ != "FR"@) by { lemma_literal_differ("US"@, "FR"@); }
        assert("US"@ != "ES"@) by { lemma_literal_differ("US"@, "ES"@); }
        assert("US"@ != "NL"@) by { lemma_literal_differ("US"@, "NL"@); }
        assert("US"@ != "JP"@) by { lemma_literal_differ("US"@, "JP"@); }
        assert("US"@ != "CN"@) by { lemma_literal_differ("US"@, "CN"@); }
        assert("US"@ != "IN"@) by { lemma_literal_differ("US"@, "IN"@); }
        assert("US"@ != "CA"@) by { lemma_literal_differ("US"@, "CA"@); }
        assert(country_languages("US"@) == seq!["en"@]);
    } else if tz == "Europe/London"@ {
        assert("Europe/London"@ != "America/New_York"@) by { lemma_literal_differ("Europe/London"@, "America/New_York"@); }
        assert("Europe/London"@ != "America/Chicago"@) by { lemma_literal_differ("Europe/London"@, "America/Chicago"@); }
        assert("Europe/London"@ != "America/Denver"@) by { lemma_literal_differ("Europe/London"@, "America/Denver"@); }
        assert("Europe/London"@ != "America/Phoenix"@) by { lemma_literal_differ("Europe/London"@, "America/Phoenix"@); }
        assert("Europe/London"@ != "America/Los_Angeles"@) by { lemma_literal_differ("Europe/London"@, "America/Los_Angeles"@); }
        assert("Europe/London"@ != "Europe/Berlin"@) by { lemma_literal_differ("Europe/London"@, "Europe/Berlin"@); }
        assert("Europe/London"@ != "Europe/Paris"@) by { lemma_literal_differ("Europe/London"@, "Europe/Paris"@); }
        assert("Europe/London"@ != "Europe/Madrid"@) by { lemma_literal_differ("Europe/London"@, "Europe/Madrid"@); }
        assert("Europe/London"@ != "Europe/Amsterdam"@) by { lemma_literal_differ("Europe/London"@, "Europe/Amsterdam"@); }
        assert("Europe/London"@ != "Asia/Tokyo"@) by { lemma_literal_differ("Europe/London"@, "Asia/Tokyo"@); }
        assert("Europe/London"@ != "Asia/Shanghai"@) by { lemma_literal_differ("Europe/London"@, "Asia/Shanghai"@); }
        assert("Europe/London"@ != "Asia/Kolkata"@) by { lemma_literal_differ("Europe/London"@, "Asia/Kolkata"@); }
        assert("Europe/London"@ != "Australia/Sydney"@) by { lemma_literal_differ("Europe/London"@, "Australia/Sydney"@); }
        assert("Europe/London"@ != "America/Toronto"@) by { lemma_literal_differ("Europe/London"@, "America/Toronto"@); }
        assert(timezone_country_spec(tz) == Some("GB"@));
        assert(timezone_languages_spec(tz) == seq!["en"@]);
        assert("GB"@ != "US"@) by { lemma_literal_differ("GB"@, "US"@); }
        assert("GB"@ != "AU"@) by { lemma_literal_differ("GB"@, "AU"@); }
        assert("GB"@ != "DE"@) by { lemma_literal_differ("GB"@, "DE"@); }
        assert("GB"@ != "FR"@) by { lemma_literal_differ("GB"@, "FR"@); }
        assert("GB"@ != "ES"@) by { lemma_literal_differ("GB"@, "ES"@); }
        assert("GB"@ != "NL"@) by { lemma_literal_differ("GB"@, "NL"@); }
        assert("GB"@ != "JP"@) by { lemma_literal_differ("GB"@, "JP"@); }
        assert("GB"@ != "CN"@) by { lemma_literal_differ("GB"@, "CN"@); }
        assert("GB"@ != "IN"@) by { lemma_literal_differ("GB"@, "IN"@); }
        assert("GB"@ != "CA"@) by { lemma_literal_differ("GB"@, "CA"@); }
        assert(country_languages("GB"@) == seq!["en"@]);
    } else if tz == "Europe/Berlin"@ {
        assert("Europe/Berlin"@ != "America/New_York"@) by { lemma_literal_differ("Europe/Berlin"@, "America/New_York"@); }
        assert("Europe/Berlin"@ != "America/Chicago"@) by { lemma_literal_differ("Europe/Berlin"@, "America/Chicago"@); }
        assert("Europe/Berlin"@ != "America/Denver"@) by { lemma_literal_differ("Europe/Berlin"@, "America/Denver"@); }
        assert("Europe/Berlin"@ != "America/Phoenix"@) by { lemma_literal_differ("Europe/Berlin"@, "America/Phoenix"@); }
        assert("Europe/Berlin"@ != "America/Los_Angeles"@) by { lemma_literal_differ("Europe/Berlin"@, "America/Los_Angeles"@); }
        assert("Europe/Berlin"@ != "Europe/London"@) by { lemma_literal_differ("Europe/Berlin"@, "Europe/London"@); }
        assert("Europe/Berlin"@ != "Europe/Paris"@) by { lemma_literal_differ("Europe/Berlin"@, "Europe/Paris"@); }
        assert("Europe/Berlin"@ != "Europe/Madrid"@) by { lemma_literal_differ("Europe/Berlin"@, "Europe/Madrid"@); }
        assert("Europe/Berlin"@ != "Europe/Amsterdam"@) by { lemma_literal_differ("Europe/Berlin"@, "Europe/Amsterdam"@); }
        assert("Europe/Berlin"@ != "Asia/Tokyo"@) by { lemma_literal_differ("Europe/Berlin"@, "Asia/Tokyo"@); }
        assert("Europe/Berlin"@ != "Asia/Shanghai"@) by { lemma_literal_differ("Europe/Berlin"@, "Asia/Shanghai"@); }
        assert("Europe/Berlin"@ != "Asia/Kolkata"@) by { lemma_literal_differ("Europe/Berlin"@, "Asia/Kolkata"@); }
        assert("Europe/Berlin"@ != "Australia/Sydney"@) by { lemma_literal_differ("Europe/Berlin"@, "Australia/Sydney"@); }
        assert("Europe/Berlin"@ != "America/Toronto"@) by { lemma_literal_differ("Europe/Berlin"@, "America/Toronto"@); }
        assert(timezone_country_spec(tz) == Some("DE"@));
        assert(timezone_languages_spec(tz) == seq!["de"@, "en"@]);
        assert("DE"@ != "US"@) by { lemma_literal_differ("DE"@, "US"@); }
        assert("DE"@ != "GB"@) by { lemma_literal_differ("DE"@, "GB"@); }
        assert("DE"@ != "AU"@) by { lemma_literal_differ("DE"@, "AU"@); }
        assert("DE"@ != "FR"@) by { lemma_literal_differ("DE"@, "FR"@); }
        assert("DE"@ != "ES"@) by { lemma_literal_differ("DE"@, "ES"@); }
        assert("DE"@ != "NL"@) by { lemma_literal_differ("DE"@, "NL"@); }
        assert("DE"@ != "JP"@) by { lemma_literal_differ("DE"@, "JP"@); }
        assert("DE"@ != "CN"@) by { lemma_literal_differ("DE"@, "CN"@); }
        assert("DE"@ != "IN"@) by { lemma_literal_differ("DE"@, "IN"@); }
        assert("DE"@ != "CA"@) by { lemma_literal_differ("DE"@, "CA"@); }
        assert(country_languages("DE"@) == seq!["de"@, "en"@]);
    } else if tz == "Europe/Paris"@ {
        assert("Europe/Paris"@ != "America/New_York"@) by { lemma_literal_differ("Europe/Paris"@, "America/New_York"@); }
        assert("Europe/Paris"@ != "America/Chicago"@) by { lemma_literal_differ("Europe/Paris"@, "America/Chicago"@); }
        assert("Europe/Paris"@ != "America/Denver"@) by { lemma_literal_differ("Europe/Paris"@, "America/Denver"@); }
        assert("Europe/Paris"@ != "America/Phoenix"@) by { lemma_literal_differ("Europe/Paris"@, "America/Phoenix"@); }
        assert("Europe/Paris"@ != "America/Los_Angeles"@) by { lemma_literal_differ("Europe/Paris"@, "America/Los_Angeles"@); }
        assert("Europe/Paris"@ != "Europe/London"@) by { lemma_literal_differ("Europe/Paris"@, "Europe/London"@); }
        assert("Europe/Paris"@ != "Europe/Berlin"@) by { lemma_literal_differ("Europe/Paris"@, "Europe/Berlin"@); }
        assert("Europe/Paris"@ != "Europe/Madrid"@) by { lemma_literal_differ("Europe/Paris"@, "Europe/Madrid"@); }
        assert("Europe/Paris"@ != "Europe/Amsterdam"@) by { lemma_literal_differ("Europe/Paris"@, "Europe/Amsterdam"@); }
        assert("Europe/Paris"@ != "Asia/Tokyo"@) by { lemma_literal_differ("Europe/Paris"@, "Asia/Tokyo"@); }
        assert("Europe/Paris"@ != "Asia/Shanghai"@) by { lemma_literal_differ("Europe/Paris"@, "Asia/Shanghai"@); }
        assert("Europe/Paris"@ != "Asia/Kolkata"@) by { lemma_literal_differ("Europe/Paris"@, "Asia/Kolkata"@); }
        assert("Europe/Paris"@ != "Australia/Sydney"@) by { lemma_literal_differ("Europe/Paris"@, "Australia/Sydney"@); }
        assert("Europe/Paris"@ != "America/Toronto"@) by { lemma_literal_differ("Europe/Paris"@, "America/Toronto"@); }
        assert(timezone_country_spec(tz) == Some("FR"@));
        assert(timezone_languages_spec(tz) == seq!["fr"@]);
        assert("FR"@ != "US"@) by { lemma_literal_differ("FR"@, "US"@); }
        assert("FR"@ != "GB"@) by { lemma_literal_differ("FR"@, "GB"@); }
        assert("FR"@ != "AU"@) by { lemma_literal_differ("FR"@, "AU"@); }
        assert("FR"@ != "DE"@) by { lemma_literal_differ("FR"@, "DE"@); }
        assert("FR"@ != "ES"@) by { lemma_literal_differ("FR"@, "ES"@); }
        assert("FR"@ != "NL"@) by { lemma_literal_differ("FR"@, "NL"@); }
        assert("FR"@ != "JP"@) by { lemma_literal_differ("FR"@, "JP"@); }
        assert("FR"@ != "CN"@) by { lemma_literal_differ("FR"@, "CN"@); }
        assert("FR"@ != "IN"@) by { lemma_literal_differ("FR"@, "IN"@); }
        assert("FR"@ != "CA"@) by { lemma_literal_differ("FR"@, "CA"@); }
        assert(country_languages("FR"@) == seq!["fr"@]);
    } else if tz == "Europe/Madrid"@ {
        assert("Europe/Madrid"@ != "America/New_York"@) by { lemma_literal_differ("Europe/Madrid"@, "America/New_York"@); }
        assert("Europe/Madrid"@ != "America/Chicago"@) by { lemma_literal_differ("Europe/Madrid"@, "America/Chicago"@); }
        assert("Europe/Madrid"@ != "America/Denver"@) by { lemma_literal_differ("Europe/Madrid"@, "America/Denver"@); }
        assert("Europe/Madrid"@ != "America/Phoenix"@) by { lemma_literal_differ("Europe/Madrid"@, "America/Phoenix"@); }
        assert("Europe/Madrid"@ != "America/Los_Angeles"@) by { lemma_literal_differ("Europe/Madrid"@, "America/Los_Angeles"@); }
        assert("Europe/Madrid"@ != "Europe/London"@) by { lemma_literal_differ("Europe/Madrid"@, "Europe/London"@); }
        assert("Europe/Madrid"@ != "Europe/Berlin"@) by { lemma_literal_differ("Europe/Madrid"@, "Europe/Berlin"@); }
        assert("Europe/Madrid"@ != "Europe/Paris"@) by { lemma_literal_differ("Europe/Madrid"@, "Europe/Paris"@); }
        assert("Europe/Madrid"@ != "Europe/Amsterdam"@) by { lemma_literal_differ("Europe/Madrid"@, "Europe/Amsterdam"@); }
        assert("Europe/Madrid"@ != "Asia/Tokyo"@) by { lemma_literal_differ("Europe/Madrid"@, "Asia/Tokyo"@); }
        assert("Europe/Madrid"@ != "Asia/Shanghai"@) by { lemma_literal_differ("Europe/Madrid"@, "Asia/Shanghai"@); }
        assert("Europe/Madrid"@ != "Asia/Kolkata"@) by { lemma_literal_differ("Europe/Madrid"@, "Asia/Kolkata"@); }
        assert("Europe/Madrid"@ != "Australia/Sydney"@) by { lemma_literal_differ("Europe/Madrid"@, "Australia/Sydney"@); }
        assert("Europe/Madrid"@ != "America/Toronto"@) by { lemma_literal_differ("Europe/Madrid"@, "America/Toronto"@); }
        assert(timezone_country_spec(tz) == Some("ES"@));
        assert(timezone_languages_spec(tz) == seq!["es"@]);
        assert("ES"@ != "US"@) by { lemma_literal_differ("ES"@, "US"@); }
        assert("ES"@ != "GB"@) by { lemma_literal_differ("ES"@, "GB"@); }
        assert("ES"@ != "AU"@) by { lemma_literal_differ("ES"@, "AU"@); }
        assert("ES"@ != "DE"@) by { lemma_literal_differ("ES"@, "DE"@); }
        assert("ES"@ != "FR"@) by { lemma_literal_differ("ES"@, "FR"@); }
        assert("ES"@ != "NL"@) by { lemma_literal_differ("ES"@, "NL"@); }
        assert("ES"@ != "JP"@) by { lemma_literal_differ("ES"@, "JP"@); }
        assert("ES"@ != "CN"@) by { lemma_literal_differ("ES"@, "CN"@); }
        assert("ES"@ != "IN"@) by { lemma_literal_differ("ES"@, "IN"@); }
        assert("ES"@ != "CA"@) by { lemma_literal_differ("ES"@, "CA"@); }
        assert(country_languages("ES"@) == seq!["es"@]);
    } else if tz == "Europe/Amsterdam"@ {
        assert("Europe/Amsterdam"@ != "America/New_York"@) by { lemma_literal_differ("Europe/Amsterdam"@, "America/New_York"@); }
        assert("Europe/Amsterdam"@ != "America/Chicago"@) by { lemma_literal_differ("Europe/Amsterdam"@, "America/Chicago"@); }
        assert("Europe/Amsterdam"@ != "America/Denver"@) by { lemma_literal_differ("Europe/Amsterdam"@, "America/Denver"@); }
        assert("Europe/Amsterdam"@ != "America/Phoenix"@) by { lemma_literal_differ("Europe/Amsterdam"@, "America/Phoenix"@); }
        assert("Europe/Amsterdam"@ != "America/Los_Angeles"@) by { lemma_literal_differ("Europe/Amsterdam"@, "America/Los_Angeles"@); }
        assert("Europe/Amsterdam"@ != "Europe/London"@) by { lemma_literal_differ("Europe/Amsterdam"@, "Europe/London"@); }
        assert("Europe/Amsterdam"@ != "Europe/Berlin"@) by { lemma_literal_differ("Europe/Amsterdam"@, "Europe/Berlin"@); }
        assert("Europe/Amsterdam"@ != "Europe/Paris"@) by { lemma_literal_differ("Europe/Amsterdam"@, "Europe/Paris"@); }
        assert("Europe/Amsterdam"@ != "Europe/Madrid"@) by { lemma_literal_differ("Europe/Amsterdam"@, "Europe/Madrid"@); }
        assert("Europe/Amsterdam"@ != "Asia/Tokyo"@) by { lemma_literal_differ("Europe/Amsterdam"@, "Asia/Tokyo"@); }
        assert("Europe/Amsterdam"@ != "Asia/Shanghai"@) by { lemma_literal_differ("Europe/Amsterdam"@, "Asia/Shanghai"@); }
        assert("Europe/Amsterdam"@ != "Asia/Kolkata"@) by { lemma_literal_differ("Europe/Amsterdam"@, "Asia/Kolkata"@); }
        assert("Europe/Amsterdam"@ != "Australia/Sydney"@) by { lemma_literal_differ("Europe/Amsterdam"@, "Australia/Sydney"@); }
        assert("Europe/Amsterdam"@ != "America/Toronto"@) by { lemma_literal_differ("Europe/Amsterdam"@, "America/Toronto"@); }
        assert(timezone_country_spec(tz) == Some("NL"@));
        assert(timezone_languages_spec(tz) == seq!["nl"@, "en"@]);
        assert("NL"@ != "US"@) by { lemma_literal_differ("NL"@, "US"@); }
        assert("NL"@ != "GB"@) by { lemma_literal_differ("NL"@, "GB"@); }
        assert("NL"@ != "AU"@) by { lemma_literal_differ("NL"@, "AU"@); }
        assert("NL"@ != "DE"@) by { lemma_literal_differ("NL"@, "DE"@); }
        assert("NL"@ != "FR"@) by { lemma_literal_differ("NL"@, "FR"@); }
        assert("NL"@ != "ES"@) by { lemma_literal_differ("NL"@, "ES"@); }
        assert("NL"@ != "JP"@) by { lemma_literal_differ("NL"@, "JP"@); }
        assert("NL"@ != "CN"@) by { lemma_literal_differ("NL"@, "CN"@); }
        assert("NL"@ != "IN"@) by { lemma_literal_differ("NL"@, "IN"@); }
        assert("NL"@ != "CA"@) by { lemma_literal_differ("NL"@, "CA"@); }
        assert(country_languages("NL"@) == seq!["nl"@, "en"@]);
    } else if tz == "Asia/Tokyo"@ {
        assert("Asia/Tokyo"@ != "America/New_York"@) by { lemma_literal_differ("Asia/Tokyo"@, "America/New_York"@); }
        assert("Asia/Tokyo"@ != "America/Chicago"@) by { lemma_literal_differ("Asia/Tokyo"@, "America/Chicago"@); }
        assert("Asia/Tokyo"@ != "America/Denver"@) by { lemma_literal_differ("Asia/Tokyo"@, "America/Denver"@); }
        assert("Asia/Tokyo"@ != "America/Phoenix"@) by { lemma_literal_differ("Asia/Tokyo"@, "America/Phoenix"@); }
        assert("Asia/Tokyo"@ != "America/Los_Angeles"@) by { lemma_literal_differ("Asia/Tokyo"@, "America/Los_Angeles"@); }
        assert("Asia/Tokyo"@ != "Europe/London"@) by { lemma_literal_differ("Asia/Tokyo"@, "Europe/London"@); }
        assert("Asia/Tokyo"@ != "Europe/Berlin"@) by { lemma_literal_differ("Asia/Tokyo"@, "Europe/Berlin"@); }
        assert("Asia/Tokyo"@ != "Europe/Paris"@) by { lemma_literal_differ("Asia/Tokyo"@, "Europe/Paris"@); }
        assert("Asia/Tokyo"@ != "Europe/Madrid"@) by { lemma_literal_differ("Asia/Tokyo"@, "Europe/Madrid"@); }
        assert("Asia/Tokyo"@ != "Europe/Amsterdam"@) by { lemma_literal_differ("Asia/Tokyo"@, "Europe/Amsterdam"@); }
        assert("Asia/Tokyo"@ != "Asia/Shanghai"@) by { lemma_literal_differ("Asia/Tokyo"@, "Asia/Shanghai"@); }
        assert("Asia/Tokyo"@ != "Asia/Kolkata"@) by { lemma_literal_differ("Asia/Tokyo"@, "Asia/Kolkata"@); }
        assert("Asia/Tokyo"@ != "Australia/Sydney"@) by { lemma_literal_differ("Asia/Tokyo"@, "Australia/Sydney"@); }
        assert("Asia/Tokyo"@ != "America/Toronto"@) by { lemma_literal_differ("Asia/Tokyo"@, "America/Toronto"@); }
        assert(timezone_country_spec(tz) == Some("JP"@));
        assert(timezone_languages_spec(tz) == seq!["ja"@]);
        assert("JP"@ != "US"@) by { lemma_literal_differ("JP"@, "US"@); }
        assert("JP"@ != "GB"@) by { lemma_literal_differ("JP"@, "GB"@); }
        assert("JP"@ != "AU"@) by { lemma_literal_differ("JP"@, "AU"@); }
        assert("JP"@ != "DE"@) by { lemma_literal_differ("JP"@, "DE"@); }
        assert("JP"@ != "FR"@) by { lemma_literal_differ("JP"@, "FR"@); }
        assert("JP"@ != "ES"@) by { lemma_literal_differ("JP"@, "ES"@); }
        assert("JP"@ != "NL"@) by { lemma_literal_differ("JP"@, "NL"@); }
        assert("JP"@ != "CN"@) by { lemma_literal_differ("JP"@, "CN"@); }
        assert("JP"@ != "IN"@) by { lemma_literal_differ("JP"@, "IN"@); }
        assert("JP"@ != "CA"@) by { lemma_literal_differ("JP"@, "CA"@); }
        assert(country_languages("JP"@) == seq!["ja"@]);
    } else if tz == "Asia/Shanghai"@ {
        assert("Asia/Shanghai"@ != "America/New_York"@) by { lemma_literal_differ("Asia/Shanghai"@, "America/New_York"@); }
        assert("Asia/Shanghai"@ != "America/Chicago"@) by { lemma_literal_differ("Asia/Shanghai"@, "America/Chicago"@); }
        assert("Asia/Shanghai"@ != "America/Denver"@) by { lemma_literal_differ("Asia/Shanghai"@, "America/Denver"@); }
        assert("Asia/Shanghai"@ != "America/Phoenix"@) by { lemma_literal_differ("Asia/Shanghai"@, "America/Phoenix"@); }
        assert("Asia/Shanghai"@ != "America/Los_Angeles"@) by { lemma_literal_differ("Asia/Shanghai"@, "America/Los_Angeles"@); }
        assert("Asia/Shanghai"@ != "Europe/London"@) by { lemma_literal_differ("Asia/Shanghai"@, "Europe/London"@); }
        assert("Asia/Shanghai"@ != "Europe/Berlin"@) by { lemma_literal_differ("Asia/Shanghai"@, "Europe/Berlin"@); }
        assert("Asia/Shanghai"@ != "Europe/Paris"@) by { lemma_literal_differ("Asia/Shanghai"@, "Europe/Paris"@); }
        assert("Asia/Shanghai"@ != "Europe/Madrid"@) by { lemma_literal_differ("Asia/Shanghai"@, "Europe/Madrid"@); }
        assert("Asia/Shanghai"@ != "Europe/Amsterdam"@) by { lemma_literal_differ("Asia/Shanghai"@, "Europe/Amsterdam"@); }
        assert("Asia/Shanghai"@ != "Asia/Tokyo"@) by { lemma_literal_differ("Asia/Shanghai"@, "Asia/Tokyo"@); }
        assert("Asia/Shanghai"@ != "Asia/Kolkata"@) by { lemma_literal_differ("Asia/Shanghai"@, "Asia/Kolkata"@); }
        assert("Asia/Shanghai"@ != "Australia/Sydney"@) by { lemma_literal_differ("Asia/Shanghai"@, "Australia/Sydney"@); }
        assert("Asia/Shanghai"@ != "America/Toronto"@) by { lemma_literal_differ("Asia/Shanghai"@, "America/Toronto"@); }
        assert(timezone_country_spec(tz) == Some("CN"@));
        assert(timezone_languages_spec(tz) == seq!["zh"@]);
        assert("CN"@ != "US"@) by { lemma_literal_differ("CN"@, "US"@); }
        assert("CN"@ != "GB"@) by { lemma_literal_differ("CN"@, "GB"@); }
        assert("CN"@ != "AU"@) by { lemma_literal_differ("CN"@, "AU"@); }
        assert("CN"@ != "DE"@) by { lemma_literal_differ("CN"@, "DE"@); }
        assert("CN"@ != "FR"@) by { lemma_literal_differ("CN"@, "FR"@); }
        assert("CN"@ != "ES"@) by { lemma_literal_differ("CN"@, "ES"@); }
        assert("CN"@ != "NL"@) by { lemma_literal_differ("CN"@, "NL"@); }
        assert("CN"@ != "JP"@) by { lemma_literal_differ("CN"@, "JP"@); }
        assert("CN"@ != "IN"@) by { lemma_literal_differ("CN"@, "IN"@); }
        assert("CN"@ != "CA"@) by { lemma_literal_differ("CN"@, "CA"@); }
        assert(country_languages("CN"@) == seq!["zh"@]);
    } else if tz == "Asia/Kolkata"@ {
        assert("Asia/Kolkata"@ != "America/New_York"@) by { lemma_literal_differ("Asia/Kolkata"@, "America/New_York"@); }
        assert("Asia/Kolkata"@ != "America/Chicago"@) by { lemma_literal_differ("Asia/Kolkata"@, "America/Chicago"@); }
        assert("Asia/Kolkata"@ != "America/Denver"@) by { lemma_literal_differ("Asia/Kolkata"@, "America/Denver"@); }
        assert("Asia/Kolkata"@ != "America/Phoenix"@) by { lemma_literal_differ("Asia/Kolkata"@, "America/Phoenix"@); }
        assert("Asia/Kolkata"@ != "America/Los_Angeles"@) by { lemma_literal_differ("Asia/Kolkata"@, "America/Los_Angeles"@); }
        assert("Asia/Kolkata"@ != "Europe/London"@) by { lemma_literal_differ("Asia/Kolkata"@, "Europe/London"@); }
        assert("Asia/Kolkata"@ != "Europe/Berlin"@) by { lemma_literal_differ("Asia/Kolkata"@, "Europe/Berlin"@); }
        assert("Asia/Kolkata"@ != "Europe/Paris"@) by { lemma_literal_differ("Asia/Kolkata"@, "Europe/Paris"@); }
        assert("Asia/Kolkata"@ != "Europe/Madrid"@) by { lemma_literal_differ("Asia/Kolkata"@, "Europe/Madrid"@); }
        assert("Asia/Kolkata"@ != "Europe/Amsterdam"@) by { lemma_literal_differ("Asia/Kolkata"@, "Europe/Amsterdam"@); }
        assert("Asia/Kolkata"@ != "Asia/Tokyo"@) by { lemma_literal_differ("Asia/Kolkata"@, "Asia/Tokyo"@); }
        assert("Asia/Kolkata"@ != "Asia/Shanghai"@) by { lemma_literal_differ("Asia/Kolkata"@, "Asia/Shanghai"@); }
        assert("Asia/Kolkata"@ != "Australia/Sydney"@) by { lemma_literal_differ("Asia/Kolkata"@, "Australia/Sydney"@); }
        assert("Asia/Kolkata"@ != "America/Toronto"@) by { lemma_literal_differ("Asia/Kolkata"@, "America/Toronto"@); }
        assert(timezone_country_spec(tz) == Some("IN"@));
        assert(timezone_languages_spec(tz) == seq!["en"@, "hi"@]);
        assert("IN"@ != "US"@) by { lemma_literal_differ("IN"@, "US"@); }
        assert("IN"@ != "GB"@) by { lemma_literal_differ("IN"@, "GB"@); }
        assert("IN"@ != "AU"@) by { lemma_literal_differ("IN"@, "AU"@); }
        assert("IN"@ != "DE"@) by { lemma_literal_differ("IN"@, "DE"@); }
        assert("IN"@ != "FR"@) by { lemma_literal_differ("IN"@, "FR"@); }
        assert("IN"@ != "ES"@) by { lemma_literal_differ("IN"@, "ES"@); }
        assert("IN"@ != "NL"@) by { lemma_literal_differ("IN"@, "NL"@); }
        assert("IN"@ != "JP"@) by { lemma_literal_differ("IN"@, "JP"@); }
        assert("IN"@ != "CN"@) by { lemma_literal_differ("IN"@, "CN"@); }
        assert("IN"@ != "CA"@) by { lemma_literal_differ("IN"@, "CA"@); }
        assert(country_languages("IN"@) == seq!["en"@, "hi"@]);
    } else if tz == "Australia/Sydney"@ {
        assert("Australia/Sydney"@ != "America/New_York"@) by { lemma_literal_differ("Australia/Sydney"@, "America/New_York"@); }
        assert("Australia/Sydney"@ != "America/Chicago"@) by { lemma_literal_differ("Australia/Sydney"@, "America/Chicago"@); }
        assert("Australia/Sydney"@ != "America/Denver"@) by { lemma_literal_differ("Australia/Sydney"@, "America/Denver"@); }
        assert("Australia/Sydney"@ != "America/Phoenix"@) by { lemma_literal_differ("Australia/Sydney"@, "America/Phoenix"@); }
        assert("Australia/Sydney"@ != "America/Los_Angeles"@) by { lemma_literal_differ("Australia/Sydney"@, "America/Los_Angeles"@); }
        assert("Australia/Sydney"@ != "Europe/London"@) by { lemma_literal_differ("Australia/Sydney"@, "Europe/London"@); }
        assert("Australia/Sydney"@ != "Europe/Berlin"@) by { lemma_literal_differ("Australia/Sydney"@, "Europe/Berlin"@); }
        assert("Australia/Sydney"@ != "Europe/Paris"@) by { lemma_literal_differ("Australia/Sydney"@, "Europe/Paris"@); }
        assert("Australia/Sydney"@ != "Europe/Madrid"@) by { lemma_literal_differ("Australia/Sydney"@, "Europe/Madrid"@); }
        assert("Australia/Sydney"@ != "Europe/Amsterdam"@) by { lemma_literal_differ("Australia/Sydney"@, "Europe/Amsterdam"@); }
        assert("Australia/Sydney"@ != "Asia/Tokyo"@) by { lemma_literal_differ("Australia/Sydney"@, "Asia/Tokyo"@); }
        assert("Australia/Sydney"@ != "Asia/Shanghai"@) by { lemma_literal_differ("Australia/Sydney"@, "Asia/Shanghai"@); }
        assert("Australia/Sydney"@ != "Asia/Kolkata"@) by { lemma_literal_differ("Australia/Sydney"@, "Asia/Kolkata"@); }
        assert("Australia/Sydney"@ != "America/Toronto"@) by { lemma_literal_differ("Australia/Sydney"@, "America/Toronto"@); }
        assert(timezone_country_spec(tz) == Some("AU"@));
        assert(timezone_languages_spec(tz) == seq!["en"@]);
        assert("AU"@ != "US"@) by { lemma_literal_differ("AU"@, "US"@); }
        assert("AU"@ != "GB"@) by { lemma_literal_differ("AU"@, "GB"@); }
        assert("AU"@ != "DE"@) by { lemma_literal_differ("AU"@, "DE"@); }
        assert("AU"@ != "FR"@) by { lemma_literal_differ("AU"@, "FR"@); }
        assert("AU"@ != "ES"@) by { lemma_literal_differ("AU"@, "ES"@); }
        assert("AU"@ != "NL"@) by { lemma_literal_differ("AU"@, "NL"@); }
        assert("AU"@ != "JP"@) by { lemma_literal_differ("AU"@, "JP"@); }
        assert("AU"@ != "CN"@) by { lemma_literal_differ("AU"@, "CN"@); }
        assert("AU"@ != "IN"@) by { lemma_literal_differ("AU"@, "IN"@); }
        assert("AU"@ != "CA"@) by { lemma_literal_differ("AU"@, "CA"@); }
        assert(country_languages("AU"@) == seq!["en"@]);
    } else if tz == "America/Toronto"@ {
        assert("America/Toronto"@ != "America/New_York"@) by { lemma_literal_differ("America/Toronto"@, "America/New_York"@); }
        assert("America/Toronto"@ != "America/Chicago"@) by { lemma_literal_differ("America/Toronto"@, "America/Chicago"@); }
        assert("America/Toronto"@ != "America/Denver"@) by { lemma_literal_differ("America/Toronto"@, "America/Denver"@); }
        assert("America/Toronto"@ != "America/Phoenix"@) by { lemma_literal_differ("America/Toronto"@, "America/Phoenix"@); }
        assert("America/Toronto"@ != "America/Los_Angeles"@) by { lemma_literal_differ("America/Toronto"@, "America/Los_Angeles"@); }
        assert("America/Toronto"@ != "Europe/London"@) by { lemma_literal_differ("America/Toronto"@, "Europe/London"@); }
        assert("America/Toronto"@ != "Europe/Berlin"@) by { lemma_literal_differ("America/Toronto"@, "Europe/Berlin"@); }
        assert("America/Toronto"@ != "Europe/Paris"@) by { lemma_literal_differ("America/Toronto"@, "Europe/Paris"@); }
        assert("America/Toronto"@ != "Europe/Madrid"@) by { lemma_literal_differ("America/Toronto"@, "Europe/Madrid"@); }
        assert("America/Toronto"@ != "Europe/Amsterdam"@) by { lemma_literal_differ("America/Toronto"@, "Europe/Amsterdam"@); }
        assert("America/Toronto"@ != "Asia/Tokyo"@) by { lemma_literal_differ("America/Toronto"@, "Asia/Tokyo"@); }
        assert("America/Toronto"@ != "Asia/Shanghai"@) by { lemma_literal_differ("America/Toronto"@, "Asia/Shanghai"@); }
        assert("America/Toronto"@ != "Asia/Kolkata"@) by { lemma_literal_differ("America/Toronto"@, "Asia/Kolkata"@); }
        assert("America/Toronto"@ != "Australia/Sydney"@) by { lemma_literal_differ("America/Toronto"@, "Australia/Sydney"@); }
        assert(timezone_country_spec(tz) == Some("CA"@));
        assert(timezone_languages_spec(tz) == seq!["en"@, "fr"@]);
        assert("CA"@ != "US"@) by { lemma_literal_differ("CA"@, "US"@); }
        assert("CA"@ != "GB"@) by { lemma_literal_differ("CA"@, "GB"@); }
        assert("CA"@ != "AU"@) by { lemma_literal_differ("CA"@, "AU"@); }
        assert("CA"@ != "DE"@) by { lemma_literal_differ("CA"@, "DE"@); }
        assert("CA"@ != "FR"@) by { lemma_literal_differ("CA"@, "FR"@); }
        assert("CA"@ != "ES"@) by { lemma_literal_differ("CA"@, "ES"@); }
        assert("CA"@ != "NL"@) by { lemma_literal_differ("CA"@, "NL"@); }
        assert("CA"@ != "JP"@) by { lemma_literal_differ("CA"@, "JP"@); }
        assert("CA"@ != "CN"@) by { lemma_literal_differ("CA"@, "CN"@); }
        assert("CA"@ != "IN"@) by { lemma_literal_differ("CA"@, "IN"@); }
        assert(country_languages("CA"@) == seq!["en"@, "fr"@]);
    } else {
    }
}


proof fn lemma_default_zone_languages()
    ensures
        timezone_languages_spec("America/New_York"@) == seq!["en"@],
        timezone_languages_spec("Europe/London"@) == seq!["en"@],
        timezone_languages_spec("America/Toronto"@) == seq!["en"@, "fr"@],
        timezone_languages_spec("Australia/Sydney"@) == seq!["en"@],
        timezone_languages_spec("Asia/Kolkata"@) == seq!["en"@, "hi"@],
        timezone_languages_spec("Europe/Berlin"@) == seq!["de"@, "en"@],
        timezone_languages_spec("Europe/Paris"@) == seq!["fr"@],
        timezone_languages_spec("Europe/Madrid"@) == seq!["es"@],
        timezone_languages_spec("Europe/Amsterdam"@) == seq!["nl"@, "en"@],
        timezone_languages_spec("Asia/Tokyo"@) == seq!["ja"@],
        timezone_languages_spec("Asia/Shanghai"@) == seq!["zh"@],
{
    reveal_strlit("America/New_York");
    reveal_strlit("America/Chicago");
    reveal_strlit("America/Denver");
    reveal_strlit("America/Phoenix");
    reveal_strlit("America/Los_Angeles");
    reveal_strlit("Europe/London");
    reveal_strlit("Europe/Berlin");
    reveal_strlit("Europe/Paris");
    reveal_strlit("Europe/Madrid");
    reveal_strlit("Europe/Amsterdam");
    reveal_strlit("Asia/Tokyo");
    reveal_strlit("Asia/Shanghai");
    reveal_strlit("Asia/Kolkata");
    reveal_strlit("Australia/Sydney");
    reveal_strlit("America/Toronto");
    assert("America/New_York"@ != "America/Chicago"@) by { lemma_literal_differ("America/New_York"@, "America/Chicago"@); }
    assert("America/New_York"@ != "America/Denver"@) by { lemma_literal_differ("America/New_York"@, "America/Denver"@); }
    assert("America/New_York"@ != "America/Phoenix"@) by { lemma_literal_differ("America/New_York"@, "America/Phoenix"@); }
    assert("America/New_York"@ != "America/Los_Angeles"@) by { lemma_literal_differ("America/New_York"@, "America/Los_Angeles"@); }
    assert("America/New_York"@ != "Europe/London"@) by { lemma_literal_differ("America/New_York"@, "Europe/London"@); }
    assert("America/New_York"@ != "Europe/Berlin"@) by { lemma_literal_differ("America/New_York"@, "Europe/Berlin"@); }
    assert("America/New_York"@ != "Europe/Paris"@) by { lemma_literal_differ("America/New_York"@, "Europe/Paris"@); }
    assert("America/New_York"@ != "Europe/Madrid"@) by { lemma_literal_differ("America/New_York"@, "Europe/Madrid"@); }
    assert("America/New_York"@ != "Europe/Amsterdam"@) by { lemma_literal_differ("America/New_York"@, "Europe/Amsterdam"@); }
    assert("America/New_York"@ != "Asia/Tokyo"@) by { lemma_literal_differ("America/New_York"@, "Asia/Tokyo"@); }
    assert("America/New_York"@ != "Asia/Shanghai"@) by { lemma_literal_differ("America/New_York"@, "Asia/Shanghai"@); }
    assert("America/New_York"@ != "Asia/Kolkata"@) by { lemma_literal_differ("America/New_York"@, "Asia/Kolkata"@); }
    assert("America/New_York"@ != "Australia/Sydney"@) by { lemma_literal_differ("America/New_York"@, "Australia/Sydney"@); }
    assert("America/New_York"@ != "America/Toronto"@) by { lemma_literal_differ("America/New_York"@, "America/Toronto"@); }
    assert(timezone_languages_spec("America/New_York"@) == seq!["en"@]);
    assert("Europe/London"@ != "America/New_York"@) by { lemma_literal_differ("Europe/London"@, "America/New_York"@); }
    assert("Europe/London"@ != "America/Chicago"@) by { lemma_literal_differ("Europe/London"@, "America/Chicago"@); }
    assert("Europe/London"@ != "America/Denver"@) by { lemma_literal_differ("Europe/London"@, "America/Denver"@); }
    assert("Europe/London"@ != "America/Phoenix"@) by { lemma_literal_differ("Europe/London"@, "America/Phoenix"@); }
    assert("Europe/London"@ != "America/Los_Angeles"@) by { lemma_literal_differ("Europe/London"@, "America/Los_Angeles"@); }
    assert("Europe/London"@ != "Europe/Berlin"@) by { lemma_literal_differ("Europe/London"@, "Europe/Berlin"@); }
    assert("Europe/London"@ != "Europe/Paris"@) by { lemma_literal_differ("Europe/London"@, "Europe/Paris"@); }
    assert("Europe/London"@ != "Europe/Madrid"@) by { lemma_literal_differ("Europe/London"@, "Europe/Madrid"@); }
    assert("Europe/London"@ != "Europe/Amsterdam"@) by { lemma_literal_differ("Europe/London"@, "Europe/Amsterdam"@); }
    assert("Europe/London"@ != "Asia/Tokyo"@) by { lemma_literal_differ("Europe/London"@, "Asia/Tokyo"@); }
    assert("Europe/London"@ != "Asia/Shanghai"@) by { lemma_literal_differ("Europe/London"@, "Asia/Shanghai"@); }
    assert("Europe/London"@ != "Asia/Kolkata"@) by { lemma_literal_differ("Europe/London"@, "Asia/Kolkata"@); }
    assert("Europe/London"@ != "Australia/Sydney"@) by { lemma_literal_differ("Europe/London"@, "Australia/Sydney"@); }
    assert("Europe/London"@ != "America/Toronto"@) by { lemma_literal_differ("Europe/London"@, "America/Toronto"@); }
    assert(timezone_languages_spec("Europe/London"@) == seq!["en"@]);
    assert("America/Toronto"@ != "America/New_York"@) by { lemma_literal_differ("America/Toronto"@, "America/New_York"@); }
    assert("America/Toronto"@ != "America/Chicago"@) by { lemma_literal_differ("America/Toronto"@, "America/Chicago"@); }
    assert("America/Toronto"@ != "America/Denver"@) by { lemma_literal_differ("America/Toronto"@, "America/Denver"@); }
    assert("America/Toronto"@ != "America/Phoenix"@) by { lemma_literal_differ("America/Toronto"@, "America/Phoenix"@); }
    assert("America/Toronto"@ != "America/Los_Angeles"@) by { lemma_literal_differ("America/Toronto"@, "America/Los_Angeles"@); }
    assert("America/Toronto"@ != "Europe/London"@) by { lemma_literal_differ("America/Toronto"@, "Europe/London"@); }
    assert("America/Toronto"@ != "Europe/Berlin"@) by { lemma_literal_differ("America/Toronto"@, "Europe/Berlin"@); }
    assert("America/Toronto"@ != "Europe/Paris"@) by { lemma_literal_differ("America/Toronto"@, "Europe/Paris"@); }
    assert("America/Toronto"@ != "Europe/Madrid"@) by { lemma_literal_differ("America/Toronto"@, "Europe/Madrid"@); }
    assert("America/Toronto"@ != "Europe/Amsterdam"@) by { lemma_literal_differ("America/Toronto"@, "Europe/Amsterdam"@); }
    assert("America/Toronto"@ != "Asia/Tokyo"@) by { lemma_literal_differ("America/Toronto"@, "Asia/Tokyo"@); }
    assert("America/Toronto"@ != "Asia/Shanghai"@) by { lemma_literal_differ("America/Toronto"@, "Asia/Shanghai"@); }
    assert("America/Toronto"@ != "Asia/Kolkata"@) by { lemma_literal_differ("America/Toronto"@, "Asia/Kolkata"@); }
    assert("America/Toronto"@ != "Australia/Sydney"@) by { lemma_literal_differ("America/Toronto"@, "Australia/Sydney"@); }
    assert(timezone_languages_spec("America/Toronto"@) == seq!["en"@, "fr"@]);
    assert("Australia/Sydney"@ != "America/New_York"@) by { lemma_literal_differ("Australia/Sydney"@, "America/New_York"@); }
    assert("Australia/Sydney"@ != "America/Chicago"@) by { lemma_literal_differ("Australia/Sydney"@, "America/Chicago"@); }
    assert("Australia/Sydney"@ != "America/Denver"@) by { lemma_literal_differ("Australia/Sydney"@, "America/Denver"@); }
    assert("Australia/Sydney"@ != "America/Phoenix"@) by { lemma_literal_differ("Australia/Sydney"@, "America/Phoenix"@); }
    assert("Australia/Sydney"@ != "America/Los_Angeles"@) by { lemma_literal_differ("Australia/Sydney"@, "America/Los_Angeles"@); }
    assert("Australia/Sydney"@ != "Europe/London"@) by { lemma_literal_differ("Australia/Sydney"@, "Europe/London"@); }
    assert("Australia/Sydney"@ != "Europe/Berlin"@) by { lemma_literal_differ("Australia/Sydney"@, "Europe/Berlin"@); }
    assert("Australia/Sydney"@ != "Europe/Paris"@) by { lemma_literal_differ("Australia/Sydney"@, "Europe/Paris"@); }
    assert("Australia/Sydney"@ != "Europe/Madrid"@) by { lemma_literal_differ("Australia/Sydney"@, "Europe/Madrid"@); }
    assert("Australia/Sydney"@ != "Europe/Amsterdam"@) by { lemma_literal_differ("Australia/Sydney"@, "Europe/Amsterdam"@); }
    assert("Australia/Sydney"@ != "Asia/Tokyo"@) by { lemma_literal_differ("Australia/Sydney"@, "Asia/Tokyo"@); }
    assert("Australia/Sydney"@ != "Asia/Shanghai"@) by { lemma_literal_differ("Australia/Sydney"@, "Asia/Shanghai"@); }
    assert("Australia/Sydney"@ != "Asia/Kolkata"@) by { lemma_literal_differ("Australia/Sydney"@, "Asia/Kolkata"@); }
    assert("Australia/Sydney"@ != "America/Toronto"@) by { lemma_literal_differ("Australia/Sydney"@, "America/Toronto"@); }
    assert(timezone_languages_spec("Australia/Sydney"@) == seq!["en"@]);
    assert("Asia/Kolkata"@ != "America/New_York"@) by { lemma_literal_differ("Asia/Kolkata"@, "America/New_York"@); }
    assert("Asia/Kolkata"@ != "America/Chicago"@) by { lemma_literal_differ("Asia/Kolkata"@, "America/Chicago"@); }
    assert("Asia/Kolkata"@ != "America/Denver"@) by { lemma_literal_differ("Asia/Kolkata"@, "America/Denver"@); }
    assert("Asia/Kolkata"@ != "America/Phoenix"@) by { lemma_literal_differ("Asia/Kolkata"@, "America/Phoenix"@); }
    assert("Asia/Kolkata"@ != "America/Los_Angeles"@) by { lemma_literal_differ("Asia/Kolkata"@, "America/Los_Angeles"@); }
    assert("Asia/Kolkata"@ != "Europe/London"@) by { lemma_literal_differ("Asia/Kolkata"@, "Europe/London"@); }
    assert("Asia/Kolkata"@ != "Europe/Berlin"@) by { lemma_literal_differ("Asia/Kolkata"@, "Europe/Berlin"@); }
    assert("Asia/Kolkata"@ != "Europe/Paris"@) by { lemma_literal_differ("Asia/Kolkata"@, "Europe/Paris"@); }
    assert("Asia/Kolkata"@ != "Europe/Madrid"@) by { lemma_literal_differ("Asia/Kolkata"@, "Europe/Madrid"@); }
    assert("Asia/Kolkata"@ != "Europe/Amsterdam"@) by { lemma_literal_differ("Asia/Kolkata"@, "Europe/Amsterdam"@); }
    assert("Asia/Kolkata"@ != "Asia/Tokyo"@) by { lemma_literal_differ("Asia/Kolkata"@, "Asia/Tokyo"@); }
    assert("Asia/Kolkata"@ != "Asia/Shanghai"@) by { lemma_literal_differ("Asia/Kolkata"@, "Asia/Shanghai"@); }
    assert("Asia/Kolkata"@ != "Australia/Sydney"@) by { lemma_literal_differ("Asia/Kolkata"@, "Australia/Sydney"@); }
    assert("Asia/Kolkata"@ != "America/Toronto"@) by { lemma_literal_differ("Asia/Kolkata"@, "America/Toronto"@); }
    assert(timezone_languages_spec("Asia/Kolkata"@) == seq!["en"@, "hi"@]);
    assert("Europe/Berlin"@ != "America/New_York"@) by { lemma_literal_differ("Europe/Berlin"@, "America/New_York"@); }
    assert("Europe/Berlin"@ != "America/Chicago"@) by { lemma_literal_differ("Europe/Berlin"@, "America/Chicago"@); }
    assert("Europe/Berlin"@ != "America/Denver"@) by { lemma_literal_differ("Europe/Berlin"@, "America/Denver"@); }
    assert("Europe/Berlin"@ != "America/Phoenix"@) by { lemma_literal_differ("Europe/Berlin"@, "America/Phoenix"@); }
    assert("Europe/Berlin"@ != "America/Los_Angeles"@) by { lemma_literal_differ("Europe/Berlin"@, "America/Los_Angeles"@); }
    assert("Europe/Berlin"@ != "Europe/London"@) by { lemma_literal_differ("Europe/Berlin"@, "Europe/London"@); }
    assert("Europe/Berlin"@ != "Europe/Paris"@) by { lemma_literal_differ("Europe/Berlin"@, "Europe/Paris"@); }
    assert("Europe/Berlin"@ != "Europe/Madrid"@) by { lemma_literal_differ("Europe/Berlin"@, "Europe/Madrid"@); }
    assert("Europe/Berlin"@ != "Europe/Amsterdam"@) by { lemma_literal_differ("Europe/Berlin"@, "Europe/Amsterdam"@); }
    assert("Europe/Berlin"@ != "Asia/Tokyo"@) by { lemma_literal_differ("Europe/Berlin"@, "Asia/Tokyo"@); }
    assert("Europe/Berlin"@ != "Asia/Shanghai"@) by { lemma_literal_differ("Europe/Berlin"@, "Asia/Shanghai"@); }
    assert("Europe/Berlin"@ != "Asia/Kolkata"@) by { lemma_literal_differ("Europe/Berlin"@, "Asia/Kolkata"@); }
    assert("Europe/Berlin"@ != "Australia/Sydney"@) by { lemma_literal_differ("Europe/Berlin"@, "Australia/Sydney"@); }
    assert("Europe/Berlin"@ != "America/Toronto"@) by { lemma_literal_differ("Europe/Berlin"@, "America/Toronto"@); }
    assert(timezone_languages_spec("Europe/Berlin"@) == seq!["de"@, "en"@]);
    assert("Europe/Paris"@ != "America/New_York"@) by { lemma_literal_differ("Europe/Paris"@, "America/New_York"@); }
    assert("Europe/Paris"@ != "America/Chicago"@) by { lemma_literal_differ("Europe/Paris"@, "America/Chicago"@); }
    assert("Europe/Paris"@ != "America/Denver"@) by { lemma_literal_differ("Europe/Paris"@, "America/Denver"@); }
    assert("Europe/Paris"@ != "America/Phoenix"@) by { lemma_literal_differ("Europe/Paris"@, "America/Phoenix"@); }
    assert("Europe/Paris"@ != "America/Los_Angeles"@) by { lemma_literal_differ("Europe/Paris"@, "America/Los_Angeles"@); }
    assert("Europe/Paris"@ != "Europe/London"@) by { lemma_literal_differ("Europe/Paris"@, "Europe/London"@); }
    assert("Europe/Paris"@ != "Europe/Berlin"@) by { lemma_literal_differ("Europe/Paris"@, "Europe/Berlin"@); }
    assert("Europe/Paris"@ != "Europe/Madrid"@) by { lemma_literal_differ("Europe/Paris"@, "Europe/Madrid"@); }
    assert("Europe/Paris"@ != "Europe/Amsterdam"@) by { lemma_literal_differ("Europe/Paris"@, "Europe/Amsterdam"@); }
    assert("Europe/Paris"@ != "Asia/Tokyo"@) by { lemma_literal_differ("Europe/Paris"@, "Asia/Tokyo"@); }
    assert("Europe/Paris"@ != "Asia/Shanghai"@) by { lemma_literal_differ("Europe/Paris"@, "Asia/Shanghai"@); }
    assert("Europe/Paris"@ != "Asia/Kolkata"@) by { lemma_literal_differ("Europe/Paris"@, "Asia/Kolkata"@); }
    assert("Europe/Paris"@ != "Australia/Sydney"@) by { lemma_literal_differ("Europe/Paris"@, "Australia/Sydney"@); }
    assert("Europe/Paris"@ != "America/Toronto"@) by { lemma_literal_differ("Europe/Paris"@, "America/Toronto"@); }
    assert(timezone_languages_spec("Europe/Paris"@) == seq!["fr"@]);
    assert("Europe/Madrid"@ != "America/New_York"@) by { lemma_literal_differ("Europe/Madrid"@, "America/New_York"@); }
    assert("Europe/Madrid"@ != "America/Chicago"@) by { lemma_literal_differ("Europe/Madrid"@, "America/Chicago"@); }
    assert("Europe/Madrid"@ != "America/Denver"@) by { lemma_literal_differ("Europe/Madrid"@, "America/Denver"@); }
    assert("Europe/Madrid"@ != "America/Phoenix"@) by { lemma_literal_differ("Europe/Madrid"@, "America/Phoenix"@); }
    assert("Europe/Madrid"@ != "America/Los_Angeles"@) by { lemma_literal_differ("Europe/Madrid"@, "America/Los_Angeles"@); }
    assert("Europe/Madrid"@ != "Europe/London"@) by { lemma_literal_differ("Europe/Madrid"@, "Europe/London"@); }
    assert("Europe/Madrid"@ != "Europe/Berlin"@) by { lemma_literal_differ("Europe/Madrid"@, "Europe/Berlin"@); }
    assert("Europe/Madrid"@ != "Europe/Paris"@) by { lemma_literal_differ("Europe/Madrid"@, "Europe/Paris"@); }
    assert("Europe/Madrid"@ != "Europe/Amsterdam"@) by { lemma_literal_differ("Europe/Madrid"@, "Europe/Amsterdam"@); }
    assert("Europe/Madrid"@ != "Asia/Tokyo"@) by { lemma_literal_differ("Europe/Madrid"@, "Asia/Tokyo"@); }
    assert("Europe/Madrid"@ != "Asia/Shanghai"@) by { lemma_literal_differ("Europe/Madrid"@, "Asia/Shanghai"@); }
    assert("Europe/Madrid"@ != "Asia/Kolkata"@) by { lemma_literal_differ("Europe/Madrid"@, "Asia/Kolkata"@); }
    assert("Europe/Madrid"@ != "Australia/Sydney"@) by { lemma_literal_differ("Europe/Madrid"@, "Australia/Sydney"@); }
    assert("Europe/Madrid"@ != "America/Toronto"@) by { lemma_literal_differ("Europe/Madrid"@, "America/Toronto"@); }
    assert(timezone_languages_spec("Europe/Madrid"@) == seq!["es"@]);
    assert("Europe/Amsterdam"@ != "America/New_York"@) by { lemma_literal_differ("Europe/Amsterdam"@, "America/New_York"@); }
    assert("Europe/Amsterdam"@ != "America/Chicago"@) by { lemma_literal_differ("Europe/Amsterdam"@, "America/Chicago"@); }
    assert("Europe/Amsterdam"@ != "America/Denver"@) by { lemma_literal_differ("Europe/Amsterdam"@, "America/Denver"@); }
    assert("Europe/Amsterdam"@ != "America/Phoenix"@) by { lemma_literal_differ("Europe/Amsterdam"@, "America/Phoenix"@); }
    assert("Europe/Amsterdam"@ != "America/Los_Angeles"@) by { lemma_literal_differ("Europe/Amsterdam"@, "America/Los_Angeles"@); }
    assert("Europe/Amsterdam"@ != "Europe/London"@) by { lemma_literal_differ("Europe/Amsterdam"@, "Europe/London"@); }
    assert("Europe/Amsterdam"@ != "Europe/Berlin"@) by { lemma_literal_differ("Europe/Amsterdam"@, "Europe/Berlin"@); }
    assert("Europe/Amsterdam"@ != "Europe/Paris"@) by { lemma_literal_differ("Europe/Amsterdam"@, "Europe/Paris"@); }
    assert("Europe/Amsterdam"@ != "Europe/Madrid"@) by { lemma_literal_differ("Europe/Amsterdam"@, "Europe/Madrid"@); }
    assert("Europe/Amsterdam"@ != "Asia/Tokyo"@) by { lemma_literal_differ("Europe/Amsterdam"@, "Asia/Tokyo"@); }
    assert("Europe/Amsterdam"@ != "Asia/Shanghai"@) by { lemma_literal_differ("Europe/Amsterdam"@, "Asia/Shanghai"@); }
    assert("Europe/Amsterdam"@ != "Asia/Kolkata"@) by { lemma_literal_differ("Europe/Amsterdam"@, "Asia/Kolkata"@); }
    assert("Europe/Amsterdam"@ != "Australia/Sydney"@) by { lemma_literal_differ("Europe/Amsterdam"@, "Australia/Sydney"@); }
    assert("Europe/Amsterdam"@ != "America/Toronto"@) by { lemma_literal_differ("Europe/Amsterdam"@, "America/Toronto"@); }
    assert(timezone_languages_spec("Europe/Amsterdam"@) == seq!["nl"@, "en"@]);
    assert("Asia/Tokyo"@ != "America/New_York"@) by { lemma_literal_differ("Asia/Tokyo"@, "America/New_York"@); }
    assert("Asia/Tokyo"@ != "America/Chicago"@) by { lemma_literal_differ("Asia/Tokyo"@, "America/Chicago"@); }
    assert("Asia/Tokyo"@ != "America/Denver"@) by { lemma_literal_differ("Asia/Tokyo"@, "America/Denver"@); }
    assert("Asia/Tokyo"@ != "America/Phoenix"@) by { lemma_literal_differ("Asia/Tokyo"@, "America/Phoenix"@); }
    assert("Asia/Tokyo"@ != "America/Los_Angeles"@) by { lemma_literal_differ("Asia/Tokyo"@, "America/Los_Angeles"@); }
    assert("Asia/Tokyo"@ != "Europe/London"@) by { lemma_literal_differ("Asia/Tokyo"@, "Europe/London"@); }
    assert("Asia/Tokyo"@ != "Europe/Berlin"@) by { lemma_literal_differ("Asia/Tokyo"@, "Europe/Berlin"@); }
    assert("Asia/Tokyo"@ != "Europe/Paris"@) by { lemma_literal_differ("Asia/Tokyo"@, "Europe/Paris"@); }
    assert("Asia/Tokyo"@ != "Europe/Madrid"@) by { lemma_literal_differ("Asia/Tokyo"@, "Europe/Madrid"@); }
    assert("Asia/Tokyo"@ != "Europe/Amsterdam"@) by { lemma_literal_differ("Asia/Tokyo"@, "Europe/Amsterdam"@); }
    assert("Asia/Tokyo"@ != "Asia/Shanghai"@) by { lemma_literal_differ("Asia/Tokyo"@, "Asia/Shanghai"@); }
    assert("Asia/Tokyo"@ != "Asia/Kolkata"@) by { lemma_literal_differ("Asia/Tokyo"@, "Asia/Kolkata"@); }
    assert("Asia/Tokyo"@ != "Australia/Sydney"@) by { lemma_literal_differ("Asia/Tokyo"@, "Australia/Sydney"@); }
    assert("Asia/Tokyo"@ != "America/Toronto"@) by { lemma_literal_differ("Asia/Tokyo"@, "America/Toronto"@); }
    assert(timezone_languages_spec("Asia/Tokyo"@) == seq!["ja"@]);
    assert("Asia/Shanghai"@ != "America/New_York"@) by { lemma_literal_differ("Asia/Shanghai"@, "America/New_York"@); }
    assert("Asia/Shanghai"@ != "America/Chicago"@) by { lemma_literal_differ("Asia/Shanghai"@, "America/Chicago"@); }
    assert("Asia/Shanghai"@ != "America/Denver"@) by { lemma_literal_differ("Asia/Shanghai"@, "America/Denver"@); }
    assert("Asia/Shanghai"@ != "America/Phoenix"@) by { lemma_literal_differ("Asia/Shanghai"@, "America/Phoenix"@); }
    assert("Asia/Shanghai"@ != "America/Los_Angeles"@) by { lemma_literal_differ("Asia/Shanghai"@, "America/Los_Angeles"@); }
    assert("Asia/Shanghai"@ != "Europe/London"@) by { lemma_literal_differ("Asia/Shanghai"@, "Europe/London"@); }
    assert("Asia/Shanghai"@ != "Europe/Berlin"@) by { lemma_literal_differ("Asia/Shanghai"@, "Europe/Berlin"@); }
    assert("Asia/Shanghai"@ != "Europe/Paris"@) by { lemma_literal_differ("Asia/Shanghai"@, "Europe/Paris"@); }
    assert("Asia/Shanghai"@ != "Europe/Madrid"@) by { lemma_literal_differ("Asia/Shanghai"@, "Europe/Madrid"@); }
    assert("Asia/Shanghai"@ != "Europe/Amsterdam"@) by { lemma_literal_differ("Asia/Shanghai"@, "Europe/Amsterdam"@); }
    assert("Asia/Shanghai"@ != "Asia/Tokyo"@) by { lemma_literal_differ("Asia/Shanghai"@, "Asia/Tokyo"@); }
    assert("Asia/Shanghai"@ != "Asia/Kolkata"@) by { lemma_literal_differ("Asia/Shanghai"@, "Asia/Kolkata"@); }
    assert("Asia/Shanghai"@ != "Australia/Sydney"@) by { lemma_literal_differ("Asia/Shanghai"@, "Australia/Sydney"@); }
    assert("Asia/Shanghai"@ != "America/Toronto"@) by { lemma_literal_differ("Asia/Shanghai"@, "America/Toronto"@); }
    assert(timezone_languages_spec("Asia/Shanghai"@) == seq!["zh"@]);
}

proof fn lemma_two_letter_primary(s: Seq<char>)
    requires
        s.len() >= 3,
        s[0] != '-' && s[0] != '_',
        s[1] != '-' && s[1] != '_',
        s[2] == '-',
    ensures
        primary_subtag(s) == s.take(2),
{
    assert(s.drop_first()[0] == s[1]);
    assert(s.drop_first().drop_first()[0] == s[2]);
    assert(first_sep(s.drop_first().drop_first()) == 0);
    assert(first_sep(s.drop_first()) == 1);
    assert(first_sep(s) == 2);
}

/// The default timezone of a locale whose language is catalogued (English,
/// German, French, Spanish, Dutch, Japanese, Chinese, Hindi) is a zone
/// where that language is spoken: its timezone languages include the
/// locale's primary language.
pub proof fn lemma_default_timezone_speaks_language(tag: Seq<char>)
    requires
        seq!["en"@, "de"@, "fr"@, "es"@, "nl"@, "ja"@, "zh"@, "hi"@].contains(primary_subtag(lower(tag))),
    ensures
        timezone_languages_spec(default_timezone_spec(tag)).contains(primary_subtag(lower(tag))),
{
    lemma_default_zone_languages();
    reveal_strlit("en-us");
    reveal_strlit("en-gb");
    reveal_strlit("en-ca");
    reveal_strlit("fr-ca");
    reveal_strlit("en-au");
    reveal_strlit("en-in");
    reveal_strlit("hi-in");
    reveal_strlit("de-de");
    reveal_strlit("de-at");
    reveal_strlit("fr-fr");
    reveal_strlit("es-es");
    reveal_strlit("nl-nl");
    reveal_strlit("ja-jp");
    reveal_strlit("zh-cn");
    reveal_strlit("en");
    reveal_strlit("de");
    reveal_strlit("fr");
    reveal_strlit("es");
    reveal_strlit("nl");
    reveal_strlit("ja");
    reveal_strlit("zh");
    reveal_strlit("hi");
    let l = lower(tag);
    let p = primary_subtag(l);
    if l == "en-us"@ {
        assert("en-us"@ != "en-gb"@) by { lemma_differ_at("en-us"@, "en-gb"@, 3); }
        assert("en-us"@ != "en-ca"@) by { lemma_differ_at("en-us"@, "en-ca"@, 3); }
        assert("en-us"@ != "fr-ca"@) by { lemma_differ_at("en-us"@, "fr-ca"@, 0); }
        assert("en-us"@ != "en-au"@) by { lemma_differ_at("en-us"@, "en-au"@, 3); }
        assert("en-us"@ != "en-in"@) by { lemma_differ_at("en-us"@, "en-in"@, 3); }
        assert("en-us"@ != "hi-in"@) by { lemma_differ_at("en-us"@, "hi-in"@, 0); }
        assert("en-us"@ != "de-de"@) by { lemma_differ_at("en-us"@, "de-de"@, 0); }
        assert("en-us"@ != "de-at"@) by { lemma_differ_at("en-us"@, "de-at"@, 0); }
        assert("en-us"@ != "fr-fr"@) by { lemma_differ_at("en-us"@, "fr-fr"@, 0); }
        assert("en-us"@ != "es-es"@) by { lemma_differ_at("en-us"@, "es-es"@, 1); }
        assert("en-us"@ != "nl-nl"@) by { lemma_differ_at("en-us"@, "nl-nl"@, 0); }
        assert("en-us"@ != "ja-jp"@) by { lemma_differ_at("en-us"@, "ja-jp"@, 0); }
        assert("en-us"@ != "zh-cn"@) by { lemma_differ_at("en-us"@, "zh-cn"@, 0); }
        lemma_two_letter_primary(l);
        assert(l.take(2) =~= "en"@);
        assert(default_timezone_spec(tag) == "America/New_York"@);
        assert(timezone_languages_spec("America/New_York"@)[0] == "en"@);
    } else if l == "en-gb"@ {
        assert("en-gb"@ != "en-us"@) by { lemma_differ_at("en-gb"@, "en-us"@, 3); }
        assert("en-gb"@ != "en-ca"@) by { lemma_differ_at("en-gb"@, "en-ca"@, 3); }
        assert("en-gb"@ != "fr-ca"@) by { lemma_differ_at("en-gb"@, "fr-ca"@, 0); }
        assert("en-gb"@ != "en-au"@) by { lemma_differ_at("en-gb"@, "en-au"@, 3); }
        assert("en-gb"@ != "en-in"@) by { lemma_differ_at("en-gb"@, "en-in"@, 3); }
        assert("en-gb"@ != "hi-in"@) by { lemma_differ_at("en-gb"@, "hi-in"@, 0); }
        assert("en-gb"@ != "de-de"@) by { lemma_differ_at("en-gb"@, "de-de"@, 0); }
        assert("en-gb"@ != "de-at"@) by { lemma_differ_at("en-gb"@, "de-at"@, 0); }
        assert("en-gb"@ != "fr-fr"@) by { lemma_differ_at("en-gb"@, "fr-fr"@, 0); }
        assert("en-gb"@ != "es-es"@) by { lemma_differ_at("en-gb"@, "es-es"@, 1); }
        assert("en-gb"@ != "nl-nl"@) by { lemma_differ_at("en-gb"@, "nl-nl"@, 0); }
        assert("en-gb"@ != "ja-jp"@) by { lemma_differ_at("en-gb"@, "ja-jp"@, 0); }
        assert("en-gb"@ != "zh-cn"@) by { lemma_differ_at("en-gb"@, "zh-cn"@, 0); }
        lemma_two_letter_primary(l);
        assert(l.take(2) =~= "en"@);
        assert(default_timezone_spec(tag) == "Europe/London"@);
        assert(timezone_languages_spec("Europe/London"@)[0] == "en"@);
    } else if l == "en-ca"@ {
        assert("en-ca"@ != "en-us"@) by { lemma_differ_at("en-ca"@, "en-us"@, 3); }
        assert("en-ca"@ != "en-gb"@) by { lemma_differ_at("en-ca"@, "en-gb"@, 3); }
        assert("en-ca"@ != "fr-ca"@) by { lemma_differ_at("en-ca"@, "fr-ca"@, 0); }
        assert("en-ca"@ != "en-au"@) by { lemma_differ_at("en-ca"@, "en-au"@, 3); }
        assert("en-ca"@ != "en-in"@) by { lemma_differ_at("en-ca"@, "en-in"@, 3); }
        assert("en-ca"@ != "hi-in"@) by { lemma_differ_at("en-ca"@, "hi-in"@, 0); }
        assert("en-ca"@ != "de-de"@) by { lemma_differ_at("en-ca"@, "de-de"@, 0); }
        assert("en-ca"@ != "de-at"@) by { lemma_differ_at("en-ca"@, "de-at"@, 0); }
        assert("en-ca"@ != "fr-fr"@) by { lemma_differ_at("en-ca"@, "fr-fr"@, 0); }
        assert("en-ca"@ != "es-es"@) by { lemma_differ_at("en-ca"@, "es-es"@, 1); }
        assert("en-ca"@ != "nl-nl"@) by { lemma_differ_at("en-ca"@, "nl-nl"@, 0); }
        assert("en-ca"@ != "ja-jp"@) by { lemma_differ_at("en-ca"@, "ja-jp"@, 0); }
        assert("en-ca"@ != "zh-cn"@) by { lemma_differ_at("en-ca"@, "zh-cn"@, 0); }
        lemma_two_letter_primary(l);
        assert(l.take(2) =~= "en"@);
        assert(default_timezone_spec(tag) == "America/Toronto"@);
        assert(timezone_languages_spec("America/Toronto"@)[0] == "en"@);
    } else if l == "fr-ca"@ {
        assert("fr-ca"@ != "en-us"@) by { lemma_differ_at("fr-ca"@, "en-us"@, 0); }
        assert("fr-ca"@ != "en-gb"@) by { lemma_differ_at("fr-ca"@, "en-gb"@, 0); }
        assert("fr-ca"@ != "en-ca"@) by { lemma_differ_at("fr-ca"@, "en-ca"@, 0); }
        assert("fr-ca"@ != "en-au"@) by { lemma_differ_at("fr-ca"@, "en-au"@, 0); }
        assert("fr-ca"@ != "en-in"@) by { lemma_differ_at("fr-ca"@, "en-in"@, 0); }
        assert("fr-ca"@ != "hi-in"@) by { lemma_differ_at("fr-ca"@, "hi-in"@, 0); }
        assert("fr-ca"@ != "de-de"@) by { lemma_differ_at("fr-ca"@, "de-de"@, 0); }
        assert("fr-ca"@ != "de-at"@) by { lemma_differ_at("fr-ca"@, "de-at"@, 0); }
        assert("fr-ca"@ != "fr-fr"@) by { lemma_differ_at("fr-ca"@, "fr-fr"@, 3); }
        assert("fr-ca"@ != "es-es"@) by { lemma_differ_at("fr-ca"@, "es-es"@, 0); }
        assert("fr-ca"@ != "nl-nl"@) by { lemma_differ_at("fr-ca"@, "nl-nl"@, 0); }
        assert("fr-ca"@ != "ja-jp"@) by { lemma_differ_at("fr-ca"@, "ja-jp"@, 0); }
        assert("fr-ca"@ != "zh-cn"@) by { lemma_differ_at("fr-ca"@, "zh-cn"@, 0); }
        lemma_two_letter_primary(l);
        assert(l.take(2) =~= "fr"@);
        assert(default_timezone_spec(tag) == "America/Toronto"@);
        assert(timezone_languages_spec("America/Toronto"@)[1] == "fr"@);
    } else if l == "en-au"@ {
        assert("en-au"@ != "en-us"@) by { lemma_differ_at("en-au"@, "en-us"@, 3); }
        assert("en-au"@ != "en-gb"@) by { lemma_differ_at("en-au"@, "en-gb"@, 3); }
        assert("en-au"@ != "en-ca"@) by { lemma_differ_at("en-au"@, "en-ca"@, 3); }
        assert("en-au"@ != "fr-ca"@) by { lemma_differ_at("en-au"@, "fr-ca"@, 0); }
        assert("en-au"@ != "en-in"@) by { lemma_differ_at("en-au"@, "en-in"@, 3); }
        assert("en-au"@ != "hi-in"@) by { lemma_differ_at("en-au"@, "hi-in"@, 0); }
        assert("en-au"@ != "de-de"@) by { lemma_differ_at("en-au"@, "de-de"@, 0); }
        assert("en-au"@ != "de-at"@) by { lemma_differ_at("en-au"@, "de-at"@, 0); }
        assert("en-au"@ != "fr-fr"@) by { lemma_differ_at("en-au"@, "fr-fr"@, 0); }
        assert("en-au"@ != "es-es"@) by { lemma_differ_at("en-au"@, "es-es"@, 1); }
        assert("en-au"@ != "nl-nl"@) by { lemma_differ_at("en-au"@, "nl-nl"@, 0); }
        assert("en-au"@ != "ja-jp"@) by { lemma_differ_at("en-au"@, "ja-jp"@, 0); }
        assert("en-au"@ != "zh-cn"@) by { lemma_differ_at("en-au"@, "zh-cn"@, 0); }
        lemma_two_letter_primary(l);
        assert(l.take(2) =~= "en"@);
        assert(default_timezone_spec(tag) == "Australia/Sydney"@);
        assert(timezone_languages_spec("Australia/Sydney"@)[0] == "en"@);
    } else if l == "en-in"@ {
        assert("en-in"@ != "en-us"@) by { lemma_differ_at("en-in"@, "en-us"@, 3); }
        assert("en-in"@ != "en-gb"@) by { lemma_differ_at("en-in"@, "en-gb"@, 3); }
        assert("en-in"@ != "en-ca"@) by { lemma_differ_at("en-in"@, "en-ca"@, 3); }
        assert("en-in"@ != "fr-ca"@) by { lemma_differ_at("en-in"@, "fr-ca"@, 0); }
        assert("en-in"@ != "en-au"@) by { lemma_differ_at("en-in"@, "en-au"@, 3); }
        assert("en-in"@ != "hi-in"@) by { lemma_differ_at("en-in"@, "hi-in"@, 0); }
        assert("en-in"@ != "de-de"@) by { lemma_differ_at("en-in"@, "de-de"@, 0); }
        assert("en-in"@ != "de-at"@) by { lemma_differ_at("en-in"@, "de-at"@, 0); }
        assert("en-in"@ != "fr-fr"@) by { lemma_differ_at("en-in"@, "fr-fr"@, 0); }
        assert("en-in"@ != "es-es"@) by { lemma_differ_at("en-in"@, "es-es"@, 1); }
        assert("en-in"@ != "nl-nl"@) by { lemma_differ_at("en-in"@, "nl-nl"@, 0); }
        assert("en-in"@ != "ja-jp"@) by { lemma_differ_at("en-in"@, "ja-jp"@, 0); }
        assert("en-in"@ != "zh-cn"@) by { lemma_differ_at("en-in"@, "zh-cn"@, 0); }
        lemma_two_letter_primary(l);
        assert(l.take(2) =~= "en"@);
        assert(default_timezone_spec(tag) == "Asia/Kolkata"@);
        assert(timezone_languages_spec("Asia/Kolkata"@)[0] == "en"@);
    } else if l == "hi-in"@ {
        assert("hi-in"@ != "en-us"@) by { lemma_differ_at("hi-in"@, "en-us"@, 0); }
        assert("hi-in"@ != "en-gb"@) by { lemma_differ_at("hi-in"@, "en-gb"@, 0); }
        assert("hi-in"@ != "en-ca"@) by { lemma_differ_at("hi-in"@, "en-ca"@, 0); }
        assert("hi-in"@ != "fr-ca"@) by { lemma_differ_at("hi-in"@, "fr-ca"@, 0); }
        assert("hi-in"@ != "en-au"@) by { lemma_differ_at("hi-in"@, "en-au"@, 0); }
        assert("hi-in"@ != "en-in"@) by { lemma_differ_at("hi-in"@, "en-in"@, 0); }
        assert("hi-in"@ != "de-de"@) by { lemma_differ_at("hi-in"@, "de-de"@, 0); }
        assert("hi-in"@ != "de-at"@) by { lemma_differ_at("hi-in"@, "de-at"@, 0); }
        assert("hi-in"@ != "fr-fr"@) by { lemma_differ_at("hi-in"@, "fr-fr"@, 0); }
        assert("hi-in"@ != "es-es"@) by { lemma_differ_at("hi-in"@, "es-es"@, 0); }
        assert("hi-in"@ != "nl-nl"@) by { lemma_differ_at("hi-in"@, "nl-nl"@, 0); }
        assert("hi-in"@ != "ja-jp"@) by { lemma_differ_at("hi-in"@, "ja-jp"@, 0); }
        assert("hi-in"@ != "zh-cn"@) by { lemma_differ_at("hi-in"@, "zh-cn"@, 0); }
        lemma_two_letter_primary(l);
        assert(l.take(2) =~= "hi"@);
        assert(default_timezone_spec(tag) == "Asia/Kolkata"@);
        assert(timezone_languages_spec("Asia/Kolkata"@)[1] == "hi"@);
    } else if l == "de-de"@ {
        assert("de-de"@ != "en-us"@) by { lemma_differ_at("de-de"@, "en-us"@, 0); }
        assert("de-de"@ != "en-gb"@) by { lemma_differ_at("de-de"@, "en-gb"@, 0); }
        assert("de-de"@ != "en-ca"@) by { lemma_differ_at("de-de"@, "en-ca"@, 0); }
        assert("de-de"@ != "fr-ca"@) by { lemma_differ_at("de-de"@, "fr-ca"@, 0); }
        assert("de-de"@ != "en-au"@) by { lemma_differ_at("de-de"@, "en-au"@, 0); }
        assert("de-de"@ != "en-in"@) by { lemma_differ_at("de-de"@, "en-in"@, 0); }
        assert("de-de"@ != "hi-in"@) by { lemma_differ_at("de-de"@, "hi-in"@, 0); }
        assert("de-de"@ != "de-at"@) by { lemma_differ_at("de-de"@, "de-at"@, 3); }
        assert("de-de"@ != "fr-fr"@) by { lemma_differ_at("de-de"@, "fr-fr"@, 0); }
        assert("de-de"@ != "es-es"@) by { lemma_differ_at("de-de"@, "es-es"@, 0); }
        assert("de-de"@ != "nl-nl"@) by { lemma_differ_at("de-de"@, "nl-nl"@, 0); }
        assert("de-de"@ != "ja-jp"@) by { lemma_differ_at("de-de"@, "ja-jp"@, 0); }
        assert("de-de"@ != "zh-cn"@) by { lemma_differ_at("de-de"@, "zh-cn"@, 0); }
        lemma_two_letter_primary(l);
        assert(l.take(2) =~= "de"@);
        assert(default_timezone_spec(tag) == "Europe/Berlin"@);
        assert(timezone_languages_spec("Europe/Berlin"@)[0] == "de"@);
    } else if l == "de-at"@ {
        assert("de-at"@ != "en-us"@) by { lemma_differ_at("de-at"@, "en-us"@, 0); }
        assert("de-at"@ != "en-gb"@) by { lemma_differ_at("de-at"@, "en-gb"@, 0); }
        assert("de-at"@ != "en-ca"@) by { lemma_differ_at("de-at"@, "en-ca"@, 0); }
        assert("de-at"@ != "fr-ca"@) by { lemma_differ_at("de-at"@, "fr-ca"@, 0); }
        assert("de-at"@ != "en-au"@) by { lemma_differ_at("de-at"@, "en-au"@, 0); }
        assert("de-at"@ != "en-in"@) by { lemma_differ_at("de-at"@, "en-in"@, 0); }
        assert("de-at"@ != "hi-in"@) by { lemma_differ_at("de-at"@, "hi-in"@, 0); }
        assert("de-at"@ != "de-de"@) by { lemma_differ_at("de-at"@, "de-de"@, 3); }
        assert("de-at"@ != "fr-fr"@) by { lemma_differ_at("de-at"@, "fr-fr"@, 0); }
        assert("de-at"@ != "es-es"@) by { lemma_differ_at("de-at"@, "es-es"@, 0); }
        assert("de-at"@ != "nl-nl"@) by { lemma_differ_at("de-at"@, "nl-nl"@, 0); }
        assert("de-at"@ != "ja-jp"@) by { lemma_differ_at("de-at"@, "ja-jp"@, 0); }
        assert("de-at"@ != "zh-cn"@) by { lemma_differ_at("de-at"@, "zh-cn"@, 0); }
        lemma_two_letter_primary(l);
        assert(l.take(2) =~= "de"@);
        assert(default_timezone_spec(tag) == "Europe/Berlin"@);
        assert(timezone_languages_spec("Europe/Berlin"@)[0] == "de"@);
    } else if l == "fr-fr"@ {
        assert("fr-fr"@ != "en-us"@) by { lemma_differ_at("fr-fr"@, "en-us"@, 0); }
        assert("fr-fr"@ != "en-gb"@) by { lemma_differ_at("fr-fr"@, "en-gb"@, 0); }
        assert("fr-fr"@ != "en-ca"@) by { lemma_differ_at("fr-fr"@, "en-ca"@, 0); }
        assert("fr-fr"@ != "fr-ca"@) by { lemma_differ_at("fr-fr"@, "fr-ca"@, 3); }
        assert("fr-fr"@ != "en-au"@) by { lemma_differ_at("fr-fr"@, "en-au"@, 0); }
        assert("fr-fr"@ != "en-in"@) by { lemma_differ_at("fr-fr"@, "en-in"@, 0); }
        assert("fr-fr"@ != "hi-in"@) by { lemma_differ_at("fr-fr"@, "hi-in"@, 0); }
        assert("fr-fr"@ != "de-de"@) by { lemma_differ_at("fr-fr"@, "de-de"@, 0); }
        assert("fr-fr"@ != "de-at"@) by { lemma_differ_at("fr-fr"@, "de-at"@, 0); }
        assert("fr-fr"@ != "es-es"@) by { lemma_differ_at("fr-fr"@, "es-es"@, 0); }
        assert("fr-fr"@ != "nl-nl"@) by { lemma_differ_at("fr-fr"@, "nl-nl"@, 0); }
        assert("fr-fr"@ != "ja-jp"@) by { lemma_differ_at("fr-fr"@, "ja-jp"@, 0); }
        assert("fr-fr"@ != "zh-cn"@) by { lemma_differ_at("fr-fr"@, "zh-cn"@, 0); }
        lemma_two_letter_primary(l);
        assert(l.take(2) =~= "fr"@);
        assert(default_timezone_spec(tag) == "Europe/Paris"@);
        assert(timezone_languages_spec("Europe/Paris"@)[0] == "fr"@);
    } else if l == "es-es"@ {
        assert("es-es"@ != "en-us"@) by { lemma_differ_at("es-es"@, "en-us"@, 1); }
        assert("es-es"@ != "en-gb"@) by { lemma_differ_at("es-es"@, "en-gb"@, 1); }
        assert("es-es"@ != "en-ca"@) by { lemma_differ_at("es-es"@, "en-ca"@, 1); }
        assert("es-es"@ != "fr-ca"@) by { lemma_differ_at("es-es"@, "fr-ca"@, 0); }
        assert("es-es"@ != "en-au"@) by { lemma_differ_at("es-es"@, "en-au"@, 1); }
        assert("es-es"@ != "en-in"@) by { lemma_differ_at("es-es"@, "en-in"@, 1); }
        assert("es-es"@ != "hi-in"@) by { lemma_differ_at("es-es"@, "hi-in"@, 0); }
        assert("es-es"@ != "de-de"@) by { lemma_differ_at("es-es"@, "de-de"@, 0); }
        assert("es-es"@ != "de-at"@) by { lemma_differ_at("es-es"@, "de-at"@, 0); }
        assert("es-es"@ != "fr-fr"@) by { lemma_differ_at("es-es"@, "fr-fr"@, 0); }
        assert("es-es"@ != "nl-nl"@) by { lemma_differ_at("es-es"@, "nl-nl"@, 0); }
        assert("es-es"@ != "ja-jp"@) by { lemma_differ_at("es-es"@, "ja-jp"@, 0); }
        assert("es-es"@ != "zh-cn"@) by { lemma_differ_at("es-es"@, "zh-cn"@, 0); }
        lemma_two_letter_primary(l);
        assert(l.take(2) =~= "es"@);
        assert(default_timezone_spec(tag) == "Europe/Madrid"@);
        assert(timezone_languages_spec("Europe/Madrid"@)[0] == "es"@);
    } else if l == "nl-nl"@ {
        assert("nl-nl"@ != "en-us"@) by { lemma_differ_at("nl-nl"@, "en-us"@, 0); }
        assert("nl-nl"@ != "en-gb"@) by { lemma_differ_at("nl-nl"@, "en-gb"@, 0); }
        assert("nl-nl"@ != "en-ca"@) by { lemma_differ_at("nl-nl"@, "en-ca"@, 0); }
        assert("nl-nl"@ != "fr-ca"@) by { lemma_differ_at("nl-nl"@, "fr-ca"@, 0); }
        assert("nl-nl"@ != "en-au"@) by { lemma_differ_at("nl-nl"@, "en-au"@, 0); }
        assert("nl-nl"@ != "en-in"@) by { lemma_differ_at("nl-nl"@, "en-in"@, 0); }
        assert("nl-nl"@ != "hi-in"@) by { lemma_differ_at("nl-nl"@, "hi-in"@, 0); }
        assert("nl-nl"@ != "de-de"@) by { lemma_differ_at("nl-nl"@, "de-de"@, 0); }
        assert("nl-nl"@ != "de-at"@) by { lemma_differ_at("nl-nl"@, "de-at"@, 0); }
        assert("nl-nl"@ != "fr-fr"@) by { lemma_differ_at("nl-nl"@, "fr-fr"@, 0); }
        assert("nl-nl"@ != "es-es"@) by { lemma_differ_at("nl-nl"@, "es-es"@, 0); }
        assert("nl-nl"@ != "ja-jp"@) by { lemma_differ_at("nl-nl"@, "ja-jp"@, 0); }
        assert("nl-nl"@ != "zh-cn"@) by { lemma_differ_at("nl-nl"@, "zh-cn"@, 0); }
        lemma_two_letter_primary(l);
        assert(l.take(2) =~= "nl"@);
        assert(default_timezone_spec(tag) == "Europe/Amsterdam"@);
        assert(timezone_languages_spec("Europe/Amsterdam"@)[0] == "nl"@);
    } else if l == "ja-jp"@ {
        assert("ja-jp"@ != "en-us"@) by { lemma_differ_at("ja-jp"@, "en-us"@, 0); }
        assert("ja-jp"@ != "en-gb"@) by { lemma_differ_at("ja-jp"@, "en-gb"@, 0); }
        assert("ja-jp"@ != "en-ca"@) by { lemma_differ_at("ja-jp"@, "en-ca"@, 0); }
        assert("ja-jp"@ != "fr-ca"@) by { lemma_differ_at("ja-jp"@, "fr-ca"@, 0); }
        assert("ja-jp"@ != "en-au"@) by { lemma_differ_at("ja-jp"@, "en-au"@, 0); }
        assert("ja-jp"@ != "en-in"@) by { lemma_differ_at("ja-jp"@, "en-in"@, 0); }
        assert("ja-jp"@ != "hi-in"@) by { lemma_differ_at("ja-jp"@, "hi-in"@, 0); }
        assert("ja-jp"@ != "de-de"@) by { lemma_differ_at("ja-jp"@, "de-de"@, 0); }
        assert("ja-jp"@ != "de-at"@) by { lemma_differ_at("ja-jp"@, "de-at"@, 0); }
        assert("ja-jp"@ != "fr-fr"@) by { lemma_differ_at("ja-jp"@, "fr-fr"@, 0); }
        assert("ja-jp"@ != "es-es"@) by { lemma_differ_at("ja-jp"@, "es-es"@, 0); }
        assert("ja-jp"@ != "nl-nl"@) by { lemma_differ_at("ja-jp"@, "nl-nl"@, 0); }
        assert("ja-jp"@ != "zh-cn"@) by { lemma_differ_at("ja-jp"@, "zh-cn"@, 0); }
        lemma_two_letter_primary(l);
        assert(l.take(2) =~= "ja"@);
        assert(default_timezone_spec(tag) == "Asia/Tokyo"@);
        assert(timezone_languages_spec("Asia/Tokyo"@)[0] == "ja"@);
    } else if l == "zh-cn"@ {
        assert("zh-cn"@ != "en-us"@) by { lemma_differ_at("zh-cn"@, "en-us"@, 0); }
        assert("zh-cn"@ != "en-gb"@) by { lemma_differ_at("zh-cn"@, "en-gb"@, 0); }
        assert("zh-cn"@ != "en-ca"@) by { lemma_differ_at("zh-cn"@, "en-ca"@, 0); }
        assert("zh-cn"@ != "fr-ca"@) by { lemma_differ_at("zh-cn"@, "fr-ca"@, 0); }
        assert("zh-cn"@ != "en-au"@) by { lemma_differ_at("zh-cn"@, "en-au"@, 0); }
        assert("zh-cn"@ != "en-in"@) by { lemma_differ_at("zh-cn"@, "en-in"@, 0); }
        assert("zh-cn"@ != "hi-in"@) by { lemma_differ_at("zh-cn"@, "hi-in"@, 0); }
        assert("zh-cn"@ != "de-de"@) by { lemma_differ_at("zh-cn"@, "de-de"@, 0); }
        assert("zh-cn"@ != "de-at"@) by { lemma_differ_at("zh-cn"@, "de-at"@, 0); }
        assert("zh-cn"@ != "fr-fr"@) by { lemma_differ_at("zh-cn"@, "fr-fr"@, 0); }
        assert("zh-cn"@ != "es-es"@) by { lemma_differ_at("zh-cn"@, "es-es"@, 0); }
        assert("zh-cn"@ != "nl-nl"@) by { lemma_differ_at("zh-cn"@, "nl-nl"@, 0); }
        assert("zh-cn"@ != "ja-jp"@) by { lemma_differ_at("zh-cn"@, "ja-jp"@, 0); }
        lemma_two_letter_primary(l);
        assert(l.take(2) =~= "zh"@);
        assert(default_timezone_spec(tag) == "Asia/Shanghai"@);
        assert(timezone_languages_spec("Asia/Shanghai"@)[0] == "zh"@);
    } else {
        if p == "de"@ {
            assert("de"@ != "en"@) by { lemma_literal_differ("de"@, "en"@); }
            assert("de"@ != "fr"@) by { lemma_literal_differ("de"@, "fr"@); }
            assert("de"@ != "es"@) by { lemma_literal_differ("de"@, "es"@); }
            assert("de"@ != "nl"@) by { lemma_literal_differ("de"@, "nl"@); }
            assert("de"@ != "ja"@) by { lemma_literal_differ("de"@, "ja"@); }
            assert("de"@ != "zh"@) by { lemma_literal_differ("de"@, "zh"@); }
            assert("de"@ != "hi"@) by { lemma_literal_differ("de"@, "hi"@); }
            assert(default_timezone_spec(tag) == "Europe/Berlin"@);
            assert(timezone_languages_spec("Europe/Berlin"@)[0] == "de"@);
        } else if p == "fr"@ {
            assert("fr"@ != "en"@) by { lemma_literal_differ("fr"@, "en"@); }
            assert("fr"@ != "de"@) by { lemma_literal_differ("fr"@, "de"@); }
            assert("fr"@ != "es"@) by { lemma_literal_differ("fr"@, "es"@); }
            assert("fr"@ != "nl"@) by { lemma_literal_differ("fr"@, "nl"@); }
            assert("fr"@ != "ja"@) by { lemma_literal_differ("fr"@, "ja"@); }
            assert("fr"@ != "zh"@) by { lemma_literal_differ("fr"@, "zh"@); }
            assert("fr"@ != "hi"@) by { lemma_literal_differ("fr"@, "hi"@); }
            assert(default_timezone_spec(tag) == "Europe/Paris"@);
            assert(timezone_languages_spec("Europe/Paris"@)[0] == "fr"@);
        } else if p == "es"@ {
            assert("es"@ != "en"@) by { lemma_literal_differ("es"@, "en"@); }
            assert("es"@ != "de"@) by { lemma_literal_differ("es"@, "de"@); }
            assert("es"@ != "fr"@) by { lemma_literal_differ("es"@, "fr"@); }
            assert("es"@ != "nl"@) by { lemma_literal_differ("es"@, "nl"@); }
            assert("es"@ != "ja"@) by { lemma_literal_differ("es"@, "ja"@); }
            assert("es"@ != "zh"@) by { lemma_literal_differ("es"@, "zh"@); }
            assert("es"@ != "hi"@) by { lemma_literal_differ("es"@, "hi"@); }
            assert(default_timezone_spec(tag) == "Europe/Madrid"@);
            assert(timezone_languages_spec("Europe/Madrid"@)[0] == "es"@);
        } else if p == "nl"@ {
            assert("nl"@ != "en"@) by { lemma_literal_differ("nl"@, "en"@); }
            assert("nl"@ != "de"@) by { lemma_literal_differ("nl"@, "de"@); }
            assert("nl"@ != "fr"@) by { lemma_literal_differ("nl"@, "fr"@); }
            assert("nl"@ != "es"@) by { lemma_literal_differ("nl"@, "es"@); }
            assert("nl"@ != "ja"@) by { lemma_literal_differ("nl"@, "ja"@); }
            assert("nl"@ != "zh"@) by { lemma_literal_differ("nl"@, "zh"@); }
            assert("nl"@ != "hi"@) by { lemma_literal_differ("nl"@, "hi"@); }
            assert(default_timezone_spec(tag) == "Europe/Amsterdam"@);
            assert(timezone_languages_spec("Europe/Amsterdam"@)[0] == "nl"@);
        } else if p == "ja"@ {
            assert("ja"@ != "en"@) by { lemma_literal_differ("ja"@, "en"@); }
            assert("ja"@ != "de"@) by { lemma_literal_differ("ja"@, "de"@); }
            assert("ja"@ != "fr"@) by { lemma_literal_differ("ja"@, "fr"@); }
            assert("ja"@ != "es"@) by { lemma_literal_differ("ja"@, "es"@); }
            assert("ja"@ != "nl"@) by { lemma_literal_differ("ja"@, "nl"@); }
            assert("ja"@ != "zh"@) by { lemma_literal_differ("ja"@, "zh"@); }
            assert("ja"@ != "hi"@) by { lemma_literal_differ("ja"@, "hi"@); }
            assert(default_timezone_spec(tag) == "Asia/Tokyo"@);
            assert(timezone_languages_spec("Asia/Tokyo"@)[0] == "ja"@);
        } else if p == "zh"@ {
            assert("zh"@ != "en"@) by { lemma_literal_differ("zh"@, "en"@); }
            assert("zh"@ != "de"@) by { lemma_literal_differ("zh"@, "de"@); }
            assert("zh"@ != "fr"@) by { lemma_literal_differ("zh"@, "fr"@); }
            assert("zh"@ != "es"@) by { lemma_literal_differ("zh"@, "es"@); }
            assert("zh"@ != "nl"@) by { lemma_literal_differ("zh"@, "nl"@); }
            assert("zh"@ != "ja"@) by { lemma_literal_differ("zh"@, "ja"@); }
            assert("zh"@ != "hi"@) by { lemma_literal_differ("zh"@, "hi"@); }
            assert(default_timezone_spec(tag) == "Asia/Shanghai"@);
            assert(timezone_languages_spec("Asia/Shanghai"@)[0] == "zh"@);
        } else if p == "hi"@ {
            assert("hi"@ != "en"@) by { lemma_literal_differ("hi"@, "en"@); }
            assert("hi"@ != "de"@) by { lemma_literal_differ("hi"@, "de"@); }
            assert("hi"@ != "fr"@) by { lemma_literal_differ("hi"@, "fr"@); }
            assert("hi"@ != "es"@) by { lemma_literal_differ("hi"@, "es"@); }
            assert("hi"@ != "nl"@) by { lemma_literal_differ("hi"@, "nl"@); }
            assert("hi"@ != "ja"@) by { lemma_literal_differ("hi"@, "ja"@); }
            assert("hi"@ != "zh"@) by { lemma_literal_differ("hi"@, "zh"@); }
            assert(default_timezone_spec(tag) == "Asia/Kolkata"@);
            assert(timezone_languages_spec("Asia/Kolkata"@)[1] == "hi"@);
        } else {
            assert(p == "en"@);
            assert(default_timezone_spec(tag) == "America/New_York"@);
            assert(timezone_languages_spec("America/New_York"@)[0] == "en"@);
        }
    }
}

} // verus!
