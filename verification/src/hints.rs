//! User-Agent Client Hint materialisation: coherent low- and high-entropy
//! `navigator.userAgentData` values (brands, full version list, platform,
//! architecture, model) derived from a persona's overrides. Chromium only:
//! a persona without brands has none.
use vstd::prelude::*;
use crate::persona::{OverridesView, ProfileOverrides};
use crate::text::{
    before_first, before_first_exec, chars_of, contains, contains_str, first_word, first_word_exec,
    join, push_all, push_joined, push_str, second_piece, second_piece_exec, split, split_chars,
    starts_with, starts_with_chars, starts_with_str, str_eq, string_from_chars, trim, trim_chars,
    vchars, views, slice_chars, seq_eq,
};

verus! {

/// One low- or high-entropy User-Agent Client Hint brand entry.
#[derive(Debug, Clone, PartialEq, Eq)]
pub struct ClientHintBrand {
    /// Browser brand token.
    pub brand: String,
    /// Major or full version string paired with the brand.
    pub version: String,
}

/// Coherent `navigator.userAgentData` values derived from a profile override.
#[derive(Debug, Clone, PartialEq, Eq)]
pub struct ClientHints {
    /// Low-entropy `brands` value.
    pub brands: Vec<ClientHintBrand>,
    /// High-entropy `fullVersionList` value.
    pub full_version_list: Vec<ClientHintBrand>,
    /// Low-entropy `mobile` value.
    pub mobile: bool,
    /// Low-entropy `platform` value.
    pub platform: String,
    /// High-entropy `platformVersion` value.
    pub platform_version: String,
    /// High-entropy `architecture` value.
    pub architecture: String,
    /// High-entropy `bitness` value.
    pub bitness: String,
    /// High-entropy `model` value.
    pub model: String,
    /// High-entropy `uaFullVersion` value.
    pub ua_full_version: String,
    /// High-entropy `wow64` value.
    pub wow64: bool,
}

pub struct HintsView {
    pub brands: Seq<(Seq<char>, Seq<char>)>,
    pub full_version_list: Seq<(Seq<char>, Seq<char>)>,
    pub mobile: bool,
    pub platform: Seq<char>,
    pub platform_version: Seq<char>,
    pub architecture: Seq<char>,
    pub bitness: Seq<char>,
    pub model: Seq<char>,
    pub ua_full_version: Seq<char>,
    pub wow64: bool,
}

pub open spec fn hint_brand_views(v: Seq<ClientHintBrand>) -> Seq<(Seq<char>, Seq<char>)> {
    v.map_values(|b: ClientHintBrand| (b.brand@, b.version@))
}

impl View for ClientHints {
    type V = HintsView;

    open spec fn view(&self) -> HintsView {
        HintsView {
            brands: hint_brand_views(self.brands@),
            full_version_list: hint_brand_views(self.full_version_list@),
            mobile: self.mobile,
            platform: self.platform@,
            platform_version: self.platform_version@,
            architecture: self.architecture@,
            bitness: self.bitness@,
            model: self.model@,
            ua_full_version: self.ua_full_version@,
            wow64: self.wow64,
        }
    }
}

// ───────────────────────── version helpers ─────────────────────────

/// `ps` cut to `n` parts, or padded with `"0"` parts up to `n`.
pub open spec fn pad_parts(ps: Seq<Seq<char>>, n: nat) -> Seq<Seq<char>> {
    if ps.len() >= n {
        ps.take(n as int)
    } else {
        ps + Seq::new((n - ps.len()) as nat, |_i: int| "0"@)
    }
}

/// A dotted version with exactly `n` components (cut, or padded with `0`).
pub open spec fn normalize_version(v: Seq<char>, n: nat) -> Seq<char> {
    join(pad_parts(split(v, '.'), n), "."@)
}

fn normalize_version_exec(v: &Vec<char>, n: usize) -> (r: Vec<char>)
    ensures
        r@ == normalize_version(v@, n as nat),
{
    let mut parts = split_chars(v, '.');
    let ghost ps = views(parts@);
    if parts.len() >= n {
        let mut kept: Vec<Vec<char>> = Vec::new();
        let mut i: usize = 0;
        while i < n
            invariant
                i <= n <= parts@.len(),
                ps == views(parts@),
                views(kept@) == ps.take(i as int),
            decreases n - i,
        {
            let mut p: Vec<char> = Vec::new();
            push_all(&mut p, &parts[i]);
            let ghost before = views(kept@);
            kept.push(p);
            assert(views(kept@) =~= before.push(ps[i as int]));
            assert(ps.take(i + 1) =~= ps.take(i as int).push(ps[i as int]));
            i = i + 1;
        }
        let mut out: Vec<char> = Vec::new();
        push_joined(&mut out, &kept, '.');
        assert(seq!['.'] =~= "."@) by {
            reveal_strlit(".");
        }
        out
    } else {
        let ghost start = ps;
        while parts.len() < n
            invariant
                start.len() <= parts@.len() <= n,
                views(parts@) == start + Seq::new(
                    (parts@.len() - start.len()) as nat,
                    |_i: int| "0"@,
                ),
            decreases n - parts@.len(),
        {
            let ghost before = views(parts@);
            let ghost k = (parts@.len() - start.len()) as nat;
            parts.push(vchars("0"));
            assert(views(parts@) =~= before.push("0"@));
            assert(start + Seq::new(k + 1, |_i: int| "0"@) =~= (start + Seq::new(k, |_i: int| "0"@)).push("0"@));
        }
        let mut out: Vec<char> = Vec::new();
        push_joined(&mut out, &parts, '.');
        assert(seq!['.'] =~= "."@) by {
            reveal_strlit(".");
        }
        out
    }
}

/// `ua.split(token).nth(1)` up to its first whitespace, when present.
pub open spec fn version_after_token_spec(ua: Seq<char>, token: Seq<char>) -> Option<Seq<char>> {
    match second_piece(ua, token) {
        Some(piece) => match first_word(piece) {
            Some(w) => if w.len() > 0 {
                Some(w)
            } else {
                None
            },
            None => None,
        },
        None => None,
    }
}

fn version_after_token(ua: &Vec<char>, token: &str) -> (r: Option<Vec<char>>)
    ensures
        match version_after_token_spec(ua@, token@) {
            Some(v) => r matches Some(x) && x@ == v,
            None => r is None,
        },
{
    match second_piece_exec(ua, &vchars(token)) {
        Some(piece) => match first_word_exec(&piece) {
            Some(w) => if w.len() > 0 {
                Some(w)
            } else {
                None
            },
            None => None,
        },
        None => None,
    }
}

/// The full version the high-entropy list carries for one brand: the GREASE
/// `99.0.0.0` for a `99` or `Brand` filler; else the version after the
/// brand's UA token, else the brand's own version, normalised to four parts.
pub open spec fn full_version_spec(brand: Seq<char>, major: Seq<char>, ua: Seq<char>) -> Seq<char> {
    if major == "99"@ || contains(brand, "Brand"@) {
        "99.0.0.0"@
    } else {
        let token = if brand == "Microsoft Edge"@ {
            "Edg/"@
        } else if brand == "Opera"@ {
            "OPR/"@
        } else if brand == "Samsung Internet"@ {
            "SamsungBrowser/"@
        } else if brand == "Chromium"@ || brand == "Google Chrome"@ || brand == "Brave"@ {
            "Chrome/"@
        } else {
            Seq::empty()
        };
        match (if token.len() > 0 {
            version_after_token_spec(ua, token)
        } else {
            None
        }) {
            Some(v) => normalize_version(v, 4),
            None => normalize_version(major, 4),
        }
    }
}

fn full_version_for_brand(brand: &str, major_version: &str, ua: &Vec<char>) -> (r: Vec<char>)
    ensures
        r@ == full_version_spec(brand@, major_version@, ua@),
{
    if str_eq(major_version, "99") || contains_str(brand, "Brand") {
        return vchars("99.0.0.0");
    }
    let token: &str = if str_eq(brand, "Microsoft Edge") {
        "Edg/"
    } else if str_eq(brand, "Opera") {
        "OPR/"
    } else if str_eq(brand, "Samsung Internet") {
        "SamsungBrowser/"
    } else if str_eq(brand, "Chromium") || str_eq(brand, "Google Chrome") || str_eq(brand, "Brave") {
        "Chrome/"
    } else {
        ""
    };
    proof {
        reveal_strlit("");
        reveal_strlit("Edg/");
        reveal_strlit("OPR/");
        reveal_strlit("SamsungBrowser/");
        reveal_strlit("Chrome/");
    }
    let tv = vchars(token);
    if tv.len() > 0 {
        if let Some(v) = version_after_token(ua, token) {
            return normalize_version_exec(&v, 4);
        }
    }
    normalize_version_exec(&vchars(major_version), 4)
}

/// The version of the first entry of `list` of brand `pref` that is not the
/// GREASE `99.0.0.0`.
pub open spec fn preferred_entry(list: Seq<(Seq<char>, Seq<char>)>, pref: Seq<char>) -> Option<
    Seq<char>,
>
    decreases list.len(),
{
    if list.len() == 0 {
        None
    } else if list[0].0 == pref && list[0].1 != "99.0.0.0"@ {
        Some(list[0].1)
    } else {
        preferred_entry(list.drop_first(), pref)
    }
}

/// The version of the first entry of `list` that is not the GREASE `99.0.0.0`.
pub open spec fn first_real_version(list: Seq<(Seq<char>, Seq<char>)>) -> Option<Seq<char>>
    decreases list.len(),
{
    if list.len() == 0 {
        None
    } else if list[0].1 != "99.0.0.0"@ {
        Some(list[0].1)
    } else {
        first_real_version(list.drop_first())
    }
}

/// The `uaFullVersion` a full version list implies: the first real version
/// of Google Chrome, Microsoft Edge, Brave, Opera, Samsung Internet or
/// Chromium, in that order of preference, else the first real version.
pub open spec fn preferred_version_spec(list: Seq<(Seq<char>, Seq<char>)>) -> Option<Seq<char>> {
    match preferred_entry(list, "Google Chrome"@) {
        Some(v) => Some(v),
        None => match preferred_entry(list, "Microsoft Edge"@) {
            Some(v) => Some(v),
            None => match preferred_entry(list, "Brave"@) {
                Some(v) => Some(v),
                None => match preferred_entry(list, "Opera"@) {
                    Some(v) => Some(v),
                    None => match preferred_entry(list, "Samsung Internet"@) {
                        Some(v) => Some(v),
                        None => match preferred_entry(list, "Chromium"@) {
                            Some(v) => Some(v),
                            None => first_real_version(list),
                        },
                    },
                },
            },
        },
    }
}

fn find_preferred(list: &Vec<ClientHintBrand>, pref: &str) -> (r: Option<usize>)
    ensures
        match preferred_entry(hint_brand_views(list@), pref@) {
            Some(v) => r matches Some(i) && i < list@.len() && list@[i as int].version@ == v,
            None => r is None,
        },
{
    let ghost l = hint_brand_views(list@);
    let mut i: usize = 0;
    assert(l.skip(0) =~= l);
    while i < list.len()
        invariant
            i <= list@.len(),
            l == hint_brand_views(list@),
            preferred_entry(l, pref@) == preferred_entry(l.skip(i as int), pref@),
        decreases list@.len() - i,
    {
        assert(l.skip(i as int)[0] == l[i as int]);
        assert(l.skip(i as int).drop_first() =~= l.skip(i + 1));
        if str_eq(list[i].brand.as_str(), pref) && !str_eq(list[i].version.as_str(), "99.0.0.0") {
            return Some(i);
        }
        i = i + 1;
    }
    None
}

fn find_first_real(list: &Vec<ClientHintBrand>) -> (r: Option<usize>)
    ensures
        match first_real_version(hint_brand_views(list@)) {
            Some(v) => r matches Some(i) && i < list@.len() && list@[i as int].version@ == v,
            None => r is None,
        },
{
    let ghost l = hint_brand_views(list@);
    let mut i: usize = 0;
    assert(l.skip(0) =~= l);
    while i < list.len()
        invariant
            i <= list@.len(),
            l == hint_brand_views(list@),
            first_real_version(l) == first_real_version(l.skip(i as int)),
        decreases list@.len() - i,
    {
        assert(l.skip(i as int)[0] == l[i as int]);
        assert(l.skip(i as int).drop_first() =~= l.skip(i + 1));
        if !str_eq(list[i].version.as_str(), "99.0.0.0") {
            return Some(i);
        }
        i = i + 1;
    }
    None
}

fn preferred_ua_full_version(list: &Vec<ClientHintBrand>) -> (r: Option<Vec<char>>)
    ensures
        match preferred_version_spec(hint_brand_views(list@)) {
            Some(v) => r matches Some(x) && x@ == v,
            None => r is None,
        },
{
    let found = match find_preferred(list, "Google Chrome") {
        Some(i) => Some(i),
        None => match find_preferred(list, "Microsoft Edge") {
            Some(i) => Some(i),
            None => match find_preferred(list, "Brave") {
                Some(i) => Some(i),
                None => match find_preferred(list, "Opera") {
                    Some(i) => Some(i),
                    None => match find_preferred(list, "Samsung Internet") {
                        Some(i) => Some(i),
                        None => match find_preferred(list, "Chromium") {
                            Some(i) => Some(i),
                            None => find_first_real(list),
                        },
                    },
                },
            },
        },
    };
    match found {
        Some(i) => Some(chars_of(list[i].version.as_str())),
        None => None,
    }
}

// ───────────────────────── platform helpers ─────────────────────────

/// The Client Hints `platform` of a `navigator.platform`.
pub open spec fn hint_platform_spec(p: Seq<char>) -> Seq<char> {
    if starts_with(p, "Win"@) {
        "Windows"@
    } else if starts_with(p, "Mac"@) {
        "macOS"@
    } else if starts_with(p, "iPhone"@) || starts_with(p, "iPad"@) {
        "iOS"@
    } else if starts_with(p, "Linux arm"@) {
        "Android"@
    } else if starts_with(p, "Linux"@) {
        "Linux"@
    } else {
        "Unknown"@
    }
}

fn client_hint_platform(p: &str) -> (r: String)
    ensures
        r@ == hint_platform_spec(p@),
{
    let s: &str = if starts_with_str(p, "Win") {
        "Windows"
    } else if starts_with_str(p, "Mac") {
        "macOS"
    } else if starts_with_str(p, "iPhone") || starts_with_str(p, "iPad") {
        "iOS"
    } else if starts_with_str(p, "Linux arm") {
        "Android"
    } else if starts_with_str(p, "Linux") {
        "Linux"
    } else {
        "Unknown"
    };
    crate::text::owned(s)
}

/// The index of the first `;` or `)` of `s` (or its length).
pub open spec fn first_semi_paren(s: Seq<char>) -> int
    decreases s.len(),
{
    if s.len() == 0 {
        0
    } else if s[0] == ';' || s[0] == ')' {
        0
    } else {
        1 + first_semi_paren(s.drop_first())
    }
}

/// The Android version of a UA (`Android 14; ...` → `14.0.0`), normalised to
/// three parts.
pub open spec fn android_version_spec(ua: Seq<char>) -> Option<Seq<char>> {
    match second_piece(ua, "Android "@) {
        Some(rest) => {
            let v = trim(rest.take(first_semi_paren(rest)));
            if v.len() == 0 {
                None
            } else {
                Some(normalize_version(v, 3))
            }
        },
        None => None,
    }
}

fn android_version_from_ua(ua: &Vec<char>) -> (r: Option<Vec<char>>)
    ensures
        match android_version_spec(ua@) {
            Some(v) => r matches Some(x) && x@ == v,
            None => r is None,
        },
{
    match second_piece_exec(ua, &vchars("Android ")) {
        Some(rest) => {
            let mut i: usize = 0;
            assert(rest@.skip(0) =~= rest@);
            while i < rest.len() && rest[i] != ';' && rest[i] != ')'
                invariant
                    i <= rest@.len(),
                    first_semi_paren(rest@) == i + first_semi_paren(rest@.skip(i as int)),
                decreases rest@.len() - i,
            {
                assert(rest@.skip(i as int)[0] == rest@[i as int]);
                assert(rest@.skip(i as int).drop_first() =~= rest@.skip(i + 1));
                i = i + 1;
            }
            proof {
                if i < rest@.len() {
                    assert(rest@.skip(i as int)[0] == rest@[i as int]);
                }
            }
            let head = slice_chars(&rest, 0, i);
            let v = trim_chars(&head);
            if v.len() == 0 {
                None
            } else {
                Some(normalize_version_exec(&v, 3))
            }
        },
        None => None,
    }
}

/// The trimmed `;`-separated parts of the first parenthesised UA comment.
pub open spec fn comment_parts(ua: Seq<char>) -> Option<Seq<Seq<char>>> {
    match second_piece(ua, "("@) {
        Some(p) => Some(split(before_first(p, ")"@), ';').map_values(|x: Seq<char>| trim(x))),
        None => None,
    }
}

/// The first index from `i` whose part starts with `Android `.
pub open spec fn android_index(parts: Seq<Seq<char>>, i: int) -> Option<int>
    decreases parts.len() - i,
{
    if i >= parts.len() || i < 0 {
        None
    } else if starts_with(parts[i], "Android "@) {
        Some(i)
    } else {
        android_index(parts, i + 1)
    }
}

/// The first part from `i` that is neither empty nor starts with `wv`.
pub open spec fn model_from(parts: Seq<Seq<char>>, i: int) -> Option<Seq<char>>
    decreases parts.len() - i,
{
    if i >= parts.len() || i < 0 {
        None
    } else if parts[i].len() > 0 && !starts_with(parts[i], "wv"@) {
        Some(parts[i])
    } else {
        model_from(parts, i + 1)
    }
}

/// The device model of an Android UA: the first non-empty, non-`wv` part of
/// the UA comment after its `Android ...` part.
pub open spec fn android_model_spec(ua: Seq<char>) -> Option<Seq<char>> {
    match comment_parts(ua) {
        Some(parts) => match android_index(parts, 0) {
            Some(k) => model_from(parts, k + 1),
            None => None,
        },
        None => None,
    }
}

fn android_model_from_ua(ua: &Vec<char>) -> (r: Option<Vec<char>>)
    ensures
        match android_model_spec(ua@) {
            Some(v) => r matches Some(x) && x@ == v,
            None => r is None,
        },
{
    let piece = match second_piece_exec(ua, &vchars("(")) {
        Some(p) => p,
        None => return None,
    };
    let seg = before_first_exec(&piece, &vchars(")"));
    let raw = split_chars(&seg, ';');
    let ghost parts = split(seg@, ';').map_values(|x: Seq<char>| trim(x));
    let mut trimmed: Vec<Vec<char>> = Vec::new();
    let mut i: usize = 0;
    while i < raw.len()
        invariant
            i <= raw@.len(),
            views(raw@) == split(seg@, ';'),
            parts == split(seg@, ';').map_values(|x: Seq<char>| trim(x)),
            trimmed@.len() == i,
            forall|q: int| 0 <= q < i ==> #[trigger] trimmed@[q]@ == parts[q],
        decreases raw@.len() - i,
    {
        assert(views(raw@)[i as int] == raw@[i as int]@);
        trimmed.push(trim_chars(&raw[i]));
        i = i + 1;
    }
    assert(views(trimmed@) =~= parts);
    let ghost ps = views(trimmed@);
    let mut k: usize = 0;
    while k < trimmed.len() && !starts_with_chars(&trimmed[k], &vchars("Android "))
        invariant
            k <= trimmed@.len(),
            ps == views(trimmed@),
            android_index(ps, 0) == android_index(ps, k as int),
        decreases trimmed@.len() - k,
    {
        assert(ps[k as int] == trimmed@[k as int]@);
        k = k + 1;
    }
    if k == trimmed.len() {
        return None;
    }
    assert(ps[k as int] == trimmed@[k as int]@);
    assert(android_index(ps, 0) == Some(k as int));
    assert(android_model_spec(ua@) == model_from(ps, k + 1));
    let mut j: usize = k + 1;
    while j < trimmed.len()
        invariant
            k < j <= trimmed@.len(),
            ps == views(trimmed@),
            android_model_spec(ua@) == model_from(ps, k + 1),
            model_from(ps, k + 1) == model_from(ps, j as int),
        decreases trimmed@.len() - j,
    {
        assert(ps[j as int] == trimmed@[j as int]@);
        if trimmed[j].len() > 0 && !starts_with_chars(&trimmed[j], &vchars("wv")) {
            let mut r: Vec<char> = Vec::new();
            push_all(&mut r, &trimmed[j]);
            return Some(r);
        }
        j = j + 1;
    }
    None
}

/// Everything the high-entropy platform surfaces carry for a persona.
pub open spec fn platform_version_spec(o: OverridesView) -> Seq<char> {
    if starts_with(o.platform, "Win"@) {
        "15.0.0"@
    } else if starts_with(o.platform, "Mac"@) {
        "14.0.0"@
    } else if starts_with(o.platform, "Linux arm"@) {
        match android_version_spec(o.user_agent) {
            Some(v) => v,
            None => "14.0.0"@,
        }
    } else {
        Seq::empty()
    }
}

pub open spec fn is_android_platform(p: Seq<char>) -> bool {
    starts_with(p, "Linux arm"@)
}

/// The coherent Client Hints of a persona, or `None` for a persona without
/// brands (non-Chromium) or whose `uaFullVersion` cannot be derived (no real
/// version in the list and no `Chrome/` token in the UA).
pub open spec fn client_hints_spec(o: OverridesView) -> Option<HintsView> {
    if o.brands.len() == 0 {
        None
    } else {
        let full = o.brands.map_values(
            |b: (Seq<char>, Seq<char>)| (b.0, full_version_spec(b.0, b.1, o.user_agent)),
        );
        let uafv = match preferred_version_spec(full) {
            Some(v) => Some(v),
            None => match version_after_token_spec(o.user_agent, "Chrome/"@) {
                Some(v) => Some(normalize_version(v, 4)),
                None => None,
            },
        };
        match uafv {
            None => None,
            Some(u) => Some(
                HintsView {
                    brands: o.brands,
                    full_version_list: full,
                    mobile: o.mobile,
                    platform: hint_platform_spec(o.platform),
                    platform_version: platform_version_spec(o),
                    architecture: if is_android_platform(o.platform) {
                        "arm"@
                    } else {
                        "x86"@
                    },
                    bitness: if is_android_platform(o.platform) {
                        Seq::empty()
                    } else {
                        "64"@
                    },
                    model: if is_android_platform(o.platform) {
                        match android_model_spec(o.user_agent) {
                            Some(m) => m,
                            None => Seq::empty(),
                        }
                    } else {
                        Seq::empty()
                    },
                    ua_full_version: u,
                    wow64: false,
                },
            ),
        }
    }
}

fn owned_chars(v: &Vec<char>) -> (s: String)
    ensures
        s@ == v@,
{
    string_from_chars(v.as_slice())
}

/// Coherent User-Agent Client Hints for a Chromium-family persona (see
/// [`client_hints_spec`]).
pub fn client_hints_from_overrides(overrides: &ProfileOverrides) -> (r: Option<ClientHints>)
    ensures
        match client_hints_spec(overrides@) {
            Some(h) => r matches Some(x) && x@ == h,
            None => r is None,
        },
{
    if overrides.brands.len() == 0 {
        return None;
    }
    let ua = chars_of(overrides.user_agent.as_str());
    let ghost o = overrides@;
    let mut brands: Vec<ClientHintBrand> = Vec::new();
    let mut full: Vec<ClientHintBrand> = Vec::new();
    let mut i: usize = 0;
    while i < overrides.brands.len()
        invariant
            i <= overrides.brands@.len(),
            o == overrides@,
            ua@ == o.user_agent,
            o.brands.len() == overrides.brands@.len(),
            hint_brand_views(brands@) == o.brands.take(i as int),
            hint_brand_views(full@) == o.brands.take(i as int).map_values(
                |b: (Seq<char>, Seq<char>)| (b.0, full_version_spec(b.0, b.1, o.user_agent)),
            ),
        decreases overrides.brands@.len() - i,
    {
        let brand = &overrides.brands[i].0;
        let version = &overrides.brands[i].1;
        assert(o.brands[i as int] == (brand@, version@));
        let ghost before_b = hint_brand_views(brands@);
        let ghost before_f = hint_brand_views(full@);
        brands.push(ClientHintBrand { brand: crate::text::owned(brand.as_str()), version: crate::text::owned(version.as_str()) });
        let fv = full_version_for_brand(brand.as_str(), version.as_str(), &ua);
        full.push(ClientHintBrand { brand: crate::text::owned(brand.as_str()), version: owned_chars(&fv) });
        assert(hint_brand_views(brands@) =~= before_b.push((brand@, version@)));
        assert(o.brands.take(i + 1) =~= o.brands.take(i as int).push(o.brands[i as int]));
        assert(hint_brand_views(brands@) =~= o.brands.take(i + 1));
        assert(hint_brand_views(full@) =~= before_f.push((brand@, fv@)));
        assert(hint_brand_views(full@) =~= o.brands.take(i + 1).map_values(
            |b: (Seq<char>, Seq<char>)| (b.0, full_version_spec(b.0, b.1, o.user_agent)),
        ));
        i = i + 1;
    }
    assert(o.brands.take(o.brands.len() as int) =~= o.brands);
    let ua_full_version = match preferred_ua_full_version(&full) {
        Some(v) => v,
        None => match version_after_token(&ua, "Chrome/") {
            Some(v) => normalize_version_exec(&v, 4),
            None => return None,
        },
    };
    let p = overrides.platform.as_str();
    let android = starts_with_str(p, "Linux arm");
    let platform_version = if starts_with_str(p, "Win") {
        crate::text::owned("15.0.0")
    } else if starts_with_str(p, "Mac") {
        crate::text::owned("14.0.0")
    } else if android {
        match android_version_from_ua(&ua) {
            Some(v) => owned_chars(&v),
            None => crate::text::owned("14.0.0"),
        }
    } else {
        crate::text::owned("")
    };
    let architecture = if android {
        crate::text::owned("arm")
    } else {
        crate::text::owned("x86")
    };
    let bitness = if android {
        crate::text::owned("")
    } else {
        crate::text::owned("64")
    };
    let model = if android {
        match android_model_from_ua(&ua) {
            Some(m) => owned_chars(&m),
            None => crate::text::owned(""),
        }
    } else {
        crate::text::owned("")
    };
    proof {
        reveal_strlit("");
    }
    let ghost spec = client_hints_spec(o);
    assert(spec is Some);
    assert(spec->0.brands == hint_brand_views(brands@));
    assert(spec->0.full_version_list == hint_brand_views(full@));
    assert(spec->0.platform_version == platform_version@);
    assert(spec->0.architecture == architecture@);
    assert(spec->0.bitness == bitness@);
    assert(spec->0.model == model@);
    assert(spec->0.ua_full_version == ua_full_version@);
    Some(
        ClientHints {
            brands,
            full_version_list: full,
            mobile: overrides.mobile,
            platform: client_hint_platform(p),
            platform_version,
            architecture,
            bitness,
            model,
            ua_full_version: owned_chars(&ua_full_version),
            wow64: false,
        },
    )
}

// ───────────────────────── JSON ─────────────────────────

/// The JSON escape of one character, as serde_json writes it: `"` and `\`
/// backslash-escaped, backspace / tab / newline / form feed / carriage return
/// as their short escapes, other control characters below U+0020 as
/// `\u00xx`, every other character as itself.
pub open spec fn json_escape_char(c: char) -> Seq<char> {
    if c == '"' {
        seq!['\\', '"']
    } else if c == '\\' {
        seq!['\\', '\\']
    } else if c == '\u{8}' {
        seq!['\\', 'b']
    } else if c == '\t' {
        seq!['\\', 't']
    } else if c == '\n' {
        seq!['\\', 'n']
    } else if c == '\u{c}' {
        seq!['\\', 'f']
    } else if c == '\r' {
        seq!['\\', 'r']
    } else if (c as u32) < 0x20 {
        seq!['\\', 'u', '0', '0', crate::text::hex_char((c as u32 / 16) as nat), crate::text::hex_char(
            (c as u32 % 16) as nat,
        )]
    } else {
        seq![c]
    }
}

/// The escaped contents of a JSON string.
pub open spec fn json_escape(s: Seq<char>) -> Seq<char>
    decreases s.len(),
{
    if s.len() == 0 {
        Seq::empty()
    } else {
        json_escape(s.drop_last()) + json_escape_char(s.last())
    }
}

/// A string as a JSON string literal.
pub open spec fn json_quote(s: Seq<char>) -> Seq<char> {
    seq!['"'] + json_escape(s) + seq!['"']
}

/// `serde_json::to_string` of a string slice: the string quoted, with the
/// escaping serde_json's string serialiser applies (see [`json_escape_char`]).
/// Serialising a `str` into serde_json's in-memory buffer has no failing
/// step, so the error arm is never taken.
#[verifier::external_body]
pub(crate) fn json_string(s: &str) -> (r: String)
    ensures
        r@ == json_quote(s@),
{
    serde_json::to_string(s).unwrap_or_default()
}

/// `{"brand":<brand>,"version":<version>}`.
pub open spec fn brand_object(b: (Seq<char>, Seq<char>)) -> Seq<char> {
    "{\"brand\":"@ + json_quote(b.0) + ",\"version\":"@ + json_quote(b.1) + "}"@
}

/// The compact JSON array of brand objects.
pub open spec fn brands_json(list: Seq<(Seq<char>, Seq<char>)>) -> Seq<char> {
    "["@ + join(list.map_values(|b: (Seq<char>, Seq<char>)| brand_object(b)), ","@) + "]"@
}

pub(crate) fn json_array(list: &Vec<ClientHintBrand>) -> (r: String)
    ensures
        r@ == brands_json(hint_brand_views(list@)),
{
    let ghost l = hint_brand_views(list@);
    let mut parts: Vec<Vec<char>> = Vec::new();
    let mut i: usize = 0;
    while i < list.len()
        invariant
            i <= list@.len(),
            l == hint_brand_views(list@),
            parts@.len() == i,
            forall|q: int| 0 <= q < i ==> #[trigger] parts@[q]@ == brand_object(l[q]),
        decreases list@.len() - i,
    {
        let mut p: Vec<char> = Vec::new();
        push_str(&mut p, "{\"brand\":");
        let b = json_string(list[i].brand.as_str());
        push_str(&mut p, b.as_str());
        push_str(&mut p, ",\"version\":");
        let v = json_string(list[i].version.as_str());
        push_str(&mut p, v.as_str());
        push_str(&mut p, "}");
        assert(l[i as int] == (list@[i as int].brand@, list@[i as int].version@));
        parts.push(p);
        i = i + 1;
    }
    assert(views(parts@) =~= l.map_values(|b: (Seq<char>, Seq<char>)| brand_object(b)));
    let mut out: Vec<char> = Vec::new();
    push_str(&mut out, "[");
    push_joined(&mut out, &parts, ',');
    push_str(&mut out, "]");
    assert(seq![','] =~= ","@) by {
        reveal_strlit(",");
    }
    string_from_chars(out.as_slice())
}

/// JSON for the low-entropy `navigator.userAgentData.brands` value (`[]`
/// without Client Hints).
pub fn client_hint_brands_json(overrides: &ProfileOverrides) -> (r: String)
    ensures
        r@ == match client_hints_spec(overrides@) {
            Some(h) => brands_json(h.brands),
            None => "[]"@,
        },
{
    match client_hints_from_overrides(overrides) {
        Some(h) => json_array(&h.brands),
        None => crate::text::owned("[]"),
    }
}

/// JSON for the high-entropy `navigator.userAgentData.fullVersionList` value
/// (`[]` without Client Hints).
pub fn client_hint_full_version_list_json(overrides: &ProfileOverrides) -> (r: String)
    ensures
        r@ == match client_hints_spec(overrides@) {
            Some(h) => brands_json(h.full_version_list),
            None => "[]"@,
        },
{
    match client_hints_from_overrides(overrides) {
        Some(h) => json_array(&h.full_version_list),
        None => crate::text::owned("[]"),
    }
}


// ───────────────────────── when Client Hints exist ─────────────────────────

proof fn lemma_first_real(list: Seq<(Seq<char>, Seq<char>)>)
    ensures
        first_real_version(list) is None <==> forall|i: int|
            0 <= i < list.len() ==> #[trigger] list[i].1 == "99.0.0.0"@,
        first_real_version(list) matches Some(v) ==> exists|i: int|
            0 <= i < list.len() && #[trigger] list[i].1 == v && v != "99.0.0.0"@,
    decreases list.len(),
{
    if list.len() > 0 {
        lemma_first_real(list.drop_first());
        if list[0].1 == "99.0.0.0"@ {
            assert forall|i: int| 0 < i < list.len() implies #[trigger] list[i].1 == list.drop_first()[i
                - 1].1 by {}
            match first_real_version(list) {
                Some(v) => {
                    let j = choose|j: int|
                        0 <= j < list.drop_first().len() && #[trigger] list.drop_first()[j].1 == v
                            && v != "99.0.0.0"@;
                    assert(list[j + 1].1 == v);
                },
                None => {},
            }
        }
    }
}

proof fn lemma_preferred_entry(list: Seq<(Seq<char>, Seq<char>)>, pref: Seq<char>)
    ensures
        preferred_entry(list, pref) matches Some(v) ==> exists|i: int|
            0 <= i < list.len() && #[trigger] list[i].1 == v && v != "99.0.0.0"@,
    decreases list.len(),
{
    if list.len() > 0 {
        lemma_preferred_entry(list.drop_first(), pref);
        if !(list[0].0 == pref && list[0].1 != "99.0.0.0"@) {
            match preferred_entry(list, pref) {
                Some(v) => {
                    let j = choose|j: int|
                        0 <= j < list.drop_first().len() && #[trigger] list.drop_first()[j].1 == v
                            && v != "99.0.0.0"@;
                    assert(list[j + 1].1 == v);
                },
                None => {},
            }
        }
    }
}

proof fn lemma_preferred_version(list: Seq<(Seq<char>, Seq<char>)>)
    ensures
        preferred_version_spec(list) is None <==> forall|i: int|
            0 <= i < list.len() ==> #[trigger] list[i].1 == "99.0.0.0"@,
        preferred_version_spec(list) matches Some(v) ==> exists|i: int|
            0 <= i < list.len() && #[trigger] list[i].1 == v && v != "99.0.0.0"@,
{
    lemma_first_real(list);
    lemma_preferred_entry(list, "Google Chrome"@);
    lemma_preferred_entry(list, "Microsoft Edge"@);
    lemma_preferred_entry(list, "Brave"@);
    lemma_preferred_entry(list, "Opera"@);
    lemma_preferred_entry(list, "Samsung Internet"@);
    lemma_preferred_entry(list, "Chromium"@);
}

proof fn lemma_normalized_nonempty(v: Seq<char>, n: nat)
    requires
        n >= 2,
    ensures
        normalize_version(v, n).len() > 0,
{
    reveal_strlit(".");
    let ps = pad_parts(split(v, '.'), n);
    assert(ps.len() == n);
    assert(join(ps, "."@) == join(ps.drop_last(), "."@) + "."@ + ps.last());
}

/// A persona has Client Hints exactly when it has brands and a
/// `uaFullVersion` can be found: some brand's full version is real (not the
/// GREASE `99.0.0.0`) or the User-Agent carries a non-empty `Chrome/`
/// token. Its hints then keep the brands and their order, the mobile flag,
/// are never WOW64, and carry a non-empty `uaFullVersion`.
pub proof fn lemma_client_hints_outcome(o: OverridesView)
    ensures
        client_hints_spec(o) is None <==> (o.brands.len() == 0 || ((forall|i: int|
            0 <= i < o.brands.len() ==> #[trigger] full_version_spec(
                o.brands[i].0,
                o.brands[i].1,
                o.user_agent,
            ) == "99.0.0.0"@) && version_after_token_spec(o.user_agent, "Chrome/"@) is None)),
        client_hints_spec(o) matches Some(h) ==> {
            &&& h.brands == o.brands
            &&& h.full_version_list.len() == o.brands.len()
            &&& forall|i: int|
                0 <= i < o.brands.len() ==> #[trigger] h.full_version_list[i].0 == o.brands[i].0
            &&& h.mobile == o.mobile
            &&& !h.wow64
            &&& h.ua_full_version.len() > 0
        },
{
    let full = o.brands.map_values(
        |b: (Seq<char>, Seq<char>)| (b.0, full_version_spec(b.0, b.1, o.user_agent)),
    );
    lemma_preferred_version(full);
    assert forall|i: int| 0 <= i < o.brands.len() implies #[trigger] full[i].1 == full_version_spec(
        o.brands[i].0,
        o.brands[i].1,
        o.user_agent,
    ) by {}
    if o.brands.len() > 0 {
        if (forall|i: int|
            0 <= i < o.brands.len() ==> #[trigger] full_version_spec(
                o.brands[i].0,
                o.brands[i].1,
                o.user_agent,
            ) == "99.0.0.0"@) {
            assert forall|i: int| 0 <= i < full.len() implies #[trigger] full[i].1 == "99.0.0.0"@ by {
                assert(full_version_spec(o.brands[i].0, o.brands[i].1, o.user_agent) == "99.0.0.0"@);
            }
        }
        match preferred_version_spec(full) {
            Some(v) => {
                let i = choose|i: int| 0 <= i < full.len() && #[trigger] full[i].1 == v && v != "99.0.0.0"@;
                assert(full_version_spec(o.brands[i].0, o.brands[i].1, o.user_agent) == v);
                let b = o.brands[i];
                let token = if b.0 == "Microsoft Edge"@ {
                    "Edg/"@
                } else if b.0 == "Opera"@ {
                    "OPR/"@
                } else if b.0 == "Samsung Internet"@ {
                    "SamsungBrowser/"@
                } else if b.0 == "Chromium"@ || b.0 == "Google Chrome"@ || b.0 == "Brave"@ {
                    "Chrome/"@
                } else {
                    Seq::empty()
                };
                match (if token.len() > 0 {
                    version_after_token_spec(o.user_agent, token)
                } else {
                    None
                }) {
                    Some(w) => lemma_normalized_nonempty(w, 4),
                    None => lemma_normalized_nonempty(b.1, 4),
                }
            },
            None => {
                assert forall|i: int| 0 <= i < o.brands.len() implies #[trigger] full_version_spec(
                    o.brands[i].0,
                    o.brands[i].1,
                    o.user_agent,
                ) == "99.0.0.0"@ by {
                    assert(full[i].1 == "99.0.0.0"@);
                }
                match version_after_token_spec(o.user_agent, "Chrome/"@) {
                    Some(w) => lemma_normalized_nonempty(w, 4),
                    None => {},
                }
            },
        }
    }
}


proof fn lemma_prefix_first_char(p: Seq<char>, a: Seq<char>)
    requires
        starts_with(p, a),
        a.len() > 0,
    ensures
        p.len() > 0 && p[0] == a[0],
{
    assert(p.subrange(0, a.len() as int)[0] == a[0]);
}

/// The Client Hints platform names the persona's device: an ARM Linux
/// (`Linux arm…`) persona is `Android` on `arm`, a `Win…` persona
/// `Windows`, a `Mac…` persona `macOS`, an `iPhone` / `iPad` persona `iOS`,
/// another Linux persona `Linux`; and the platform is `Android` exactly when
/// the architecture is `arm`, which carries no bitness.
pub proof fn lemma_hint_platform_names_device(o: OverridesView)
    ensures
        client_hints_spec(o) matches Some(h) ==> {
            &&& starts_with(o.platform, "Linux arm"@) ==> h.platform == "Android"@ && h.architecture
                == "arm"@ && h.bitness.len() == 0
            &&& starts_with(o.platform, "Win"@) ==> h.platform == "Windows"@ && h.architecture
                == "x86"@ && h.bitness == "64"@
            &&& starts_with(o.platform, "Mac"@) ==> h.platform == "macOS"@
            &&& starts_with(o.platform, "iPhone"@) || starts_with(o.platform, "iPad"@) ==> h.platform
                == "iOS"@
            &&& starts_with(o.platform, "Linux"@) && !starts_with(o.platform, "Linux arm"@)
                ==> h.platform == "Linux"@
            &&& (h.platform == "Android"@) == (h.architecture == "arm"@)
        },
{
    reveal_strlit("Linux arm");
    reveal_strlit("Linux");
    reveal_strlit("Win");
    reveal_strlit("Mac");
    reveal_strlit("iPhone");
    reveal_strlit("iPad");
    reveal_strlit("Android");
    reveal_strlit("Windows");
    reveal_strlit("macOS");
    reveal_strlit("iOS");
    reveal_strlit("Unknown");
    reveal_strlit("arm");
    reveal_strlit("x86");
    let p = o.platform;
    if starts_with(p, "Linux arm"@) {
        lemma_prefix_first_char(p, "Linux arm"@);
        if starts_with(p, "Win"@) {
            lemma_prefix_first_char(p, "Win"@);
        }
        if starts_with(p, "Mac"@) {
            lemma_prefix_first_char(p, "Mac"@);
        }
        if starts_with(p, "iPhone"@) {
            lemma_prefix_first_char(p, "iPhone"@);
        }
        if starts_with(p, "iPad"@) {
            lemma_prefix_first_char(p, "iPad"@);
        }
        assert(hint_platform_spec(p) == "Android"@);
    } else if starts_with(p, "Win"@) {
        lemma_prefix_first_char(p, "Win"@);
        if starts_with(p, "Linux arm"@) {
            lemma_prefix_first_char(p, "Linux arm"@);
        }
    } else if starts_with(p, "Mac"@) {
        lemma_prefix_first_char(p, "Mac"@);
        if starts_with(p, "Win"@) {
            lemma_prefix_first_char(p, "Win"@);
        }
    } else if starts_with(p, "iPhone"@) || starts_with(p, "iPad"@) {
        if starts_with(p, "iPhone"@) {
            lemma_prefix_first_char(p, "iPhone"@);
        } else {
            lemma_prefix_first_char(p, "iPad"@);
        }
        if starts_with(p, "Win"@) {
            lemma_prefix_first_char(p, "Win"@);
        }
        if starts_with(p, "Mac"@) {
            lemma_prefix_first_char(p, "Mac"@);
        }
    } else if starts_with(p, "Linux"@) {
        lemma_prefix_first_char(p, "Linux"@);
        if starts_with(p, "Win"@) {
            lemma_prefix_first_char(p, "Win"@);
        }
        if starts_with(p, "Mac"@) {
            lemma_prefix_first_char(p, "Mac"@);
        }
        if starts_with(p, "iPhone"@) {
            lemma_prefix_first_char(p, "iPhone"@);
        }
        if starts_with(p, "iPad"@) {
            lemma_prefix_first_char(p, "iPad"@);
        }
    }
    assert("Android"@ != "Windows"@) by {
        assert("Android"@[0] != "Windows"@[0]);
    }
    assert("Android"@ != "Unknown"@) by {
        assert("Android"@[0] != "Unknown"@[0]);
    }
    assert("Android"@ != "Linux"@);
    assert("Android"@ != "macOS"@);
    assert("Android"@ != "iOS"@);
    assert("arm"@ != "x86"@) by {
        assert("arm"@[0] != "x86"@[0]);
    }
}

} // verus!
