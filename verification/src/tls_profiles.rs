//! TLS ClientHello profile catalogue for browser-shaped transports: the
//! cipher, extension, curve, ALPN, signature-algorithm and GREASE choices of
//! each client family, the stealth-persona to profile mapping, and the
//! JA3 / JA4 computation over a profile.
use vstd::prelude::*;
use vstd::string::StringSliceAdditionalSpecFns;
use crate::ja3::{
    compute_ja3, compute_ja4, is_grease, is_grease_spec, ja3_spec, ja4_of, ClientHelloFields,
};
use crate::tls_catalog::{all_profiles, profile_catalog};
use crate::text::{
    chars_of, contains, dec, find_seq, hex_pad, join, lower, lower_chars, push_all, push_dec,
    push_hex_pad, push_joined, push_str, string_from_chars, trim, trim_chars, views,
};

verus! {

/// A TLS fingerprint profile that mimics a specific browser or client family.
#[derive(Debug, Clone, Copy, PartialEq, Eq)]
pub struct TlsProfile {
    /// Human-readable name.
    pub name: &'static str,
    /// Legacy TLS version in the ClientHello.
    pub tls_version: u16,
    /// Cipher suites to offer, in exact client order.
    pub cipher_suites: &'static [u16],
    /// TLS extensions to include, in exact client order.
    pub extensions: &'static [u16],
    /// Supported groups.
    pub elliptic_curves: &'static [u16],
    /// EC point formats.
    pub ec_point_formats: &'static [u8],
    /// ALPN protocols to advertise.
    pub alpn_protocols: &'static [&'static str],
    /// The MD5 of this profile's own computed JA3 string.
    pub expected_ja3: &'static str,
    /// Signature algorithms to advertise.
    pub signature_algorithms: &'static [u16],
    /// Whether to include GREASE values.
    pub include_grease: bool,
    /// TLS versions offered in the `supported_versions` extension, highest
    /// first.
    pub supported_versions: &'static [u16],
}

/// The plain values of a profile.
pub struct TlsView {
    pub name: Seq<char>,
    pub tls_version: u16,
    pub cipher_suites: Seq<u16>,
    pub extensions: Seq<u16>,
    pub elliptic_curves: Seq<u16>,
    pub ec_point_formats: Seq<u8>,
    pub alpn_protocols: Seq<Seq<char>>,
    pub expected_ja3: Seq<char>,
    pub signature_algorithms: Seq<u16>,
    pub include_grease: bool,
    pub supported_versions: Seq<u16>,
}

impl View for TlsProfile {
    type V = TlsView;

    open spec fn view(&self) -> TlsView {
        TlsView {
            name: self.name@,
            tls_version: self.tls_version,
            cipher_suites: self.cipher_suites@,
            extensions: self.extensions@,
            elliptic_curves: self.elliptic_curves@,
            ec_point_formats: self.ec_point_formats@,
            alpn_protocols: self.alpn_protocols@.map_values(|p: &str| p@),
            expected_ja3: self.expected_ja3@,
            signature_algorithms: self.signature_algorithms@,
            include_grease: self.include_grease,
            supported_versions: self.supported_versions@,
        }
    }
}

impl TlsView {
    /// The UTF-8 bytes of each ALPN protocol.
    pub open spec fn alpn_bytes(self) -> Seq<Seq<u8>> {
        self.alpn_protocols.map_values(|p: Seq<char>| vstd::utf8::encode_utf8(p))
    }

    /// The canonical JA3 string of this profile.
    pub open spec fn ja3(self) -> Seq<char> {
        ja3_spec(
            self.tls_version,
            self.cipher_suites,
            self.extensions,
            self.elliptic_curves,
            self.ec_point_formats,
        )
    }

    /// The JA4 string of this profile.
    pub open spec fn ja4(self) -> Seq<char> {
        ja4_of(
            self.tls_version,
            self.cipher_suites,
            self.extensions,
            self.alpn_bytes(),
            self.signature_algorithms,
            self.supported_versions,
        )
    }
}

/// Every available TLS profile, in catalogue order.
pub fn profiles() -> (r: Vec<TlsProfile>)
    ensures
        r@.len() == profile_catalog().len(),
        forall|i: int| 0 <= i < r@.len() ==> #[trigger] r@[i]@ == profile_catalog()[i],
{
    all_profiles()
}

// ───────────────────────── stealth personas ─────────────────────────

/// A named browser persona (browser, OS and version class).
#[derive(Debug, Clone, Copy, PartialEq, Eq, Hash, Structural)]
pub enum StealthProfile {
    ChromeWindowsStable,
    ChromeWindowsLegacy96,
    ChromeMacStable,
    ChromeLinux,
    ChromeAndroid,
    EdgeWindowsStable,
    BraveWindows,
    OperaWindows,
    SamsungInternetAndroid,
    FirefoxLinux,
    FirefoxWindows,
    FirefoxMacStable,
    SafariMacStable,
    SafariIphone,
    SafariIpad,
    Ie11Windows,
}

/// The catalogue index of the ClientHello a persona emits, or `None` for a
/// persona with no coherent catalogue entry (IE 11). Every modern Chromium
/// persona shares the measured Chrome 146 shape; desktop Firefox shares the
/// OS-independent Firefox 150 shape; iPhone / iPad carry Safari 18 / iOS.
pub open spec fn stealth_index(p: StealthProfile) -> Option<int> {
    match p {
        StealthProfile::ChromeWindowsStable | StealthProfile::ChromeLinux
        | StealthProfile::ChromeAndroid | StealthProfile::ChromeMacStable
        | StealthProfile::EdgeWindowsStable | StealthProfile::BraveWindows
        | StealthProfile::OperaWindows | StealthProfile::SamsungInternetAndroid => Some(0),
        StealthProfile::ChromeWindowsLegacy96 => Some(2),
        StealthProfile::FirefoxLinux | StealthProfile::FirefoxWindows
        | StealthProfile::FirefoxMacStable => Some(3),
        StealthProfile::SafariIphone | StealthProfile::SafariIpad => Some(8),
        StealthProfile::SafariMacStable => Some(6),
        StealthProfile::Ie11Windows => None,
    }
}

/// The closest pure TLS ClientHello catalogue entry for a stealth persona.
pub fn profile_for_stealth_profile(profile: StealthProfile) -> (r: Option<TlsProfile>)
    ensures
        match stealth_index(profile) {
            Some(i) => r matches Some(p) && p@ == profile_catalog()[i],
            None => r is None,
        },
{
    let all = all_profiles();
    match profile {
        StealthProfile::ChromeWindowsStable | StealthProfile::ChromeLinux
        | StealthProfile::ChromeAndroid | StealthProfile::ChromeMacStable
        | StealthProfile::EdgeWindowsStable | StealthProfile::BraveWindows
        | StealthProfile::OperaWindows | StealthProfile::SamsungInternetAndroid => Some(all[0]),
        StealthProfile::ChromeWindowsLegacy96 => Some(all[2]),
        StealthProfile::FirefoxLinux | StealthProfile::FirefoxWindows
        | StealthProfile::FirefoxMacStable => Some(all[3]),
        StealthProfile::SafariIphone | StealthProfile::SafariIpad => Some(all[8]),
        StealthProfile::SafariMacStable => Some(all[6]),
        StealthProfile::Ie11Windows => None,
    }
}

/// The persona a shared profile name denotes.
pub open spec fn named_profile_spec(name: Seq<char>) -> Option<StealthProfile> {
    if name == "chrome-windows"@ {
        Some(StealthProfile::ChromeWindowsStable)
    } else if name == "chrome-mac"@ {
        Some(StealthProfile::ChromeMacStable)
    } else if name == "edge-windows"@ {
        Some(StealthProfile::EdgeWindowsStable)
    } else if name == "firefox-linux"@ {
        Some(StealthProfile::FirefoxLinux)
    } else if name == "firefox-windows"@ {
        Some(StealthProfile::FirefoxWindows)
    } else if name == "firefox-macos"@ {
        Some(StealthProfile::FirefoxMacStable)
    } else if name == "safari-mac"@ {
        Some(StealthProfile::SafariMacStable)
    } else if name == "safari-iphone"@ {
        Some(StealthProfile::SafariIphone)
    } else if name == "ie11"@ {
        Some(StealthProfile::Ie11Windows)
    } else {
        None
    }
}

/// The persona a shared profile name (such as `chrome-mac` or `ie11`)
/// denotes, or `None` for a name that is not one.
pub fn named_profile(name: &str) -> (r: Option<StealthProfile>)
    ensures
        r == named_profile_spec(name@),
{
    if crate::text::str_eq(name, "chrome-windows") {
        Some(StealthProfile::ChromeWindowsStable)
    } else if crate::text::str_eq(name, "chrome-mac") {
        Some(StealthProfile::ChromeMacStable)
    } else if crate::text::str_eq(name, "edge-windows") {
        Some(StealthProfile::EdgeWindowsStable)
    } else if crate::text::str_eq(name, "firefox-linux") {
        Some(StealthProfile::FirefoxLinux)
    } else if crate::text::str_eq(name, "firefox-windows") {
        Some(StealthProfile::FirefoxWindows)
    } else if crate::text::str_eq(name, "firefox-macos") {
        Some(StealthProfile::FirefoxMacStable)
    } else if crate::text::str_eq(name, "safari-mac") {
        Some(StealthProfile::SafariMacStable)
    } else if crate::text::str_eq(name, "safari-iphone") {
        Some(StealthProfile::SafariIphone)
    } else if crate::text::str_eq(name, "ie11") {
        Some(StealthProfile::Ie11Windows)
    } else {
        None
    }
}

/// The first catalogue index whose lowercased name contains `needle`.
pub open spec fn first_name_match(c: Seq<TlsView>, needle: Seq<char>, n: nat) -> Option<int>
    decreases n,
{
    if n == 0 {
        None
    } else {
        match first_name_match(c, needle, (n - 1) as nat) {
            Some(i) => Some(i),
            None => if contains(lower(c[n - 1].name), needle) {
                Some(n - 1)
            } else {
                None
            },
        }
    }
}

/// The catalogue index `profile_for` resolves `browser` to: `None` for a
/// blank name; the persona's entry for a shared profile name; otherwise the
/// first entry whose name contains the name, ignoring ASCII case.
pub open spec fn profile_for_index(browser: Seq<char>) -> Option<int> {
    let b = trim(browser);
    if b.len() == 0 {
        None
    } else {
        match named_profile_spec(b) {
            Some(p) => stealth_index(p),
            None => first_name_match(profile_catalog(), lower(b), profile_catalog().len()),
        }
    }
}

proof fn lemma_first_name_match_range(c: Seq<TlsView>, needle: Seq<char>, n: nat)
    ensures
        first_name_match(c, needle, n) matches Some(i) ==> 0 <= i < n,
    decreases n,
{
    if n > 0 {
        lemma_first_name_match_range(c, needle, (n - 1) as nat);
    }
}

proof fn lemma_first_name_match_stays(c: Seq<TlsView>, needle: Seq<char>, i: nat, n: nat)
    requires
        i <= n,
        first_name_match(c, needle, i) is Some,
    ensures
        first_name_match(c, needle, n) == first_name_match(c, needle, i),
    decreases n - i,
{
    if n > i {
        lemma_first_name_match_stays(c, needle, i, (n - 1) as nat);
    }
}

/// Find a TLS profile by shared stealth profile name first, then by
/// case-insensitive substring of the catalogue entry name.
pub fn profile_for(browser: &str) -> (r: Option<TlsProfile>)
    ensures
        match profile_for_index(browser@) {
            Some(i) => r matches Some(p) && p@ == profile_catalog()[i],
            None => r is None,
        },
{
    let raw = chars_of(browser);
    let t = trim_chars(&raw);
    if t.len() == 0 {
        return None;
    }
    let ts = string_from_chars(t.as_slice());
    if let Some(p) = named_profile(ts.as_str()) {
        return profile_for_stealth_profile(p);
    }
    let needle = lower_chars(&t);
    let all = all_profiles();
    let ghost c = profile_catalog();
    let mut i: usize = 0;
    while i < all.len()
        invariant
            i <= all@.len(),
            all@.len() == c.len(),
            c == profile_catalog(),
            forall|k: int| 0 <= k < all@.len() ==> #[trigger] all@[k]@ == c[k],
            needle@ == lower(trim(browser@)),
            trim(browser@).len() > 0,
            named_profile_spec(trim(browser@)) is None,
            first_name_match(c, needle@, i as nat) is None,
        decreases all@.len() - i,
    {
        let name = chars_of(all[i].name);
        let lname = lower_chars(&name);
        assert(all@[i as int]@ == c[i as int]);
        if find_seq(&lname, &needle).is_some() {
            proof {
                assert(contains(lower(c[i as int].name), needle@));
                lemma_first_name_match_stays(c, needle@, (i + 1) as nat, c.len());
            }
            return Some(all[i]);
        }
        i = i + 1;
    }
    None
}

// ───────────────────────── GREASE and randomness ─────────────────────────

/// `rand::Rng::gen_range(0..len)` on `rand::thread_rng()`: a random index
/// below `len`. Only the range is stated; which index comes back is chance.
#[verifier::external_body]
fn random_below(len: usize) -> (r: usize)
    requires
        len > 0,
    ensures
        r < len,
{
    rand::Rng::gen_range(&mut rand::thread_rng(), 0..len)
}

/// A GREASE value drawn at random from the sixteen.
pub fn random_grease() -> (g: u16)
    ensures
        is_grease_spec(g),
{
    let values: [u16; 16] = [
        0x0a0a, 0x1a1a, 0x2a2a, 0x3a3a, 0x4a4a, 0x5a5a, 0x6a6a, 0x7a7a, 0x8a8a, 0x9a9a, 0xaaaa, 0xbaba,
        0xcaca, 0xdada, 0xeaea, 0xfafa,
    ];
    assert(values@ =~= crate::ja3::grease_values());
    let i = random_below(16);
    assert(crate::ja3::grease_values().contains(values@[i as int]));
    values[i]
}

/// A random catalogue profile.
pub fn random_profile() -> (r: Option<TlsProfile>)
    ensures
        r matches Some(p) && exists|i: int|
            0 <= i < profile_catalog().len() && p@ == #[trigger] profile_catalog()[i],
{
    let all = all_profiles();
    let i = random_below(all.len());
    assert(all@[i as int]@ == profile_catalog()[i as int]);
    Some(all[i])
}

/// A `build_*` list: `body` behind a GREASE value when `grease`.
pub open spec fn greased_front(r: Seq<u16>, body: Seq<u16>, grease: bool) -> bool {
    if grease {
        r.len() == body.len() + 1 && is_grease_spec(r[0]) && r.drop_first() == body
    } else {
        r == body
    }
}

fn extend_u16(out: &mut Vec<u16>, items: &[u16])
    ensures
        final(out)@ == old(out)@ + items@,
{
    let mut i: usize = 0;
    while i < items.len()
        invariant
            i <= items@.len(),
            out@ == old(out)@ + items@.take(i as int),
        decreases items@.len() - i,
    {
        out.push(items[i]);
        i = i + 1;
        assert(out@ =~= old(out)@ + items@.take(i as int));
    }
    assert(items@.take(items@.len() as int) =~= items@);
}

/// The cipher-suite list of a profile, behind a random GREASE value when the
/// profile uses GREASE.
pub fn build_cipher_suites(profile: &TlsProfile) -> (r: Vec<u16>)
    ensures
        greased_front(r@, profile.cipher_suites@, profile.include_grease),
{
    let mut suites: Vec<u16> = Vec::new();
    if profile.include_grease {
        suites.push(random_grease());
    }
    extend_u16(&mut suites, profile.cipher_suites);
    assert(profile.include_grease ==> suites@.drop_first() =~= profile.cipher_suites@);
    assert(!profile.include_grease ==> suites@ =~= profile.cipher_suites@);
    suites
}

/// The extension list of a profile, between two random GREASE values when
/// the profile uses GREASE.
pub fn build_extensions(profile: &TlsProfile) -> (r: Vec<u16>)
    ensures
        profile.include_grease ==> r@.len() == profile.extensions@.len() + 2 && is_grease_spec(r@[0])
            && is_grease_spec(r@.last()) && r@.subrange(1, r@.len() - 1) == profile.extensions@,
        !profile.include_grease ==> r@ == profile.extensions@,
{
    let mut extensions: Vec<u16> = Vec::new();
    if profile.include_grease {
        extensions.push(random_grease());
    }
    extend_u16(&mut extensions, profile.extensions);
    if profile.include_grease {
        extensions.push(random_grease());
    }
    proof {
        if profile.include_grease {
            assert(extensions@.subrange(1, extensions@.len() - 1) =~= profile.extensions@);
        } else {
            assert(extensions@ =~= profile.extensions@);
        }
    }
    extensions
}

/// The supported-groups list of a profile, behind a random GREASE value
/// when the profile uses GREASE.
pub fn build_supported_groups(profile: &TlsProfile) -> (r: Vec<u16>)
    ensures
        greased_front(r@, profile.elliptic_curves@, profile.include_grease),
{
    let mut groups: Vec<u16> = Vec::new();
    if profile.include_grease {
        groups.push(random_grease());
    }
    extend_u16(&mut groups, profile.elliptic_curves);
    assert(profile.include_grease ==> groups@.drop_first() =~= profile.elliptic_curves@);
    assert(!profile.include_grease ==> groups@ =~= profile.elliptic_curves@);
    groups
}

// ───────────────────────── JA3 / JA4 over a profile ─────────────────────────

fn to_vec_u16(items: &[u16]) -> (r: Vec<u16>)
    ensures
        r@ == items@,
{
    let mut r: Vec<u16> = Vec::new();
    extend_u16(&mut r, items);
    r
}

fn to_vec_u8(items: &[u8]) -> (r: Vec<u8>)
    ensures
        r@ == items@,
{
    let mut r: Vec<u8> = Vec::new();
    let mut i: usize = 0;
    while i < items.len()
        invariant
            i <= items@.len(),
            r@ == items@.take(i as int),
        decreases items@.len() - i,
    {
        r.push(items[i]);
        i = i + 1;
        assert(r@ =~= items@.take(i as int));
    }
    assert(items@.take(items@.len() as int) =~= items@);
    r
}

/// The shared JA3 / JA4 input shape of a profile: its lists as they are,
/// ALPN as the protocols' bytes.
pub fn client_hello_fields(profile: &TlsProfile) -> (f: ClientHelloFields)
    ensures
        f.version == profile.tls_version,
        f.cipher_suites@ == profile.cipher_suites@,
        f.extensions@ == profile.extensions@,
        f.supported_groups@ == profile.elliptic_curves@,
        f.ec_point_formats@ == profile.ec_point_formats@,
        f.alpn_view() == profile@.alpn_bytes(),
        f.signature_algorithms@ == profile.signature_algorithms@,
        f.supported_versions@ == profile.supported_versions@,
{
    let mut alpn: Vec<Vec<u8>> = Vec::new();
    let mut i: usize = 0;
    while i < profile.alpn_protocols.len()
        invariant
            i <= profile.alpn_protocols@.len(),
            alpn@.len() == i,
            forall|k: int| 0 <= k < i ==> #[trigger] alpn@[k]@ == profile.alpn_protocols@[k].spec_bytes(),
        decreases profile.alpn_protocols@.len() - i,
    {
        let b = profile.alpn_protocols[i].as_bytes();
        alpn.push(to_vec_u8(b));
        i = i + 1;
    }
    let f = ClientHelloFields {
        version: profile.tls_version,
        cipher_suites: to_vec_u16(profile.cipher_suites),
        extensions: to_vec_u16(profile.extensions),
        supported_groups: to_vec_u16(profile.elliptic_curves),
        ec_point_formats: to_vec_u8(profile.ec_point_formats),
        alpn,
        signature_algorithms: to_vec_u16(profile.signature_algorithms),
        supported_versions: to_vec_u16(profile.supported_versions),
    };
    assert(f.alpn_view() =~= profile@.alpn_bytes());
    f
}

/// The canonical JA3 string of a profile.
pub fn compute_ja3_string(profile: &TlsProfile) -> (s: String)
    ensures
        s@ == profile@.ja3(),
{
    compute_ja3(&client_hello_fields(profile))
}

/// The JA4 string of a profile; its version digit reflects the profile's
/// `supported_versions`, not the legacy version field.
pub fn compute_ja4_string(profile: &TlsProfile) -> (s: String)
    ensures
        s@ == profile@.ja4(),
{
    compute_ja4(&client_hello_fields(profile))
}

/// `{name}: TLS {0x....}, {n} ciphers, {n} extensions, GREASE={bool},
/// ALPN=[{protocols joined by ", "}]`.
pub open spec fn summary_spec(p: TlsView) -> Seq<char> {
    p.name + ": TLS 0x"@ + hex_pad(p.tls_version as nat, 4) + ", "@ + dec(p.cipher_suites.len())
        + " ciphers, "@ + dec(p.extensions.len()) + " extensions, GREASE="@ + (if p.include_grease {
        "true"@
    } else {
        "false"@
    }) + ", ALPN=["@ + join(p.alpn_protocols, ", "@) + "]"@
}

fn push_join_strs(out: &mut Vec<char>, items: &[&'static str])
    ensures
        final(out)@ == old(out)@ + join(items@.map_values(|p: &str| p@), ", "@),
{
    let ghost parts = items@.map_values(|p: &str| p@);
    let mut i: usize = 0;
    let ghost start = out@;
    while i < items.len()
        invariant
            i <= items@.len(),
            parts == items@.map_values(|p: &str| p@),
            out@ == start + join(parts.take(i as int), ", "@),
        decreases items@.len() - i,
    {
        let ghost before = out@;
        if i > 0 {
            push_str(out, ", ");
        }
        push_str(out, items[i]);
        proof {
            let t = parts.take(i as int + 1);
            assert(t.drop_last() =~= parts.take(i as int));
            assert(t.last() == items@[i as int]@);
            if i == 0 {
                assert(t.len() == 1);
                assert(join(t, ", "@) == t[0]);
                assert(join(parts.take(0), ", "@) =~= Seq::<char>::empty());
            }
        }
        i = i + 1;
        assert(out@ =~= start + join(parts.take(i as int), ", "@));
    }
    assert(parts.take(items@.len() as int) =~= parts);
}

/// A one-line summary of the profile's distinguishing TLS properties.
pub fn profile_summary(profile: &TlsProfile) -> (s: String)
    ensures
        s@ == summary_spec(profile@),
{
    let mut out: Vec<char> = Vec::new();
    push_str(&mut out, profile.name);
    push_str(&mut out, ": TLS 0x");
    push_hex_pad(&mut out, profile.tls_version as u64, 4);
    push_str(&mut out, ", ");
    push_dec(&mut out, profile.cipher_suites.len() as u64);
    push_str(&mut out, " ciphers, ");
    push_dec(&mut out, profile.extensions.len() as u64);
    push_str(&mut out, " extensions, GREASE=");
    if profile.include_grease {
        push_str(&mut out, "true");
    } else {
        push_str(&mut out, "false");
    }
    push_str(&mut out, ", ALPN=[");
    push_join_strs(&mut out, profile.alpn_protocols);
    push_str(&mut out, "]");
    assert(out@ =~= summary_spec(profile@));
    string_from_chars(out.as_slice())
}

} // verus!
