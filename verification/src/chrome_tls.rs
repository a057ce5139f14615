//! Chrome TLS and HTTP/2 fingerprint snapshots for diagnostics, and the
//! resolver that picks the snapshot to compare an observed Chrome against.
use vstd::prelude::*;
use crate::text::str_eq;

verus! {

/// One captured Chrome TLS and HTTP/2 fingerprint.
#[derive(Debug, Clone, Copy, PartialEq, Eq)]
pub struct ChromeFingerprint {
    /// Human-readable name, for example `"Chrome 134 / Linux"`.
    pub name: &'static str,
    /// Chrome major version.
    pub major_version: u32,
    /// Platform string used by diagnostics.
    pub platform: &'static str,
    /// JA3 string.
    pub ja3: &'static str,
    /// JA3 hash as a 32-character lowercase hex string.
    pub ja3_hash: &'static str,
    /// JA4 string.
    pub ja4: &'static str,
    /// HTTP/2 fingerprint in Akamai-style form.
    pub h2_fingerprint: &'static str,
}

pub struct ChromeView {
    pub name: Seq<char>,
    pub major_version: u32,
    pub platform: Seq<char>,
    pub ja3: Seq<char>,
    pub ja3_hash: Seq<char>,
    pub ja4: Seq<char>,
    pub h2_fingerprint: Seq<char>,
}

impl View for ChromeFingerprint {
    type V = ChromeView;

    open spec fn view(&self) -> ChromeView {
        ChromeView {
            name: self.name@,
            major_version: self.major_version,
            platform: self.platform@,
            ja3: self.ja3@,
            ja3_hash: self.ja3_hash@,
            ja4: self.ja4@,
            h2_fingerprint: self.h2_fingerprint@,
        }
    }
}

pub open spec fn chrome_views(v: Seq<ChromeFingerprint>) -> Seq<ChromeView> {
    v.map_values(|f: ChromeFingerprint| f@)
}

/// The bundled snapshots, in diagnostic preference order.
pub open spec fn chrome_catalog() -> Seq<ChromeView> {
    seq![
        ChromeView {
            name: "Chrome 146 / Linux"@,
            major_version: 146,
            platform: "Linux"@,
            ja3: "771,4865-4866-4867-49195-49199-49196-49200-52393-52392-49171-49172-156-157-47-53,0-5-45-18-27-10-35-16-43-65281-65037-11-23-51-13-17613-41,4588-29-23-24,0"@,
            ja3_hash: "1bd7f9ece339f0b2e6720b2c781823d6"@,
            ja4: "t13d1517h2_8daaf6152771_b6f405a00624"@,
            h2_fingerprint: "1:65536;2:0;4:6291456;6:262144|15663105|0|m,a,s,p"@,
        },
        ChromeView {
            name: "Chrome 134 / Linux"@,
            major_version: 134,
            platform: "Linux"@,
            ja3: "771,4865-4866-4867-49195-49199-49196-49200-52393-52392-49171-49172-156-157-47-53,0-23-65281-10-11-35-16-5-13-18-51-45-43-27-17513-21,29-23-24,0"@,
            ja3_hash: "cd08e31494f9531f560d64c695473da9"@,
            ja4: "t13d1517h2_8daaf6152771_b0da82dd1658"@,
            h2_fingerprint: "1:65536;2:0;4:6291456;6:262144|15663105|0|m,a,s,p"@,
        },
        ChromeView {
            name: "Chrome 133 / Linux"@,
            major_version: 133,
            platform: "Linux"@,
            ja3: "771,4865-4866-4867-49195-49199-49196-49200-52393-52392-49171-49172-156-157-47-53,0-23-65281-10-11-35-16-5-13-18-51-45-43-27-21,29-23-24,0"@,
            ja3_hash: "b32309a26951912be7dba376398abc3b"@,
            ja4: "t13d1517h2_8daaf6152771_b0da82dd1658"@,
            h2_fingerprint: "1:65536;2:0;4:6291456;6:262144|15663105|0|m,a,s,p"@,
        },
        ChromeView {
            name: "Chrome 132 / Linux"@,
            major_version: 132,
            platform: "Linux"@,
            ja3: "771,4865-4866-4867-49195-49199-49196-49200-52393-52392-49171-49172-156-157-47-53,0-23-65281-10-11-35-16-5-13-18-51-45-43-27-21,29-23-24,0"@,
            ja3_hash: "b32309a26951912be7dba376398abc3b"@,
            ja4: "t13d1517h2_8daaf6152771_b0da82dd1658"@,
            h2_fingerprint: "1:65536;2:0;4:6291456;6:262144|15663105|0|m,a,s,p"@,
        },
        ChromeView {
            name: "Chrome 131 / Linux"@,
            major_version: 131,
            platform: "Linux"@,
            ja3: "771,4865-4866-4867-49195-49199-49196-49200-52393-52392-49171-49172-156-157-47-53,0-23-65281-10-11-35-16-5-13-18-51-45-43-27-21,29-23-24,0"@,
            ja3_hash: "b32309a26951912be7dba376398abc3b"@,
            ja4: "t13d1517h2_8daaf6152771_b0da82dd1658"@,
            h2_fingerprint: "1:65536;2:0;4:6291456;6:262144|15663105|0|m,a,s,p"@,
        },
        ChromeView {
            name: "Chrome 130 / Linux"@,
            major_version: 130,
            platform: "Linux"@,
            ja3: "771,4865-4866-4867-49195-49199-49196-49200-52393-52392-49171-49172-156-157-47-53,0-23-65281-10-11-35-16-5-13-18-51-45-43-27-21,29-23-24,0"@,
            ja3_hash: "b32309a26951912be7dba376398abc3b"@,
            ja4: "t13d1517h2_8daaf6152771_b0da82dd1658"@,
            h2_fingerprint: "1:65536;2:0;4:6291456;6:262144|15663105|0|m,a,s,p"@,
        },
        ChromeView {
            name: "Chrome 134 / macOS"@,
            major_version: 134,
            platform: "macOS"@,
            ja3: "771,4865-4866-4867-49195-49199-49196-49200-52393-52392-49171-49172-156-157-47-53,0-23-65281-10-11-35-16-5-13-18-51-45-43-27-17513-21,29-23-24,0"@,
            ja3_hash: "cd08e31494f9531f560d64c695473da9"@,
            ja4: "t13d1517h2_8daaf6152771_b0da82dd1658"@,
            h2_fingerprint: "1:65536;2:0;4:6291456;6:262144|15663105|0|m,a,s,p"@,
        },
        ChromeView {
            name: "Chrome 134 / Windows"@,
            major_version: 134,
            platform: "Windows"@,
            ja3: "771,4865-4866-4867-49195-49199-49196-49200-52393-52392-49171-49172-156-157-47-53,0-23-65281-10-11-35-16-5-13-18-51-45-43-27-17513-21,29-23-24,0"@,
            ja3_hash: "cd08e31494f9531f560d64c695473da9"@,
            ja4: "t13d1517h2_8daaf6152771_b0da82dd1658"@,
            h2_fingerprint: "1:65536;2:0;4:6291456;6:262144|15663105|0|m,a,s,p"@,
        },
        ChromeView {
            name: "Chrome 134 / Android"@,
            major_version: 134,
            platform: "Android"@,
            ja3: "771,4865-4866-4867-49195-49199-49196-49200-52393-52392-49171-49172-156-157-47-53,0-23-65281-10-11-35-16-5-13-18-51-45-43-27-21,29-23-24,0"@,
            ja3_hash: "b32309a26951912be7dba376398abc3b"@,
            ja4: "t13d1516h2_8daaf6152771_b0da82dd1658"@,
            h2_fingerprint: "1:65536;2:0;4:6291456;6:262144|15663105|0|m,a,s,p"@,
        },
    ]
}

/// Bundled Chrome TLS and HTTP/2 fingerprint snapshots, in diagnostic
/// preference order.
pub fn chrome_fingerprints() -> (r: Vec<ChromeFingerprint>)
    ensures
        chrome_views(r@) == chrome_catalog(),
{
    let r = vec![
        ChromeFingerprint {
            name: "Chrome 146 / Linux",
            major_version: 146,
            platform: "Linux",
            ja3: "771,4865-4866-4867-49195-49199-49196-49200-52393-52392-49171-49172-156-157-47-53,0-5-45-18-27-10-35-16-43-65281-65037-11-23-51-13-17613-41,4588-29-23-24,0",
            ja3_hash: "1bd7f9ece339f0b2e6720b2c781823d6",
            ja4: "t13d1517h2_8daaf6152771_b6f405a00624",
            h2_fingerprint: "1:65536;2:0;4:6291456;6:262144|15663105|0|m,a,s,p",
        },
        ChromeFingerprint {
            name: "Chrome 134 / Linux",
            major_version: 134,
            platform: "Linux",
            ja3: "771,4865-4866-4867-49195-49199-49196-49200-52393-52392-49171-49172-156-157-47-53,0-23-65281-10-11-35-16-5-13-18-51-45-43-27-17513-21,29-23-24,0",
            ja3_hash: "cd08e31494f9531f560d64c695473da9",
            ja4: "t13d1517h2_8daaf6152771_b0da82dd1658",
            h2_fingerprint: "1:65536;2:0;4:6291456;6:262144|15663105|0|m,a,s,p",
        },
        ChromeFingerprint {
            name: "Chrome 133 / Linux",
            major_version: 133,
            platform: "Linux",
            ja3: "771,4865-4866-4867-49195-49199-49196-49200-52393-52392-49171-49172-156-157-47-53,0-23-65281-10-11-35-16-5-13-18-51-45-43-27-21,29-23-24,0",
            ja3_hash: "b32309a26951912be7dba376398abc3b",
            ja4: "t13d1517h2_8daaf6152771_b0da82dd1658",
            h2_fingerprint: "1:65536;2:0;4:6291456;6:262144|15663105|0|m,a,s,p",
        },
        ChromeFingerprint {
            name: "Chrome 132 / Linux",
            major_version: 132,
            platform: "Linux",
            ja3: "771,4865-4866-4867-49195-49199-49196-49200-52393-52392-49171-49172-156-157-47-53,0-23-65281-10-11-35-16-5-13-18-51-45-43-27-21,29-23-24,0",
            ja3_hash: "b32309a26951912be7dba376398abc3b",
            ja4: "t13d1517h2_8daaf6152771_b0da82dd1658",
            h2_fingerprint: "1:65536;2:0;4:6291456;6:262144|15663105|0|m,a,s,p",
        },
        ChromeFingerprint {
            name: "Chrome 131 / Linux",
            major_version: 131,
            platform: "Linux",
            ja3: "771,4865-4866-4867-49195-49199-49196-49200-52393-52392-49171-49172-156-157-47-53,0-23-65281-10-11-35-16-5-13-18-51-45-43-27-21,29-23-24,0",
            ja3_hash: "b32309a26951912be7dba376398abc3b",
            ja4: "t13d1517h2_8daaf6152771_b0da82dd1658",
            h2_fingerprint: "1:65536;2:0;4:6291456;6:262144|15663105|0|m,a,s,p",
        },
        ChromeFingerprint {
            name: "Chrome 130 / Linux",
            major_version: 130,
            platform: "Linux",
            ja3: "771,4865-4866-4867-49195-49199-49196-49200-52393-52392-49171-49172-156-157-47-53,0-23-65281-10-11-35-16-5-13-18-51-45-43-27-21,29-23-24,0",
            ja3_hash: "b32309a26951912be7dba376398abc3b",
            ja4: "t13d1517h2_8daaf6152771_b0da82dd1658",
            h2_fingerprint: "1:65536;2:0;4:6291456;6:262144|15663105|0|m,a,s,p",
        },
        ChromeFingerprint {
            name: "Chrome 134 / macOS",
            major_version: 134,
            platform: "macOS",
            ja3: "771,4865-4866-4867-49195-49199-49196-49200-52393-52392-49171-49172-156-157-47-53,0-23-65281-10-11-35-16-5-13-18-51-45-43-27-17513-21,29-23-24,0",
            ja3_hash: "cd08e31494f9531f560d64c695473da9",
            ja4: "t13d1517h2_8daaf6152771_b0da82dd1658",
            h2_fingerprint: "1:65536;2:0;4:6291456;6:262144|15663105|0|m,a,s,p",
        },
        ChromeFingerprint {
            name: "Chrome 134 / Windows",
            major_version: 134,
            platform: "Windows",
            ja3: "771,4865-4866-4867-49195-49199-49196-49200-52393-52392-49171-49172-156-157-47-53,0-23-65281-10-11-35-16-5-13-18-51-45-43-27-17513-21,29-23-24,0",
            ja3_hash: "cd08e31494f9531f560d64c695473da9",
            ja4: "t13d1517h2_8daaf6152771_b0da82dd1658",
            h2_fingerprint: "1:65536;2:0;4:6291456;6:262144|15663105|0|m,a,s,p",
        },
        ChromeFingerprint {
            name: "Chrome 134 / Android",
            major_version: 134,
            platform: "Android",
            ja3: "771,4865-4866-4867-49195-49199-49196-49200-52393-52392-49171-49172-156-157-47-53,0-23-65281-10-11-35-16-5-13-18-51-45-43-27-21,29-23-24,0",
            ja3_hash: "b32309a26951912be7dba376398abc3b",
            ja4: "t13d1516h2_8daaf6152771_b0da82dd1658",
            h2_fingerprint: "1:65536;2:0;4:6291456;6:262144|15663105|0|m,a,s,p",
        },
    ];
    assert(chrome_views(r@) =~= chrome_catalog());
    r
}

/// The first snapshot of exactly `major` on `platform`.
pub open spec fn exact_upto(c: Seq<ChromeView>, major: u32, platform: Seq<char>, n: nat) -> Option<int>
    decreases n,
{
    if n == 0 {
        None
    } else {
        match exact_upto(c, major, platform, (n - 1) as nat) {
            Some(i) => Some(i),
            None => if c[n - 1].major_version == major && c[n - 1].platform == platform {
                Some(n - 1)
            } else {
                None
            },
        }
    }
}

/// The last snapshot on `platform` of the highest major among the first `n`.
pub open spec fn latest_upto(c: Seq<ChromeView>, platform: Seq<char>, n: nat) -> Option<int>
    decreases n,
{
    if n == 0 {
        None
    } else {
        let prev = latest_upto(c, platform, (n - 1) as nat);
        if c[n - 1].platform == platform && (match prev {
            Some(j) => c[j].major_version <= c[n - 1].major_version,
            None => true,
        }) {
            Some(n - 1)
        } else {
            prev
        }
    }
}

/// The snapshot the resolver picks: an exact major/platform match, else the
/// highest bundled major on the platform, else the first entry.
pub open spec fn expected_index(major: u32, platform: Seq<char>) -> int {
    let c = chrome_catalog();
    match exact_upto(c, major, platform, c.len()) {
        Some(i) => i,
        None => match latest_upto(c, platform, c.len()) {
            Some(j) => j,
            None => 0,
        },
    }
}

proof fn lemma_upto_in_range(c: Seq<ChromeView>, major: u32, platform: Seq<char>, n: nat)
    ensures
        exact_upto(c, major, platform, n) matches Some(i) ==> 0 <= i < n,
        latest_upto(c, platform, n) matches Some(j) ==> 0 <= j < n,
    decreases n,
{
    if n > 0 {
        lemma_upto_in_range(c, major, platform, (n - 1) as nat);
    }
}

/// The expected Chrome fingerprint for `major` and `platform`: an exact
/// match, else the highest bundled major on the same platform, else the
/// first bundled entry. Never `None`: the catalogue is not empty.
pub fn expected_fingerprint(major: u32, platform: &str) -> (r: Option<ChromeFingerprint>)
    ensures
        r matches Some(f) && f@ == chrome_catalog()[expected_index(major, platform@)],
{
    let all = chrome_fingerprints();
    let ghost c = chrome_catalog();
    proof {
        lemma_upto_in_range(c, major, platform@, c.len());
    }
    let mut i: usize = 0;
    while i < all.len()
        invariant
            i <= all@.len(),
            chrome_views(all@) == c,
            c == chrome_catalog(),
            exact_upto(c, major, platform@, i as nat) is None,
        decreases all@.len() - i,
    {
        assert(c[i as int] == all@[i as int]@);
        if all[i].major_version == major && str_eq(all[i].platform, platform) {
            proof {
                lemma_exact_stays(c, major, platform@, (i + 1) as nat, c.len());
            }
            return Some(all[i]);
        }
        i = i + 1;
    }
    let mut latest: Option<usize> = None;
    let mut k: usize = 0;
    while k < all.len()
        invariant
            k <= all@.len(),
            chrome_views(all@) == c,
            c == chrome_catalog(),
            exact_upto(c, major, platform@, c.len()) is None,
            match latest {
                Some(j) => latest_upto(c, platform@, k as nat) == Some(j as int) && j < k,
                None => latest_upto(c, platform@, k as nat) is None,
            },
        decreases all@.len() - k,
    {
        assert(c[k as int] == all@[k as int]@);
        if str_eq(all[k].platform, platform) {
            let take = match latest {
                None => true,
                Some(j) => {
                    assert(c[j as int] == all@[j as int]@);
                    all[j].major_version <= all[k].major_version
                },
            };
            if take {
                latest = Some(k);
            }
        }
        k = k + 1;
    }
    match latest {
        Some(j) => Some(all[j]),
        None => {
            assert(c[0] == all@[0]@);
            Some(all[0])
        },
    }
}

proof fn lemma_exact_stays(c: Seq<ChromeView>, major: u32, platform: Seq<char>, i: nat, n: nat)
    requires
        i <= n,
        exact_upto(c, major, platform, i) is Some,
    ensures
        exact_upto(c, major, platform, n) == exact_upto(c, major, platform, i),
    decreases n - i,
{
    if n > i {
        lemma_exact_stays(c, major, platform, i, (n - 1) as nat);
    }
}


proof fn lemma_exact_upto(c: Seq<ChromeView>, major: u32, platform: Seq<char>, n: nat)
    requires
        n <= c.len(),
    ensures
        match exact_upto(c, major, platform, n) {
            Some(i) => 0 <= i < n && c[i].major_version == major && c[i].platform == platform,
            None => forall|i: int|
                0 <= i < n ==> !(#[trigger] c[i].major_version == major && c[i].platform == platform),
        },
    decreases n,
{
    if n > 0 {
        lemma_exact_upto(c, major, platform, (n - 1) as nat);
    }
}

proof fn lemma_latest_upto(c: Seq<ChromeView>, platform: Seq<char>, n: nat)
    requires
        n <= c.len(),
    ensures
        match latest_upto(c, platform, n) {
            Some(j) => 0 <= j < n && c[j].platform == platform && forall|i: int|
                0 <= i < n && #[trigger] c[i].platform == platform ==> c[i].major_version
                    <= c[j].major_version,
            None => forall|i: int| 0 <= i < n ==> #[trigger] c[i].platform != platform,
        },
    decreases n,
{
    if n > 0 {
        lemma_latest_upto(c, platform, (n - 1) as nat);
    }
}

/// How the resolver picks a snapshot: one of exactly `major` on `platform`
/// when there is one; otherwise one on `platform` whose major is the highest
/// bundled for that platform; otherwise the first bundled entry.
pub proof fn lemma_expected_selection(major: u32, platform: Seq<char>)
    ensures
        0 <= expected_index(major, platform) < chrome_catalog().len(),
        (exists|i: int|
            0 <= i < chrome_catalog().len() && #[trigger] chrome_catalog()[i].major_version == major
                && chrome_catalog()[i].platform == platform) ==> chrome_catalog()[expected_index(
            major,
            platform,
        )].major_version == major && chrome_catalog()[expected_index(major, platform)].platform
            == platform,
        !(exists|i: int|
            0 <= i < chrome_catalog().len() && #[trigger] chrome_catalog()[i].major_version == major
                && chrome_catalog()[i].platform == platform) && (exists|i: int|
            0 <= i < chrome_catalog().len() && #[trigger] chrome_catalog()[i].platform == platform)
            ==> chrome_catalog()[expected_index(major, platform)].platform == platform && forall|i: int|
            0 <= i < chrome_catalog().len() && #[trigger] chrome_catalog()[i].platform == platform
                ==> chrome_catalog()[i].major_version <= chrome_catalog()[expected_index(
                major,
                platform,
            )].major_version,
        !(exists|i: int|
            0 <= i < chrome_catalog().len() && #[trigger] chrome_catalog()[i].platform == platform)
            ==> expected_index(major, platform) == 0,
{
    let c = chrome_catalog();
    lemma_exact_upto(c, major, platform, c.len());
    lemma_latest_upto(c, platform, c.len());
}

} // verus!
