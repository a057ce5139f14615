//! Persona rarity: an ordinal estimate (1 to 100) of how common each shipped
//! persona is among real users, so selection can prefer populated buckets
//! over unique ones. Higher means more common.
use vstd::prelude::*;
use crate::tls_profiles::StealthProfile;

verus! {

/// The rarity score of a persona: 100 for the modal Chrome-on-Windows
/// bucket down to 5 for IE 11.
pub open spec fn rarity_spec(p: StealthProfile) -> u32 {
    match p {
        StealthProfile::ChromeWindowsStable => 100,
        StealthProfile::FirefoxLinux => 85,
        StealthProfile::FirefoxWindows => 84,
        StealthProfile::ChromeMacStable => 70,
        StealthProfile::ChromeLinux => 68,
        StealthProfile::SafariMacStable => 65,
        StealthProfile::SafariIphone => 60,
        StealthProfile::SafariIpad => 55,
        StealthProfile::EdgeWindowsStable => 50,
        StealthProfile::FirefoxMacStable => 45,
        StealthProfile::ChromeAndroid => 40,
        StealthProfile::SamsungInternetAndroid => 30,
        StealthProfile::BraveWindows => 20,
        StealthProfile::OperaWindows => 15,
        StealthProfile::Ie11Windows => 5,
        StealthProfile::ChromeWindowsLegacy96 => 10,
    }
}

/// Rarity score for a shipped persona. Higher means more common / less
/// unique; the scale is ordinal, not a share of real users.
pub fn rarity_score(profile: StealthProfile) -> (r: u32)
    ensures
        r == rarity_spec(profile),
        1 <= r <= 100,
{
    match profile {
        StealthProfile::ChromeWindowsStable => 100,
        StealthProfile::FirefoxLinux => 85,
        StealthProfile::FirefoxWindows => 84,
        StealthProfile::ChromeMacStable => 70,
        StealthProfile::ChromeLinux => 68,
        StealthProfile::SafariMacStable => 65,
        StealthProfile::SafariIphone => 60,
        StealthProfile::SafariIpad => 55,
        StealthProfile::EdgeWindowsStable => 50,
        StealthProfile::FirefoxMacStable => 45,
        StealthProfile::ChromeAndroid => 40,
        StealthProfile::SamsungInternetAndroid => 30,
        StealthProfile::BraveWindows => 20,
        StealthProfile::OperaWindows => 15,
        StealthProfile::Ie11Windows => 5,
        StealthProfile::ChromeWindowsLegacy96 => 10,
    }
}

/// Whether the persona is in the top half of the rarity distribution
/// (score at least 60).
pub fn is_modal(profile: StealthProfile) -> (r: bool)
    ensures
        r == (rarity_spec(profile) >= 60),
{
    rarity_score(profile) >= 60
}

/// Every shipped persona with its score, most common first.
pub fn personas_by_rarity() -> (r: Vec<(StealthProfile, u32)>)
    ensures
        r@.len() == 16,
        forall|i: int| 0 <= i < r@.len() ==> (#[trigger] r@[i]).1 == rarity_spec(r@[i].0),
        forall|i: int, j: int| 0 <= i < j < r@.len() ==> (#[trigger] r@[i]).1 > (#[trigger] r@[j]).1,
        forall|p: StealthProfile| #[trigger] r@.contains((p, rarity_spec(p))),
{
    let order = [
        StealthProfile::ChromeWindowsStable,
        StealthProfile::FirefoxLinux,
        StealthProfile::FirefoxWindows,
        StealthProfile::ChromeMacStable,
        StealthProfile::ChromeLinux,
        StealthProfile::SafariMacStable,
        StealthProfile::SafariIphone,
        StealthProfile::SafariIpad,
        StealthProfile::EdgeWindowsStable,
        StealthProfile::FirefoxMacStable,
        StealthProfile::ChromeAndroid,
        StealthProfile::SamsungInternetAndroid,
        StealthProfile::BraveWindows,
        StealthProfile::OperaWindows,
        StealthProfile::ChromeWindowsLegacy96,
        StealthProfile::Ie11Windows,
    ];
    let mut r: Vec<(StealthProfile, u32)> = Vec::new();
    let mut i: usize = 0;
    while i < 16
        invariant
            i <= 16,
            order@ == seq![
                StealthProfile::ChromeWindowsStable,
                StealthProfile::FirefoxLinux,
                StealthProfile::FirefoxWindows,
                StealthProfile::ChromeMacStable,
                StealthProfile::ChromeLinux,
                StealthProfile::SafariMacStable,
                StealthProfile::SafariIphone,
                StealthProfile::SafariIpad,
                StealthProfile::EdgeWindowsStable,
                StealthProfile::FirefoxMacStable,
                StealthProfile::ChromeAndroid,
                StealthProfile::SamsungInternetAndroid,
                StealthProfile::BraveWindows,
                StealthProfile::OperaWindows,
                StealthProfile::ChromeWindowsLegacy96,
                StealthProfile::Ie11Windows,
            ],
            r@.len() == i,
            forall|k: int| 0 <= k < i ==> #[trigger] r@[k] == (order@[k], rarity_spec(order@[k])),
        decreases 16 - i,
    {
        let p = order[i];
        r.push((p, rarity_score(p)));
        i = i + 1;
    }
    assert forall|p: StealthProfile| #[trigger] r@.contains((p, rarity_spec(p))) by {
        let k: int = match p {
            StealthProfile::ChromeWindowsStable => 0,
            StealthProfile::FirefoxLinux => 1,
            StealthProfile::FirefoxWindows => 2,
            StealthProfile::ChromeMacStable => 3,
            StealthProfile::ChromeLinux => 4,
            StealthProfile::SafariMacStable => 5,
            StealthProfile::SafariIphone => 6,
            StealthProfile::SafariIpad => 7,
            StealthProfile::EdgeWindowsStable => 8,
            StealthProfile::FirefoxMacStable => 9,
            StealthProfile::ChromeAndroid => 10,
            StealthProfile::SamsungInternetAndroid => 11,
            StealthProfile::BraveWindows => 12,
            StealthProfile::OperaWindows => 13,
            StealthProfile::ChromeWindowsLegacy96 => 14,
            StealthProfile::Ie11Windows => 15,
        };
        assert(r@[k] == (p, rarity_spec(p)));
    }
    r
}

} // verus!
