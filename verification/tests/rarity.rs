use guise::rarity::{is_modal, personas_by_rarity, rarity_score};
use guise::tls_profiles::StealthProfile;

const ALL: [StealthProfile; 16] = [
    StealthProfile::ChromeWindowsStable,
    StealthProfile::ChromeWindowsLegacy96,
    StealthProfile::ChromeMacStable,
    StealthProfile::ChromeLinux,
    StealthProfile::ChromeAndroid,
    StealthProfile::EdgeWindowsStable,
    StealthProfile::BraveWindows,
    StealthProfile::OperaWindows,
    StealthProfile::SamsungInternetAndroid,
    StealthProfile::FirefoxLinux,
    StealthProfile::FirefoxWindows,
    StealthProfile::FirefoxMacStable,
    StealthProfile::SafariMacStable,
    StealthProfile::SafariIphone,
    StealthProfile::SafariIpad,
    StealthProfile::Ie11Windows,
];

#[test]
fn chrome_windows_is_most_common() {
    let (most_common, score) = *personas_by_rarity().first().expect("at least one persona");
    assert_eq!(most_common, StealthProfile::ChromeWindowsStable);
    assert_eq!(score, 100, "ChromeWindowsStable must be the modal persona");
}

#[test]
fn ie11_is_rarest() {
    let (rarest, score) = *personas_by_rarity().last().expect("at least one persona");
    assert_eq!(rarest, StealthProfile::Ie11Windows);
    assert!(score <= 5, "IE11 must be the rarest persona");
}

#[test]
fn modal_threshold_is_met_by_major_desktop_browsers() {
    for profile in [
        StealthProfile::ChromeWindowsStable,
        StealthProfile::FirefoxLinux,
        StealthProfile::FirefoxWindows,
        StealthProfile::ChromeMacStable,
        StealthProfile::ChromeLinux,
        StealthProfile::SafariMacStable,
    ] {
        assert!(is_modal(profile), "{profile:?} is a major desktop persona and must be modal");
    }
}

#[test]
fn niche_browsers_are_not_modal() {
    for profile in [
        StealthProfile::BraveWindows,
        StealthProfile::OperaWindows,
        StealthProfile::Ie11Windows,
        StealthProfile::ChromeWindowsLegacy96,
    ] {
        assert!(!is_modal(profile), "{profile:?} is a niche/legacy persona and must not be modal");
    }
}

#[test]
fn all_profiles_have_a_non_zero_score() {
    for profile in ALL {
        let score = rarity_score(profile);
        assert!(score > 0 && score <= 100, "{profile:?} must score in 1..=100, got {score}");
    }
}

#[test]
fn personas_by_rarity_is_sorted_descending() {
    let scores: Vec<_> = personas_by_rarity().iter().map(|(_, s)| *s).collect();
    for window in scores.windows(2) {
        assert!(window[0] >= window[1], "rarity scores must be sorted descending: {:?}", window);
    }
}

#[test]
fn personas_by_rarity_lists_every_persona_once_with_its_score() {
    let ranked = personas_by_rarity();
    assert_eq!(ranked.len(), ALL.len());
    for p in ALL {
        assert_eq!(ranked.iter().filter(|(q, _)| *q == p).count(), 1, "{p:?}");
        assert!(ranked.contains(&(p, rarity_score(p))));
    }
    assert_eq!(rarity_score(StealthProfile::SafariIphone), 60);
    assert!(is_modal(StealthProfile::SafariIphone));
    assert!(!is_modal(StealthProfile::SafariIpad));
}
