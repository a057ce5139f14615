//! Wire-fingerprint cluster membership: which known real-browser targets an
//! emitted fingerprint collides with.
//!
//! JA4 is the required (primary) axis: membership is asserted only when JA4
//! matches. Akamai-H2, JA3 and peetprint corroborate: a probed one that
//! disagrees breaks membership; an unprobed one says nothing. A
//! `Distinguishable` verdict is a fact about catalogue coverage, not a proof
//! of global uniqueness.
use vstd::prelude::*;
use crate::text::str_eq;
use crate::tls_targets::{
    builtin_targets, fingerprint_targets, target_views, FingerprintTarget, TargetView,
};

verus! {

/// One surface's comparison outcome; "not probed" is never confused with
/// "disagreed".
#[derive(Debug, Clone, Copy, PartialEq, Eq, Structural)]
pub enum SurfaceMatch {
    /// The observation carried this surface and it equals the target's.
    Matched,
    /// The observation carried this surface and it differs from the target's.
    Mismatched,
    /// The observation did not carry this surface; nothing can be said.
    NotProbed,
}

/// The comparison of an optional observed surface with a target's.
pub open spec fn surface_spec(observed: Option<Seq<char>>, target: Seq<char>) -> SurfaceMatch {
    match observed {
        None => SurfaceMatch::NotProbed,
        Some(v) => if v == target {
            SurfaceMatch::Matched
        } else {
            SurfaceMatch::Mismatched
        },
    }
}

impl SurfaceMatch {
    /// Compare an optional observed surface with the target's value.
    pub fn of(observed: Option<&str>, target: &str) -> (r: SurfaceMatch)
        ensures
            r == surface_spec(
                match observed {
                    Some(v) => Some(v@),
                    None => None,
                },
                target@,
            ),
    {
        match observed {
            None => SurfaceMatch::NotProbed,
            Some(value) => if str_eq(value, target) {
                SurfaceMatch::Matched
            } else {
                SurfaceMatch::Mismatched
            },
        }
    }

    /// True only for [`SurfaceMatch::Matched`].
    pub fn is_matched(self) -> (r: bool)
        ensures
            r == (self is Matched),
    {
        match self {
            SurfaceMatch::Matched => true,
            _ => false,
        }
    }

    /// True only for [`SurfaceMatch::Mismatched`] (a probed disagreement, not
    /// an absence).
    pub fn is_mismatched(self) -> (r: bool)
        ensures
            r == (self is Mismatched),
    {
        match self {
            SurfaceMatch::Mismatched => true,
            _ => false,
        }
    }
}

/// A fingerprint the caller's own transport emits, as recovered by a wire
/// probe; each surface is present only when the probe recovered it.
#[derive(Debug, Clone, PartialEq, Eq)]
pub struct ObservedFingerprint {
    /// Full canonical JA3 string, GREASE-stripped (not the MD5 hash).
    pub ja3: Option<String>,
    /// JA4 string.
    pub ja4: Option<String>,
    /// Akamai HTTP/2 fingerprint.
    pub akamai_h2: Option<String>,
    /// peetprint HTTP/2 composite hash.
    pub peet_h2: Option<String>,
}

/// The text of each recovered surface.
pub struct ObservedView {
    pub ja3: Option<Seq<char>>,
    pub ja4: Option<Seq<char>>,
    pub akamai_h2: Option<Seq<char>>,
    pub peet_h2: Option<Seq<char>>,
}

pub open spec fn opt_view(o: Option<String>) -> Option<Seq<char>> {
    match o {
        Some(s) => Some(s@),
        None => None,
    }
}

impl View for ObservedFingerprint {
    type V = ObservedView;

    open spec fn view(&self) -> ObservedView {
        ObservedView {
            ja3: opt_view(self.ja3),
            ja4: opt_view(self.ja4),
            akamai_h2: opt_view(self.akamai_h2),
            peet_h2: opt_view(self.peet_h2),
        }
    }
}

impl Default for ObservedFingerprint {
    fn default() -> (r: ObservedFingerprint)
        ensures
            r.ja3 is None,
            r.ja4 is None,
            r.akamai_h2 is None,
            r.peet_h2 is None,
    {
        ObservedFingerprint { ja3: None, ja4: None, akamai_h2: None, peet_h2: None }
    }
}

impl ObservedFingerprint {
    /// An observation carrying only a JA4 string.
    pub fn from_ja4(ja4: String) -> (r: ObservedFingerprint)
        ensures
            r@.ja4 == Some(ja4@),
            r@.ja3 is None,
            r@.akamai_h2 is None,
            r@.peet_h2 is None,
    {
        ObservedFingerprint { ja3: None, ja4: Some(ja4), akamai_h2: None, peet_h2: None }
    }

    /// True when the primary axis (JA4) was recovered.
    pub fn has_primary_axis(&self) -> (r: bool)
        ensures
            r == (self.ja4 is Some),
    {
        self.ja4.is_some()
    }
}

/// How one observed fingerprint lines up against one catalogue target.
#[derive(Debug, Clone, PartialEq, Eq)]
pub struct ClusterMatch {
    /// The catalogue label this observation was compared against.
    pub label: &'static str,
    /// JA3 string comparison.
    pub ja3: SurfaceMatch,
    /// JA4 comparison (the primary axis).
    pub ja4: SurfaceMatch,
    /// Akamai-H2 comparison (the corroborating axis).
    pub akamai: SurfaceMatch,
    /// peetprint comparison.
    pub peet: SurfaceMatch,
}

pub struct MatchView {
    pub label: Seq<char>,
    pub ja3: SurfaceMatch,
    pub ja4: SurfaceMatch,
    pub akamai: SurfaceMatch,
    pub peet: SurfaceMatch,
}

impl View for ClusterMatch {
    type V = MatchView;

    open spec fn view(&self) -> MatchView {
        MatchView {
            label: self.label@,
            ja3: self.ja3,
            ja4: self.ja4,
            akamai: self.akamai,
            peet: self.peet,
        }
    }
}

pub open spec fn count_matched(s: SurfaceMatch) -> nat {
    if s is Matched {
        1
    } else {
        0
    }
}

impl MatchView {
    /// Surfaces probed and matched (0 to 4).
    pub open spec fn matched(self) -> nat {
        count_matched(self.ja3) + count_matched(self.ja4) + count_matched(self.akamai)
            + count_matched(self.peet)
    }

    /// Some probed surface disagrees.
    pub open spec fn contradicts(self) -> bool {
        self.ja3 is Mismatched || self.ja4 is Mismatched || self.akamai is Mismatched
            || self.peet is Mismatched
    }

    /// JA4 matched and nothing probed disagrees.
    pub open spec fn is_member(self) -> bool {
        self.ja4 is Matched && !self.contradicts()
    }

    /// The nearest-target rank: a JA4 match outranks any count of
    /// corroborator matches, then the matched count decides.
    pub open spec fn rank(self) -> int {
        (if self.ja4 is Matched {
            5int
        } else {
            0int
        }) + self.matched()
    }
}

impl ClusterMatch {
    /// Count of surfaces that were probed and matched (0 to 4).
    pub fn matched_surfaces(&self) -> (n: u8)
        ensures
            n == self@.matched(),
    {
        let a: u8 = if self.ja3.is_matched() {
            1
        } else {
            0
        };
        let b: u8 = if self.ja4.is_matched() {
            1
        } else {
            0
        };
        let c: u8 = if self.akamai.is_matched() {
            1
        } else {
            0
        };
        let d: u8 = if self.peet.is_matched() {
            1
        } else {
            0
        };
        a + b + c + d
    }

    /// True when any probed surface disagrees with this target.
    pub fn contradicts(&self) -> (r: bool)
        ensures
            r == self@.contradicts(),
    {
        self.ja3.is_mismatched() || self.ja4.is_mismatched() || self.akamai.is_mismatched()
            || self.peet.is_mismatched()
    }

    /// True when JA4 matched and no other probed surface contradicts it.
    pub fn is_member(&self) -> (r: bool)
        ensures
            r == self@.is_member(),
    {
        self.ja4.is_matched() && !self.contradicts()
    }

    /// True when at least one surface matched.
    pub fn any_match(&self) -> (r: bool)
        ensures
            r == (self@.matched() > 0),
    {
        self.matched_surfaces() > 0
    }
}

/// The membership verdict for one observed fingerprint.
#[derive(Debug, Clone, PartialEq, Eq)]
pub enum ClusterVerdict {
    /// Member of at least one catalogue target; carries every such match.
    InCluster {
        /// Targets the observation is a member of.
        matches: Vec<ClusterMatch>,
    },
    /// No catalogue target was a member match.
    Distinguishable {
        /// The closest target, when any surface matched.
        nearest: Option<ClusterMatch>,
        /// True when JA4 was never probed, so the verdict rests only on
        /// corroborating surfaces.
        weak_evidence_only: bool,
    },
}

pub enum VerdictView {
    InCluster { matches: Seq<MatchView> },
    Distinguishable { nearest: Option<MatchView>, weak_evidence_only: bool },
}

pub open spec fn match_views(v: Seq<ClusterMatch>) -> Seq<MatchView> {
    v.map_values(|m: ClusterMatch| m@)
}

impl View for ClusterVerdict {
    type V = VerdictView;

    open spec fn view(&self) -> VerdictView {
        match self {
            ClusterVerdict::InCluster { matches } => VerdictView::InCluster {
                matches: match_views(matches@),
            },
            ClusterVerdict::Distinguishable { nearest, weak_evidence_only } => {
                VerdictView::Distinguishable {
                    nearest: match nearest {
                        Some(m) => Some(m@),
                        None => None,
                    },
                    weak_evidence_only: *weak_evidence_only,
                }
            },
        }
    }
}

impl ClusterVerdict {
    /// True when the observation blends into a known real-browser cluster.
    pub fn is_in_cluster(&self) -> (r: bool)
        ensures
            r == (self is InCluster),
    {
        match self {
            ClusterVerdict::InCluster { .. } => true,
            ClusterVerdict::Distinguishable { .. } => false,
        }
    }

    /// The labels of every target the observation is a member of (empty
    /// unless in-cluster).
    pub fn cluster_labels(&self) -> (r: Vec<&'static str>)
        ensures
            match self@ {
                VerdictView::InCluster { matches } => r@.len() == matches.len() && forall|i: int|
                    0 <= i < matches.len() ==> #[trigger] r@[i]@ == matches[i].label,
                VerdictView::Distinguishable { .. } => r@.len() == 0,
            },
    {
        let mut r: Vec<&'static str> = Vec::new();
        match self {
            ClusterVerdict::InCluster { matches } => {
                let mut i: usize = 0;
                while i < matches.len()
                    invariant
                        i <= matches@.len(),
                        r@.len() == i,
                        forall|j: int| 0 <= j < i ==> #[trigger] r@[j]@ == matches@[j].label@,
                    decreases matches@.len() - i,
                {
                    r.push(matches[i].label);
                    i = i + 1;
                }
            },
            ClusterVerdict::Distinguishable { .. } => {},
        }
        r
    }
}

/// One observation against one target, surface by surface.
pub open spec fn match_spec(o: ObservedView, t: TargetView) -> MatchView {
    MatchView {
        label: t.label,
        ja3: surface_spec(o.ja3, t.ja3),
        ja4: surface_spec(o.ja4, t.ja4),
        akamai: surface_spec(o.akamai_h2, t.akamai_h2),
        peet: surface_spec(o.peet_h2, t.peet_h2),
    }
}

/// The member matches among the first `n` targets, in catalogue order.
pub open spec fn members_upto(o: ObservedView, ts: Seq<TargetView>, n: nat) -> Seq<MatchView>
    decreases n,
{
    if n == 0 {
        Seq::empty()
    } else {
        let prev = members_upto(o, ts, (n - 1) as nat);
        let m = match_spec(o, ts[n - 1]);
        if m.is_member() {
            prev.push(m)
        } else {
            prev
        }
    }
}

/// Among the first `n` targets with any matched surface, the last one of
/// highest rank.
pub open spec fn nearest_upto(o: ObservedView, ts: Seq<TargetView>, n: nat) -> Option<MatchView>
    decreases n,
{
    if n == 0 {
        None
    } else {
        let prev = nearest_upto(o, ts, (n - 1) as nat);
        let m = match_spec(o, ts[n - 1]);
        if m.matched() == 0 {
            prev
        } else {
            match prev {
                None => Some(m),
                Some(b) => if m.rank() >= b.rank() {
                    Some(m)
                } else {
                    prev
                },
            }
        }
    }
}

/// The verdict for `o` against `ts`: in-cluster with every member match
/// when there is one, else distinguishable with the nearest partial match.
pub open spec fn classify_spec(o: ObservedView, ts: Seq<TargetView>) -> VerdictView {
    let members = members_upto(o, ts, ts.len());
    if members.len() > 0 {
        VerdictView::InCluster { matches: members }
    } else {
        VerdictView::Distinguishable {
            nearest: nearest_upto(o, ts, ts.len()),
            weak_evidence_only: o.ja4 is None,
        }
    }
}

fn opt_str(o: &Option<String>) -> (r: Option<&str>)
    ensures
        match r {
            Some(v) => opt_view(*o) == Some(v@),
            None => o is None,
        },
{
    match o {
        Some(s) => Some(s.as_str()),
        None => None,
    }
}

fn match_against(observed: &ObservedFingerprint, target: &FingerprintTarget) -> (m: ClusterMatch)
    ensures
        m@ == match_spec(observed@, target@),
{
    ClusterMatch {
        label: target.label,
        ja3: SurfaceMatch::of(opt_str(&observed.ja3), target.ja3),
        ja4: SurfaceMatch::of(opt_str(&observed.ja4), target.ja4),
        akamai: SurfaceMatch::of(opt_str(&observed.akamai_h2), target.akamai_h2),
        peet: SurfaceMatch::of(opt_str(&observed.peet_h2), target.peet_h2),
    }
}

/// Classify an observed fingerprint against an explicit target set:
/// in-cluster with every member match (JA4 matched, nothing probed
/// disagrees) in target order; otherwise distinguishable with the last
/// highest-ranked target among those that matched any surface.
pub fn classify_against(observed: &ObservedFingerprint, targets: &[FingerprintTarget]) -> (r:
    ClusterVerdict)
    ensures
        r@ == classify_spec(observed@, target_views(targets@)),
{
    let ghost o = observed@;
    let ghost ts = target_views(targets@);
    let mut members: Vec<ClusterMatch> = Vec::new();
    let mut nearest: Option<ClusterMatch> = None;
    let mut i: usize = 0;
    while i < targets.len()
        invariant
            i <= targets@.len(),
            o == observed@,
            ts == target_views(targets@),
            match_views(members@) == members_upto(o, ts, i as nat),
            match nearest {
                Some(m) => nearest_upto(o, ts, i as nat) == Some(m@),
                None => nearest_upto(o, ts, i as nat) is None,
            },
        decreases targets@.len() - i,
    {
        let m = match_against(observed, &targets[i]);
        assert(ts[i as int] == targets@[i as int]@);
        if m.is_member() {
            let ghost before = match_views(members@);
            members.push(match_against(observed, &targets[i]));
            assert(match_views(members@) =~= before.push(m@));
        }
        if m.any_match() {
            let replace = match &nearest {
                None => true,
                Some(b) => {
                    let rm: u8 = if m.ja4.is_matched() {
                        5
                    } else {
                        0
                    };
                    let rb: u8 = if b.ja4.is_matched() {
                        5
                    } else {
                        0
                    };
                    rm + m.matched_surfaces() >= rb + b.matched_surfaces()
                },
            };
            if replace {
                nearest = Some(m);
            }
        }
        i = i + 1;
    }
    if members.len() > 0 {
        ClusterVerdict::InCluster { matches: members }
    } else {
        ClusterVerdict::Distinguishable { nearest, weak_evidence_only: !observed.has_primary_axis() }
    }
}

/// Classify an observed fingerprint against the bundled real-browser
/// catalogue (see [`classify_against`]).
pub fn classify_observed(observed: &ObservedFingerprint) -> (r: ClusterVerdict)
    ensures
        r@ == classify_spec(observed@, builtin_targets()),
{
    let all = fingerprint_targets();
    classify_against(observed, all.as_slice())
}

// ───────────────────────── laws ─────────────────────────

proof fn lemma_member_in_upto(o: ObservedView, ts: Seq<TargetView>, n: nat, k: int)
    requires
        0 <= k < n <= ts.len(),
        match_spec(o, ts[k]).is_member(),
    ensures
        members_upto(o, ts, n).contains(match_spec(o, ts[k])),
    decreases n,
{
    if k < n - 1 {
        lemma_member_in_upto(o, ts, (n - 1) as nat, k);
        let prev = members_upto(o, ts, (n - 1) as nat);
        let j = choose|j: int| 0 <= j < prev.len() && prev[j] == match_spec(o, ts[k]);
        if match_spec(o, ts[n - 1]).is_member() {
            assert(prev.push(match_spec(o, ts[n - 1]))[j] == match_spec(o, ts[k]));
        }
    } else {
        assert(members_upto(o, ts, n).last() == match_spec(o, ts[k]));
    }
}

/// An observation whose JA4 equals a target's, and whose other surfaces are
/// unprobed or equal to that target's, is in-cluster and a member of that
/// target's cluster.
pub proof fn lemma_reproduced_target_is_member(o: ObservedView, ts: Seq<TargetView>, k: int)
    requires
        0 <= k < ts.len(),
        o.ja4 == Some(ts[k].ja4),
        o.ja3 is None || o.ja3 == Some(ts[k].ja3),
        o.akamai_h2 is None || o.akamai_h2 == Some(ts[k].akamai_h2),
        o.peet_h2 is None || o.peet_h2 == Some(ts[k].peet_h2),
    ensures
        classify_spec(o, ts) matches VerdictView::InCluster { matches } && matches.contains(
            match_spec(o, ts[k]),
        ),
        match_spec(o, ts[k]).label == ts[k].label,
{
    lemma_member_in_upto(o, ts, ts.len(), k);
}

/// Membership needs the primary axis: an observation without JA4 is never
/// in-cluster, and is flagged as resting on weak evidence.
pub proof fn lemma_no_ja4_never_in_cluster(o: ObservedView, ts: Seq<TargetView>)
    requires
        o.ja4 is None,
    ensures
        classify_spec(o, ts) matches VerdictView::Distinguishable { weak_evidence_only, .. }
            && weak_evidence_only,
{
    lemma_no_ja4_no_members(o, ts, ts.len());
}

proof fn lemma_no_ja4_no_members(o: ObservedView, ts: Seq<TargetView>, n: nat)
    requires
        n <= ts.len(),
        o.ja4 is None,
    ensures
        members_upto(o, ts, n).len() == 0,
    decreases n,
{
    if n > 0 {
        lemma_no_ja4_no_members(o, ts, (n - 1) as nat);
    }
}


proof fn lemma_members_upto(o: ObservedView, ts: Seq<TargetView>, n: nat)
    requires
        n <= ts.len(),
    ensures
        forall|j: int|
            0 <= j < members_upto(o, ts, n).len() ==> (#[trigger] members_upto(o, ts, n)[j]).is_member()
                && exists|k: int| 0 <= k < n && members_upto(o, ts, n)[j] == match_spec(o, ts[k]),
        members_upto(o, ts, n).len() == 0 <==> forall|k: int|
            0 <= k < n ==> !(#[trigger] match_spec(o, ts[k])).is_member(),
    decreases n,
{
    if n > 0 {
        lemma_members_upto(o, ts, (n - 1) as nat);
        let prev = members_upto(o, ts, (n - 1) as nat);
        let m = match_spec(o, ts[n - 1]);
        let cur = members_upto(o, ts, n);
        assert forall|j: int| 0 <= j < cur.len() implies (#[trigger] cur[j]).is_member() && exists|k: int|
            0 <= k < n && cur[j] == match_spec(o, ts[k]) by {
            if j < prev.len() {
                assert(cur[j] == prev[j]);
                let k = choose|k: int| 0 <= k < n - 1 && prev[j] == match_spec(o, ts[k]);
                assert(cur[j] == match_spec(o, ts[k]));
            } else {
                assert(cur[j] == m);
            }
        }
    }
}

proof fn lemma_nearest_upto(o: ObservedView, ts: Seq<TargetView>, n: nat)
    requires
        n <= ts.len(),
    ensures
        nearest_upto(o, ts, n) is None <==> forall|k: int|
            0 <= k < n ==> (#[trigger] match_spec(o, ts[k])).matched() == 0,
        nearest_upto(o, ts, n) matches Some(b) ==> b.matched() > 0 && (exists|k: int|
            0 <= k < n && b == #[trigger] match_spec(o, ts[k])) && forall|k: int|
            0 <= k < n && (#[trigger] match_spec(o, ts[k])).matched() > 0 ==> match_spec(
                o,
                ts[k],
            ).rank() <= b.rank(),
    decreases n,
{
    if n > 0 {
        lemma_nearest_upto(o, ts, (n - 1) as nat);
        let m = match_spec(o, ts[n - 1]);
        match nearest_upto(o, ts, (n - 1) as nat) {
            Some(b) => {
                let k = choose|k: int| 0 <= k < n - 1 && b == #[trigger] match_spec(o, ts[k]);
                assert(b == match_spec(o, ts[k]));
            },
            None => {},
        }
        match nearest_upto(o, ts, n) {
            Some(b) => {
                if b == m {
                    assert(b == match_spec(o, ts[n - 1]));
                } else {
                    let pb = nearest_upto(o, ts, (n - 1) as nat)->0;
                    let k = choose|k: int| 0 <= k < n - 1 && pb == #[trigger] match_spec(o, ts[k]);
                    assert(b == match_spec(o, ts[k]));
                }
            },
            None => {},
        }
    }
}

/// The verdict is in-cluster exactly when some target is a member (JA4
/// matched, nothing probed disagrees), and then lists only member matches,
/// each of a target of the set.
pub proof fn lemma_in_cluster_iff_member(o: ObservedView, ts: Seq<TargetView>)
    ensures
        classify_spec(o, ts) is InCluster <==> exists|k: int|
            0 <= k < ts.len() && (#[trigger] match_spec(o, ts[k])).is_member(),
        classify_spec(o, ts) matches VerdictView::InCluster { matches } ==> forall|j: int|
            0 <= j < matches.len() ==> (#[trigger] matches[j]).is_member() && exists|k: int|
                0 <= k < ts.len() && matches[j] == match_spec(o, ts[k]),
{
    lemma_members_upto(o, ts, ts.len());
}

/// A distinguishable verdict names no nearest target exactly when no target
/// matched any surface; otherwise the nearest is a target's match that
/// matched some surface and whose rank no other such target exceeds.
pub proof fn lemma_nearest_is_best(o: ObservedView, ts: Seq<TargetView>)
    ensures
        classify_spec(o, ts) matches VerdictView::Distinguishable { nearest, .. } ==> {
            &&& nearest is None <==> forall|k: int|
                0 <= k < ts.len() ==> (#[trigger] match_spec(o, ts[k])).matched() == 0
            &&& nearest matches Some(b) ==> b.matched() > 0 && (exists|k: int|
                0 <= k < ts.len() && b == #[trigger] match_spec(o, ts[k])) && forall|k: int|
                0 <= k < ts.len() && (#[trigger] match_spec(o, ts[k])).matched() > 0 ==> match_spec(
                    o,
                    ts[k],
                ).rank() <= b.rank()
        },
{
    lemma_nearest_upto(o, ts, ts.len());
}

} // verus!
