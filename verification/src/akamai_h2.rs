//! Structured Akamai HTTP/2 fingerprint: parse the published
//! `SETTINGS|WINDOW_UPDATE|PRIORITY|pseudo-header-order` string into typed
//! fields, render it back byte for byte, and localise a divergence between two
//! shapes to the exact frame field that differs.
//!
//! Four `|`-separated sections, each order-significant:
//! 1. SETTINGS: `id:value` pairs joined by `;`, in sent order.
//! 2. WINDOW_UPDATE: the connection-level increment, `0` if none.
//! 3. PRIORITY: `stream:exclusive:dependent:weight` frames joined by `,`, or `0`.
//! 4. Pseudo-header order: `m`/`p`/`a`/`s` joined by `,`.
use vstd::prelude::*;
use crate::text::{
    chars_of, dec, find_char, find_char_exec, is_digit, join, lemma_dec_no_char,
    lemma_find_char_concat, lemma_no_char_concat, lemma_no_char_join, lemma_parse_dec,
    lemma_split_join, lemma_split_len, no_char, parse_uint, parse_unsigned, push_dec, push_joined,
    push_str, slice_chars, split, split_chars, string_from_chars, views,
};

verus! {

/// RFC 7540 `SETTINGS_HEADER_TABLE_SIZE`.
pub const HEADER_TABLE_SIZE: u16 = 1;
/// `SETTINGS_ENABLE_PUSH`.
pub const ENABLE_PUSH: u16 = 2;
/// `SETTINGS_MAX_CONCURRENT_STREAMS`.
pub const MAX_CONCURRENT_STREAMS: u16 = 3;
/// `SETTINGS_INITIAL_WINDOW_SIZE`.
pub const INITIAL_WINDOW_SIZE: u16 = 4;
/// `SETTINGS_MAX_FRAME_SIZE`.
pub const MAX_FRAME_SIZE: u16 = 5;
/// `SETTINGS_MAX_HEADER_LIST_SIZE`.
pub const MAX_HEADER_LIST_SIZE: u16 = 6;

/// One HTTP/2 SETTINGS entry.
#[derive(Debug, Clone, Copy, PartialEq, Eq, Structural)]
pub struct H2Setting {
    /// The SETTINGS identifier.
    pub id: u16,
    /// The advertised value.
    pub value: u32,
}

/// One HTTP/2 PRIORITY frame (`stream:exclusive:dependent:weight`).
#[derive(Debug, Clone, Copy, PartialEq, Eq, Structural)]
pub struct H2Priority {
    /// The stream the PRIORITY frame applies to.
    pub stream_id: u32,
    /// Exclusive bit.
    pub exclusive: u8,
    /// The stream this one depends on.
    pub dependent: u32,
    /// The priority weight as sent on the wire.
    pub weight: u16,
}

/// The four HTTP/2 pseudo-headers.
#[derive(Debug, Clone, Copy, PartialEq, Eq, Structural)]
pub enum PseudoHeader {
    /// `:method`
    Method,
    /// `:path`
    Path,
    /// `:authority`
    Authority,
    /// `:scheme`
    Scheme,
}

pub open spec fn code_of(p: PseudoHeader) -> char {
    match p {
        PseudoHeader::Method => 'm',
        PseudoHeader::Path => 'p',
        PseudoHeader::Authority => 'a',
        PseudoHeader::Scheme => 's',
    }
}

pub open spec fn pseudo_of(c: char) -> Option<PseudoHeader> {
    if c == 'm' {
        Some(PseudoHeader::Method)
    } else if c == 'p' {
        Some(PseudoHeader::Path)
    } else if c == 'a' {
        Some(PseudoHeader::Authority)
    } else if c == 's' {
        Some(PseudoHeader::Scheme)
    } else {
        None
    }
}

impl PseudoHeader {
    /// The single-letter Akamai code (`m`/`p`/`a`/`s`).
    pub fn code(self) -> (c: char)
        ensures
            c == code_of(self),
    {
        match self {
            PseudoHeader::Method => 'm',
            PseudoHeader::Path => 'p',
            PseudoHeader::Authority => 'a',
            PseudoHeader::Scheme => 's',
        }
    }

    /// The pseudo-header a code letter names.
    pub fn from_code(c: char) -> (r: Option<PseudoHeader>)
        ensures
            r == pseudo_of(c),
    {
        if c == 'm' {
            Some(PseudoHeader::Method)
        } else if c == 'p' {
            Some(PseudoHeader::Path)
        } else if c == 'a' {
            Some(PseudoHeader::Authority)
        } else if c == 's' {
            Some(PseudoHeader::Scheme)
        } else {
            None
        }
    }
}

/// A parse failure naming the section and the offending token.
#[derive(Debug, Clone, PartialEq, Eq)]
pub enum AkamaiH2ParseError {
    /// Not exactly four `|`-separated sections.
    SectionCount(usize),
    /// A SETTINGS token was not `id:value` with numbers in range.
    Settings(String),
    /// The WINDOW_UPDATE section was not a single integer.
    WindowUpdate(String),
    /// A PRIORITY frame was not `stream:exclusive:dependent:weight`.
    Priority(String),
    /// The pseudo-header section carried an unknown code or no entries.
    PseudoHeader(String),
}

/// The mathematical content of an [`AkamaiH2ParseError`].
pub enum ParseErrorView {
    SectionCount(nat),
    Settings(Seq<char>),
    WindowUpdate(Seq<char>),
    Priority(Seq<char>),
    PseudoHeader(Seq<char>),
}

impl View for AkamaiH2ParseError {
    type V = ParseErrorView;

    open spec fn view(&self) -> ParseErrorView {
        match self {
            AkamaiH2ParseError::SectionCount(n) => ParseErrorView::SectionCount(*n as nat),
            AkamaiH2ParseError::Settings(t) => ParseErrorView::Settings(t@),
            AkamaiH2ParseError::WindowUpdate(t) => ParseErrorView::WindowUpdate(t@),
            AkamaiH2ParseError::Priority(t) => ParseErrorView::Priority(t@),
            AkamaiH2ParseError::PseudoHeader(t) => ParseErrorView::PseudoHeader(t@),
        }
    }
}

impl AkamaiH2ParseError {
    /// Human-readable description of the failure.
    pub fn message(&self) -> (s: String)
        ensures
            s@ == parse_error_message(self@),
    {
        let mut out: Vec<char> = Vec::new();
        match self {
            AkamaiH2ParseError::SectionCount(n) => {
                push_str(&mut out, "Akamai H2 fingerprint must have 4 `|`-separated sections, got ");
                push_dec(&mut out, *n as u64);
            },
            AkamaiH2ParseError::Settings(t) => {
                push_str(&mut out, "malformed SETTINGS token `");
                push_str(&mut out, t.as_str());
                push_str(&mut out, "` (want `id:value`)");
            },
            AkamaiH2ParseError::WindowUpdate(t) => {
                push_str(&mut out, "malformed WINDOW_UPDATE `");
                push_str(&mut out, t.as_str());
                push_str(&mut out, "` (want one integer)");
            },
            AkamaiH2ParseError::Priority(t) => {
                push_str(&mut out, "malformed PRIORITY frame `");
                push_str(&mut out, t.as_str());
                push_str(&mut out, "` (want `stream:exclusive:dependent:weight`)");
            },
            AkamaiH2ParseError::PseudoHeader(t) => {
                push_str(&mut out, "malformed pseudo-header section `");
                push_str(&mut out, t.as_str());
                push_str(&mut out, "` (codes m/p/a/s)");
            },
        }
        string_from_chars(out.as_slice())
    }
}

pub open spec fn parse_error_message(e: ParseErrorView) -> Seq<char> {
    match e {
        ParseErrorView::SectionCount(n) => "Akamai H2 fingerprint must have 4 `|`-separated sections, got "@
            + dec(n),
        ParseErrorView::Settings(t) => "malformed SETTINGS token `"@ + t + "` (want `id:value`)"@,
        ParseErrorView::WindowUpdate(t) => "malformed WINDOW_UPDATE `"@ + t + "` (want one integer)"@,
        ParseErrorView::Priority(t) => "malformed PRIORITY frame `"@ + t
            + "` (want `stream:exclusive:dependent:weight`)"@,
        ParseErrorView::PseudoHeader(t) => "malformed pseudo-header section `"@ + t + "` (codes m/p/a/s)"@,
    }
}

/// One localised difference between two Akamai H2 shapes.
#[derive(Debug, Clone, PartialEq, Eq)]
pub enum AkamaiH2Divergence {
    /// A SETTINGS value differs or is absent on one side.
    Setting {
        /// The SETTINGS identifier.
        id: u16,
        /// Value in the observed shape (`None` = not sent).
        observed: Option<u32>,
        /// Value in the target shape (`None` = not sent).
        target: Option<u32>,
    },
    /// Same values but a different id order.
    SettingsOrder {
        /// Observed id order.
        observed: Vec<u16>,
        /// Target id order.
        target: Vec<u16>,
    },
    /// The connection-level WINDOW_UPDATE increment differs.
    WindowUpdate {
        /// Observed increment.
        observed: u32,
        /// Target increment.
        target: u32,
    },
    /// The PRIORITY frame set differs.
    Priority {
        /// Observed PRIORITY frames.
        observed: Vec<H2Priority>,
        /// Target PRIORITY frames.
        target: Vec<H2Priority>,
    },
    /// The pseudo-header order differs.
    PseudoHeaderOrder {
        /// Observed order.
        observed: Vec<PseudoHeader>,
        /// Target order.
        target: Vec<PseudoHeader>,
    },
}

/// The mathematical content of an [`AkamaiH2Divergence`].
pub enum DivergenceView {
    Setting { id: u16, observed: Option<u32>, target: Option<u32> },
    SettingsOrder { observed: Seq<u16>, target: Seq<u16> },
    WindowUpdate { observed: u32, target: u32 },
    Priority { observed: Seq<H2Priority>, target: Seq<H2Priority> },
    PseudoHeaderOrder { observed: Seq<PseudoHeader>, target: Seq<PseudoHeader> },
}

impl View for AkamaiH2Divergence {
    type V = DivergenceView;

    open spec fn view(&self) -> DivergenceView {
        match self {
            AkamaiH2Divergence::Setting { id, observed, target } => DivergenceView::Setting {
                id: *id,
                observed: *observed,
                target: *target,
            },
            AkamaiH2Divergence::SettingsOrder { observed, target } => DivergenceView::SettingsOrder {
                observed: observed@,
                target: target@,
            },
            AkamaiH2Divergence::WindowUpdate { observed, target } => DivergenceView::WindowUpdate {
                observed: *observed,
                target: *target,
            },
            AkamaiH2Divergence::Priority { observed, target } => DivergenceView::Priority {
                observed: observed@,
                target: target@,
            },
            AkamaiH2Divergence::PseudoHeaderOrder {
                observed,
                target,
            } => DivergenceView::PseudoHeaderOrder { observed: observed@, target: target@ },
        }
    }
}

/// A parsed Akamai HTTP/2 fingerprint, in sent order.
#[derive(Debug, Clone, PartialEq, Eq)]
pub struct AkamaiH2Fingerprint {
    /// SETTINGS entries, in sent order.
    pub settings: Vec<H2Setting>,
    /// Connection-level WINDOW_UPDATE increment (`0` = none sent).
    pub window_update: u32,
    /// PRIORITY frames, in sent order (empty = none sent, rendered `0`).
    pub priorities: Vec<H2Priority>,
    /// Pseudo-header order.
    pub pseudo_header_order: Vec<PseudoHeader>,
}

/// The mathematical content of an [`AkamaiH2Fingerprint`].
pub struct AkamaiView {
    pub settings: Seq<H2Setting>,
    pub window_update: u32,
    pub priorities: Seq<H2Priority>,
    pub pseudo: Seq<PseudoHeader>,
}

impl View for AkamaiH2Fingerprint {
    type V = AkamaiView;

    open spec fn view(&self) -> AkamaiView {
        AkamaiView {
            settings: self.settings@,
            window_update: self.window_update,
            priorities: self.priorities@,
            pseudo: self.pseudo_header_order@,
        }
    }
}

// ───────────────────────── parsing (specification) ─────────────────────────

pub open spec fn u16_max() -> nat {
    0xffff
}

pub open spec fn u32_max() -> nat {
    0xffff_ffff
}

pub open spec fn u8_max() -> nat {
    0xff
}

/// One `id:value` SETTINGS token, split at its first `:`.
pub open spec fn setting_token(tok: Seq<char>) -> Option<H2Setting> {
    match find_char(tok, ':') {
        None => None,
        Some(k) => match (parse_unsigned(tok.take(k), u16_max()), parse_unsigned(tok.skip(k + 1), u32_max())) {
            (Some(id), Some(v)) => Some(H2Setting { id: id as u16, value: v as u32 }),
            _ => None,
        },
    }
}

/// Parse a list of SETTINGS tokens; the first bad token is the error.
pub open spec fn settings_list(toks: Seq<Seq<char>>) -> Result<Seq<H2Setting>, Seq<char>>
    decreases toks.len(),
{
    if toks.len() == 0 {
        Ok(Seq::empty())
    } else {
        match settings_list(toks.drop_last()) {
            Err(e) => Err(e),
            Ok(r) => match setting_token(toks.last()) {
                None => Err(toks.last()),
                Some(st) => Ok(r.push(st)),
            },
        }
    }
}

pub open spec fn settings_section(section: Seq<char>) -> Result<Seq<H2Setting>, ParseErrorView> {
    if section.len() == 0 {
        Ok(Seq::empty())
    } else {
        match settings_list(split(section, ';')) {
            Ok(r) => Ok(r),
            Err(t) => Err(ParseErrorView::Settings(t)),
        }
    }
}

/// One `stream:exclusive:dependent:weight` frame.
pub open spec fn priority_frame(frame: Seq<char>) -> Option<H2Priority> {
    let parts = split(frame, ':');
    if parts.len() != 4 {
        None
    } else {
        match (
            parse_unsigned(parts[0], u32_max()),
            parse_unsigned(parts[1], u8_max()),
            parse_unsigned(parts[2], u32_max()),
            parse_unsigned(parts[3], u16_max()),
        ) {
            (Some(s), Some(e), Some(d), Some(w)) => Some(
                H2Priority { stream_id: s as u32, exclusive: e as u8, dependent: d as u32, weight: w as u16 },
            ),
            _ => None,
        }
    }
}

pub open spec fn priorities_list(frames: Seq<Seq<char>>) -> Result<Seq<H2Priority>, Seq<char>>
    decreases frames.len(),
{
    if frames.len() == 0 {
        Ok(Seq::empty())
    } else {
        match priorities_list(frames.drop_last()) {
            Err(e) => Err(e),
            Ok(r) => match priority_frame(frames.last()) {
                None => Err(frames.last()),
                Some(p) => Ok(r.push(p)),
            },
        }
    }
}

pub open spec fn priorities_section(section: Seq<char>) -> Result<Seq<H2Priority>, ParseErrorView> {
    if section == seq!['0'] || section.len() == 0 {
        Ok(Seq::empty())
    } else {
        match priorities_list(split(section, ',')) {
            Ok(r) => Ok(r),
            Err(t) => Err(ParseErrorView::Priority(t)),
        }
    }
}

/// One pseudo-header token: exactly one known code letter.
pub open spec fn pseudo_token(tok: Seq<char>) -> Option<PseudoHeader> {
    if tok.len() == 1 {
        pseudo_of(tok[0])
    } else {
        None
    }
}

pub open spec fn pseudo_list(toks: Seq<Seq<char>>) -> Result<Seq<PseudoHeader>, Seq<char>>
    decreases toks.len(),
{
    if toks.len() == 0 {
        Ok(Seq::empty())
    } else {
        match pseudo_list(toks.drop_last()) {
            Err(e) => Err(e),
            Ok(r) => match pseudo_token(toks.last()) {
                None => Err(toks.last()),
                Some(p) => Ok(r.push(p)),
            },
        }
    }
}

pub open spec fn pseudo_section(section: Seq<char>) -> Result<Seq<PseudoHeader>, ParseErrorView> {
    if section.len() == 0 {
        Err(ParseErrorView::PseudoHeader(section))
    } else {
        match pseudo_list(split(section, ',')) {
            Ok(r) => Ok(r),
            Err(t) => Err(ParseErrorView::PseudoHeader(t)),
        }
    }
}

/// What [`AkamaiH2Fingerprint::parse`] returns for `raw`: the first failing
/// section (in order) decides the error.
pub open spec fn akamai_parse(raw: Seq<char>) -> Result<AkamaiView, ParseErrorView> {
    let sections = split(raw, '|');
    if sections.len() != 4 {
        Err(ParseErrorView::SectionCount(sections.len()))
    } else {
        match settings_section(sections[0]) {
            Err(e) => Err(e),
            Ok(settings) => match parse_unsigned(sections[1], u32_max()) {
                None => Err(ParseErrorView::WindowUpdate(sections[1])),
                Some(w) => match priorities_section(sections[2]) {
                    Err(e) => Err(e),
                    Ok(priorities) => match pseudo_section(sections[3]) {
                        Err(e) => Err(e),
                        Ok(pseudo) => Ok(
                            AkamaiView { settings, window_update: w as u32, priorities, pseudo },
                        ),
                    },
                },
            },
        }
    }
}

pub open spec fn parse_result_view(r: Result<AkamaiH2Fingerprint, AkamaiH2ParseError>) -> Result<
    AkamaiView,
    ParseErrorView,
> {
    match r {
        Ok(f) => Ok(f@),
        Err(e) => Err(e@),
    }
}

// ───────────────────────── rendering (specification) ─────────────────────────

pub open spec fn setting_text(s: H2Setting) -> Seq<char> {
    dec(s.id as nat) + seq![':'] + dec(s.value as nat)
}

pub open spec fn priority_text(p: H2Priority) -> Seq<char> {
    join(
        seq![dec(p.stream_id as nat), dec(p.exclusive as nat), dec(p.dependent as nat), dec(p.weight as nat)],
        seq![':'],
    )
}

pub open spec fn settings_text(s: Seq<H2Setting>) -> Seq<char> {
    join(s.map_values(|x: H2Setting| setting_text(x)), seq![';'])
}

pub open spec fn priorities_text(p: Seq<H2Priority>) -> Seq<char> {
    if p.len() == 0 {
        seq!['0']
    } else {
        join(p.map_values(|x: H2Priority| priority_text(x)), seq![','])
    }
}

pub open spec fn pseudo_text(p: Seq<PseudoHeader>) -> Seq<char> {
    join(p.map_values(|x: PseudoHeader| seq![code_of(x)]), seq![','])
}

/// The canonical Akamai string of a fingerprint.
pub open spec fn canonical(f: AkamaiView) -> Seq<char> {
    join(
        seq![settings_text(f.settings), dec(f.window_update as nat), priorities_text(f.priorities), pseudo_text(f.pseudo)],
        seq!['|'],
    )
}

// ───────────────────────── diff (specification) ─────────────────────────

/// The value a SETTINGS id maps to once every entry has been applied in order
/// (a later entry for the same id replaces an earlier one).
pub open spec fn last_value(s: Seq<H2Setting>, id: u16) -> Option<u32>
    decreases s.len(),
{
    if s.len() == 0 {
        None
    } else if s.last().id == id {
        Some(s.last().value)
    } else {
        last_value(s.drop_last(), id)
    }
}

/// The value of the first entry for `id`.
pub open spec fn first_value(s: Seq<H2Setting>, id: u16) -> Option<u32>
    decreases s.len(),
{
    if s.len() == 0 {
        None
    } else if s[0].id == id {
        Some(s[0].value)
    } else {
        first_value(s.drop_first(), id)
    }
}

pub open spec fn setting_ids(s: Seq<H2Setting>) -> Seq<u16> {
    s.map_values(|x: H2Setting| x.id)
}

/// One `Setting` divergence per id below `n`, in ascending id order, for the
/// ids whose values differ.
pub open spec fn setting_divs_upto(a: Seq<H2Setting>, b: Seq<H2Setting>, n: nat) -> Seq<DivergenceView>
    decreases n,
{
    if n == 0 {
        Seq::empty()
    } else {
        let id = (n - 1) as u16;
        let prev = setting_divs_upto(a, b, (n - 1) as nat);
        if last_value(a, id) != last_value(b, id) {
            prev.push(DivergenceView::Setting { id, observed: last_value(a, id), target: last_value(b, id) })
        } else {
            prev
        }
    }
}

pub open spec fn setting_divs(a: Seq<H2Setting>, b: Seq<H2Setting>) -> Seq<DivergenceView> {
    setting_divs_upto(a, b, 0x10000)
}

pub open spec fn same_values(a: Seq<H2Setting>, b: Seq<H2Setting>) -> bool {
    forall|id: u16| last_value(a, id) == last_value(b, id)
}

/// Every divergence of `o` (observed) from `t` (target), in the reported order.
pub open spec fn diff_spec(o: AkamaiView, t: AkamaiView) -> Seq<DivergenceView> {
    setting_divs(o.settings, t.settings) + (if same_values(o.settings, t.settings) && setting_ids(
        o.settings,
    ) != setting_ids(t.settings) {
        seq![
            DivergenceView::SettingsOrder {
                observed: setting_ids(o.settings),
                target: setting_ids(t.settings),
            },
        ]
    } else {
        Seq::empty()
    }) + (if o.window_update != t.window_update {
        seq![DivergenceView::WindowUpdate { observed: o.window_update, target: t.window_update }]
    } else {
        Seq::empty()
    }) + (if o.priorities != t.priorities {
        seq![DivergenceView::Priority { observed: o.priorities, target: t.priorities }]
    } else {
        Seq::empty()
    }) + (if o.pseudo != t.pseudo {
        seq![DivergenceView::PseudoHeaderOrder { observed: o.pseudo, target: t.pseudo }]
    } else {
        Seq::empty()
    })
}

pub open spec fn div_views(v: Seq<AkamaiH2Divergence>) -> Seq<DivergenceView> {
    v.map_values(|d: AkamaiH2Divergence| d@)
}

// ───────────────────────── parsing (code) ─────────────────────────

fn chars_string(v: &Vec<char>) -> (s: String)
    ensures
        s@ == v@,
{
    string_from_chars(v.as_slice())
}

fn parse_setting_token(tok: &Vec<char>) -> (r: Option<H2Setting>)
    ensures
        r == setting_token(tok@),
{
    match find_char_exec(tok, ':') {
        None => None,
        Some(k) => {
            let n = tok.len();
            let id_part = slice_chars(tok, 0, k);
            let value_part = slice_chars(tok, k + 1, n);
            assert(id_part@ =~= tok@.take(k as int));
            assert(value_part@ =~= tok@.skip(k + 1));
            match (parse_uint(&id_part, 0xffff), parse_uint(&value_part, 0xffff_ffff)) {
                (Some(id), Some(v)) => Some(H2Setting { id: id as u16, value: v as u32 }),
                _ => None,
            }
        },
    }
}

fn parse_settings(section: &Vec<char>) -> (r: Result<Vec<H2Setting>, AkamaiH2ParseError>)
    ensures
        match r {
            Ok(v) => settings_section(section@) == Ok::<Seq<H2Setting>, ParseErrorView>(v@),
            Err(e) => settings_section(section@) == Err::<Seq<H2Setting>, ParseErrorView>(e@),
        },
{
    let mut out: Vec<H2Setting> = Vec::new();
    if section.len() == 0 {
        return Ok(out);
    }
    let toks = split_chars(section, ';');
    let ghost ts = views(toks@);
    let mut i: usize = 0;
    while i < toks.len()
        invariant
            i <= toks@.len(),
            ts == views(toks@),
            ts == split(section@, ';'),
            section@.len() > 0,
            settings_list(ts.take(i as int)) == Ok::<Seq<H2Setting>, Seq<char>>(out@),
        decreases toks@.len() - i,
    {
        assert(ts.take(i as int + 1).drop_last() =~= ts.take(i as int));
        assert(ts.take(i as int + 1).last() == toks@[i as int]@);
        match parse_setting_token(&toks[i]) {
            None => {
                let t = chars_string(&toks[i]);
                proof {
                    assert(settings_list(ts.take(i as int + 1)) == Err::<Seq<H2Setting>, Seq<char>>(t@));
                    lemma_settings_list_err_prefix(ts, i as int + 1);
                }
                return Err(AkamaiH2ParseError::Settings(t));
            },
            Some(st) => {
                out.push(st);
            },
        }
        i = i + 1;
    }
    assert(ts.take(ts.len() as int) =~= ts);
    Ok(out)
}

proof fn lemma_settings_list_err_prefix(ts: Seq<Seq<char>>, k: int)
    requires
        0 <= k <= ts.len(),
        settings_list(ts.take(k)) is Err,
    ensures
        settings_list(ts) == settings_list(ts.take(k)),
    decreases ts.len() - k,
{
    if k < ts.len() {
        assert(ts.take(k + 1).drop_last() =~= ts.take(k));
        lemma_settings_list_err_prefix(ts, k + 1);
    } else {
        assert(ts.take(k) =~= ts);
    }
}

proof fn lemma_priorities_list_err_prefix(ts: Seq<Seq<char>>, k: int)
    requires
        0 <= k <= ts.len(),
        priorities_list(ts.take(k)) is Err,
    ensures
        priorities_list(ts) == priorities_list(ts.take(k)),
    decreases ts.len() - k,
{
    if k < ts.len() {
        assert(ts.take(k + 1).drop_last() =~= ts.take(k));
        lemma_priorities_list_err_prefix(ts, k + 1);
    } else {
        assert(ts.take(k) =~= ts);
    }
}

proof fn lemma_pseudo_list_err_prefix(ts: Seq<Seq<char>>, k: int)
    requires
        0 <= k <= ts.len(),
        pseudo_list(ts.take(k)) is Err,
    ensures
        pseudo_list(ts) == pseudo_list(ts.take(k)),
    decreases ts.len() - k,
{
    if k < ts.len() {
        assert(ts.take(k + 1).drop_last() =~= ts.take(k));
        lemma_pseudo_list_err_prefix(ts, k + 1);
    } else {
        assert(ts.take(k) =~= ts);
    }
}

fn parse_priority_frame(frame: &Vec<char>) -> (r: Option<H2Priority>)
    ensures
        r == priority_frame(frame@),
{
    let parts = split_chars(frame, ':');
    if parts.len() != 4 {
        return None;
    }
    assert(parts@[0]@ == split(frame@, ':')[0]);
    assert(parts@[1]@ == split(frame@, ':')[1]);
    assert(parts@[2]@ == split(frame@, ':')[2]);
    assert(parts@[3]@ == split(frame@, ':')[3]);
    match (
        parse_uint(&parts[0], 0xffff_ffff),
        parse_uint(&parts[1], 0xff),
        parse_uint(&parts[2], 0xffff_ffff),
        parse_uint(&parts[3], 0xffff),
    ) {
        (Some(s), Some(e), Some(d), Some(w)) => Some(
            H2Priority { stream_id: s as u32, exclusive: e as u8, dependent: d as u32, weight: w as u16 },
        ),
        _ => None,
    }
}

fn parse_priorities(section: &Vec<char>) -> (r: Result<Vec<H2Priority>, AkamaiH2ParseError>)
    ensures
        match r {
            Ok(v) => priorities_section(section@) == Ok::<Seq<H2Priority>, ParseErrorView>(v@),
            Err(e) => priorities_section(section@) == Err::<Seq<H2Priority>, ParseErrorView>(e@),
        },
{
    let mut out: Vec<H2Priority> = Vec::new();
    if section.len() == 0 || (section.len() == 1 && section[0] == '0') {
        proof {
            if section@.len() == 1 {
                assert(section@ =~= seq!['0']);
            }
        }
        return Ok(out);
    }
    assert(section@ != seq!['0']);
    let frames = split_chars(section, ',');
    let ghost ts = views(frames@);
    let mut i: usize = 0;
    while i < frames.len()
        invariant
            i <= frames@.len(),
            ts == views(frames@),
            ts == split(section@, ','),
            section@.len() > 0,
            section@ != seq!['0'],
            priorities_list(ts.take(i as int)) == Ok::<Seq<H2Priority>, Seq<char>>(out@),
        decreases frames@.len() - i,
    {
        assert(ts.take(i as int + 1).drop_last() =~= ts.take(i as int));
        assert(ts.take(i as int + 1).last() == frames@[i as int]@);
        match parse_priority_frame(&frames[i]) {
            None => {
                let t = chars_string(&frames[i]);
                proof {
                    assert(priorities_list(ts.take(i as int + 1)) == Err::<Seq<H2Priority>, Seq<char>>(t@));
                    lemma_priorities_list_err_prefix(ts, i as int + 1);
                }
                return Err(AkamaiH2ParseError::Priority(t));
            },
            Some(p) => {
                out.push(p);
            },
        }
        i = i + 1;
    }
    assert(ts.take(ts.len() as int) =~= ts);
    Ok(out)
}

fn parse_pseudo_headers(section: &Vec<char>) -> (r: Result<Vec<PseudoHeader>, AkamaiH2ParseError>)
    ensures
        match r {
            Ok(v) => pseudo_section(section@) == Ok::<Seq<PseudoHeader>, ParseErrorView>(v@),
            Err(e) => pseudo_section(section@) == Err::<Seq<PseudoHeader>, ParseErrorView>(e@),
        },
{
    let mut out: Vec<PseudoHeader> = Vec::new();
    if section.len() == 0 {
        return Err(AkamaiH2ParseError::PseudoHeader(chars_string(section)));
    }
    let toks = split_chars(section, ',');
    let ghost ts = views(toks@);
    let mut i: usize = 0;
    while i < toks.len()
        invariant
            i <= toks@.len(),
            ts == views(toks@),
            ts == split(section@, ','),
            section@.len() > 0,
            pseudo_list(ts.take(i as int)) == Ok::<Seq<PseudoHeader>, Seq<char>>(out@),
        decreases toks@.len() - i,
    {
        assert(ts.take(i as int + 1).drop_last() =~= ts.take(i as int));
        assert(ts.take(i as int + 1).last() == toks@[i as int]@);
        let tok = &toks[i];
        let decoded = if tok.len() == 1 {
            PseudoHeader::from_code(tok[0])
        } else {
            None
        };
        match decoded {
            None => {
                let t = chars_string(tok);
                proof {
                    assert(pseudo_list(ts.take(i as int + 1)) == Err::<Seq<PseudoHeader>, Seq<char>>(t@));
                    lemma_pseudo_list_err_prefix(ts, i as int + 1);
                }
                return Err(AkamaiH2ParseError::PseudoHeader(t));
            },
            Some(p) => {
                out.push(p);
            },
        }
        i = i + 1;
    }
    assert(ts.take(ts.len() as int) =~= ts);
    Ok(out)
}

fn copy_priorities(v: &Vec<H2Priority>) -> (r: Vec<H2Priority>)
    ensures
        r@ == v@,
{
    let mut r: Vec<H2Priority> = Vec::new();
    let mut i: usize = 0;
    while i < v.len()
        invariant
            i <= v@.len(),
            r@ == v@.take(i as int),
        decreases v@.len() - i,
    {
        r.push(v[i]);
        i = i + 1;
        assert(r@ =~= v@.take(i as int));
    }
    assert(v@.take(v@.len() as int) =~= v@);
    r
}

fn copy_pseudo(v: &Vec<PseudoHeader>) -> (r: Vec<PseudoHeader>)
    ensures
        r@ == v@,
{
    let mut r: Vec<PseudoHeader> = Vec::new();
    let mut i: usize = 0;
    while i < v.len()
        invariant
            i <= v@.len(),
            r@ == v@.take(i as int),
        decreases v@.len() - i,
    {
        r.push(v[i]);
        i = i + 1;
        assert(r@ =~= v@.take(i as int));
    }
    assert(v@.take(v@.len() as int) =~= v@);
    r
}

fn ids_of(v: &Vec<H2Setting>) -> (r: Vec<u16>)
    ensures
        r@ == setting_ids(v@),
{
    let mut r: Vec<u16> = Vec::new();
    let mut i: usize = 0;
    while i < v.len()
        invariant
            i <= v@.len(),
            r@ == setting_ids(v@.take(i as int)),
        decreases v@.len() - i,
    {
        r.push(v[i].id);
        i = i + 1;
        assert(r@ =~= setting_ids(v@.take(i as int)));
    }
    assert(v@.take(v@.len() as int) =~= v@);
    r
}

fn last_value_exec(v: &Vec<H2Setting>, id: u16) -> (r: Option<u32>)
    ensures
        r == last_value(v@, id),
{
    let mut i: usize = v.len();
    assert(v@.take(v@.len() as int) =~= v@);
    while i > 0
        invariant
            i <= v@.len(),
            last_value(v@, id) == last_value(v@.take(i as int), id),
        decreases i,
    {
        assert(v@.take(i as int).drop_last() =~= v@.take(i - 1));
        if v[i - 1].id == id {
            return Some(v[i - 1].value);
        }
        i = i - 1;
    }
    None
}

fn u16_eq_seq(a: &Vec<u16>, b: &Vec<u16>) -> (r: bool)
    ensures
        r == (a@ == b@),
{
    if a.len() != b.len() {
        return false;
    }
    let mut i: usize = 0;
    while i < a.len()
        invariant
            a@.len() == b@.len(),
            i <= a@.len(),
            forall|j: int| 0 <= j < i ==> a@[j] == b@[j],
        decreases a@.len() - i,
    {
        if a[i] != b[i] {
            return false;
        }
        i = i + 1;
    }
    assert(a@ =~= b@);
    true
}

fn priorities_eq(a: &Vec<H2Priority>, b: &Vec<H2Priority>) -> (r: bool)
    ensures
        r == (a@ == b@),
{
    if a.len() != b.len() {
        return false;
    }
    let mut i: usize = 0;
    while i < a.len()
        invariant
            a@.len() == b@.len(),
            i <= a@.len(),
            forall|j: int| 0 <= j < i ==> a@[j] == b@[j],
        decreases a@.len() - i,
    {
        if a[i] != b[i] {
            return false;
        }
        i = i + 1;
    }
    assert(a@ =~= b@);
    true
}

fn pseudo_eq(a: &Vec<PseudoHeader>, b: &Vec<PseudoHeader>) -> (r: bool)
    ensures
        r == (a@ == b@),
{
    if a.len() != b.len() {
        return false;
    }
    let mut i: usize = 0;
    while i < a.len()
        invariant
            a@.len() == b@.len(),
            i <= a@.len(),
            forall|j: int| 0 <= j < i ==> a@[j] == b@[j],
        decreases a@.len() - i,
    {
        if a[i] != b[i] {
            return false;
        }
        i = i + 1;
    }
    assert(a@ =~= b@);
    true
}

proof fn lemma_setting_divs_empty(a: Seq<H2Setting>, b: Seq<H2Setting>, n: nat)
    requires
        n <= 0x10000,
    ensures
        setting_divs_upto(a, b, n).len() == 0 <==> forall|id: u16|
            id < n ==> last_value(a, id) == last_value(b, id),
    decreases n,
{
    if n > 0 {
        lemma_setting_divs_empty(a, b, (n - 1) as nat);
        let id = (n - 1) as u16;
        if last_value(a, id) != last_value(b, id) {
            assert(setting_divs_upto(a, b, n).len() > 0);
        } else if setting_divs_upto(a, b, n).len() == 0 {
            assert forall|j: u16| j < n implies last_value(a, j) == last_value(b, j) by {
                if j < n - 1 {
                } else {
                    assert(j == id);
                }
            }
        }
    }
}

impl AkamaiH2Fingerprint {
    /// Parse a published Akamai H2 fingerprint string. Fails closed on any
    /// malformed section.
    pub fn parse(raw: &str) -> (res: Result<AkamaiH2Fingerprint, AkamaiH2ParseError>)
        ensures
            parse_result_view(res) == akamai_parse(raw@),
    {
        let chars = chars_of(raw);
        let sections = split_chars(&chars, '|');
        if sections.len() != 4 {
            return Err(AkamaiH2ParseError::SectionCount(sections.len()));
        }
        assert(sections@[0]@ == split(raw@, '|')[0]);
        assert(sections@[1]@ == split(raw@, '|')[1]);
        assert(sections@[2]@ == split(raw@, '|')[2]);
        assert(sections@[3]@ == split(raw@, '|')[3]);
        let settings = match parse_settings(&sections[0]) {
            Ok(s) => s,
            Err(e) => return Err(e),
        };
        let window_update = match parse_uint(&sections[1], 0xffff_ffff) {
            Some(w) => w as u32,
            None => return Err(AkamaiH2ParseError::WindowUpdate(chars_string(&sections[1]))),
        };
        let priorities = match parse_priorities(&sections[2]) {
            Ok(p) => p,
            Err(e) => return Err(e),
        };
        let pseudo_header_order = match parse_pseudo_headers(&sections[3]) {
            Ok(p) => p,
            Err(e) => return Err(e),
        };
        Ok(AkamaiH2Fingerprint { settings, window_update, priorities, pseudo_header_order })
    }

    /// Re-serialise to the canonical Akamai string.
    pub fn to_canonical(&self) -> (s: String)
        ensures
            s@ == canonical(self@),
    {
        let mut settings_parts: Vec<Vec<char>> = Vec::new();
        let mut i: usize = 0;
        while i < self.settings.len()
            invariant
                i <= self.settings@.len(),
                settings_parts@.len() == i,
                forall|q: int| 0 <= q < i ==> #[trigger] settings_parts@[q]@ == setting_text(self.settings@[q]),
            decreases self.settings@.len() - i,
        {
            let st = self.settings[i];
            let mut part: Vec<char> = Vec::new();
            push_dec(&mut part, st.id as u64);
            part.push(':');
            push_dec(&mut part, st.value as u64);
            assert(part@ =~= setting_text(st));
            settings_parts.push(part);
            i = i + 1;
        }
        assert(views(settings_parts@) =~= self.settings@.map_values(|x: H2Setting| setting_text(x)));
        let mut prio_parts: Vec<Vec<char>> = Vec::new();
        let mut j: usize = 0;
        while j < self.priorities.len()
            invariant
                j <= self.priorities@.len(),
                prio_parts@.len() == j,
                forall|q: int| 0 <= q < j ==> #[trigger] prio_parts@[q]@ == priority_text(self.priorities@[q]),
            decreases self.priorities@.len() - j,
        {
            let p = self.priorities[j];
            let mut nums: Vec<Vec<char>> = Vec::new();
            let mut a: Vec<char> = Vec::new();
            push_dec(&mut a, p.stream_id as u64);
            let mut b: Vec<char> = Vec::new();
            push_dec(&mut b, p.exclusive as u64);
            let mut c: Vec<char> = Vec::new();
            push_dec(&mut c, p.dependent as u64);
            let mut d: Vec<char> = Vec::new();
            push_dec(&mut d, p.weight as u64);
            nums.push(a);
            nums.push(b);
            nums.push(c);
            nums.push(d);
            let mut part: Vec<char> = Vec::new();
            push_joined(&mut part, &nums, ':');
            assert(views(nums@) =~= seq![
                dec(p.stream_id as nat),
                dec(p.exclusive as nat),
                dec(p.dependent as nat),
                dec(p.weight as nat),
            ]);
            assert(part@ =~= priority_text(p));
            prio_parts.push(part);
            j = j + 1;
        }
        assert(views(prio_parts@) =~= self.priorities@.map_values(|x: H2Priority| priority_text(x)));
        let mut pseudo_parts: Vec<Vec<char>> = Vec::new();
        let mut k: usize = 0;
        while k < self.pseudo_header_order.len()
            invariant
                k <= self.pseudo_header_order@.len(),
                pseudo_parts@.len() == k,
                forall|q: int| 0 <= q < k ==> #[trigger] pseudo_parts@[q]@ == seq![code_of(self.pseudo_header_order@[q])],
            decreases self.pseudo_header_order@.len() - k,
        {
            let mut part: Vec<char> = Vec::new();
            part.push(self.pseudo_header_order[k].code());
            pseudo_parts.push(part);
            k = k + 1;
            assert(pseudo_parts@[k - 1]@ =~= seq![code_of(self.pseudo_header_order@[k - 1])]);
        }
        assert(views(pseudo_parts@) =~= self.pseudo_header_order@.map_values(
            |x: PseudoHeader| seq![code_of(x)],
        ));
        let mut sec_settings: Vec<char> = Vec::new();
        push_joined(&mut sec_settings, &settings_parts, ';');
        let mut sec_window: Vec<char> = Vec::new();
        push_dec(&mut sec_window, self.window_update as u64);
        let mut sec_prio: Vec<char> = Vec::new();
        if self.priorities.len() == 0 {
            sec_prio.push('0');
        } else {
            push_joined(&mut sec_prio, &prio_parts, ',');
        }
        let mut sec_pseudo: Vec<char> = Vec::new();
        push_joined(&mut sec_pseudo, &pseudo_parts, ',');
        let mut sections: Vec<Vec<char>> = Vec::new();
        sections.push(sec_settings);
        sections.push(sec_window);
        sections.push(sec_prio);
        sections.push(sec_pseudo);
        let mut out: Vec<char> = Vec::new();
        push_joined(&mut out, &sections, '|');
        assert(sec_prio@ =~= priorities_text(self.priorities@));
        assert(views(sections@) =~= seq![
            settings_text(self.settings@),
            dec(self.window_update as nat),
            priorities_text(self.priorities@),
            pseudo_text(self.pseudo_header_order@),
        ]);
        assert(out@ =~= canonical(self@));
        string_from_chars(out.as_slice())
    }

    /// The value advertised for a SETTINGS id (its first entry), if sent.
    pub fn setting(&self, id: u16) -> (r: Option<u32>)
        ensures
            r == first_value(self.settings@, id),
    {
        let mut i: usize = 0;
        assert(self.settings@.skip(0) =~= self.settings@);
        while i < self.settings.len()
            invariant
                i <= self.settings@.len(),
                first_value(self.settings@, id) == first_value(self.settings@.skip(i as int), id),
            decreases self.settings@.len() - i,
        {
            assert(self.settings@.skip(i as int).drop_first() =~= self.settings@.skip(i + 1));
            if self.settings[i].id == id {
                return Some(self.settings[i].value);
            }
            i = i + 1;
        }
        None
    }

    /// `SETTINGS_HEADER_TABLE_SIZE`, if sent.
    pub fn header_table_size(&self) -> (r: Option<u32>)
        ensures
            r == first_value(self.settings@, HEADER_TABLE_SIZE),
    {
        self.setting(HEADER_TABLE_SIZE)
    }

    /// `SETTINGS_ENABLE_PUSH`, if sent.
    pub fn enable_push(&self) -> (r: Option<u32>)
        ensures
            r == first_value(self.settings@, ENABLE_PUSH),
    {
        self.setting(ENABLE_PUSH)
    }

    /// `SETTINGS_MAX_CONCURRENT_STREAMS`, if sent.
    pub fn max_concurrent_streams(&self) -> (r: Option<u32>)
        ensures
            r == first_value(self.settings@, MAX_CONCURRENT_STREAMS),
    {
        self.setting(MAX_CONCURRENT_STREAMS)
    }

    /// `SETTINGS_INITIAL_WINDOW_SIZE`, if sent.
    pub fn initial_window_size(&self) -> (r: Option<u32>)
        ensures
            r == first_value(self.settings@, INITIAL_WINDOW_SIZE),
    {
        self.setting(INITIAL_WINDOW_SIZE)
    }

    /// `SETTINGS_MAX_FRAME_SIZE`, if sent.
    pub fn max_frame_size(&self) -> (r: Option<u32>)
        ensures
            r == first_value(self.settings@, MAX_FRAME_SIZE),
    {
        self.setting(MAX_FRAME_SIZE)
    }

    /// `SETTINGS_MAX_HEADER_LIST_SIZE`, if sent.
    pub fn max_header_list_size(&self) -> (r: Option<u32>)
        ensures
            r == first_value(self.settings@, MAX_HEADER_LIST_SIZE),
    {
        self.setting(MAX_HEADER_LIST_SIZE)
    }

    /// True when both shapes are identical in every field, order and repeated
    /// SETTINGS entries included (the same as equal canonical strings).
    pub fn matches(&self, other: &AkamaiH2Fingerprint) -> (r: bool)
        ensures
            r == (self@ == other@),
    {
        if self.window_update != other.window_update {
            return false;
        }
        if self.settings.len() != other.settings.len() || self.priorities.len() != other.priorities.len()
            || self.pseudo_header_order.len() != other.pseudo_header_order.len() {
            return false;
        }
        let mut i: usize = 0;
        while i < self.settings.len()
            invariant
                i <= self.settings.len() == other.settings.len(),
                self.settings@.take(i as int) =~= other.settings@.take(i as int),
            decreases self.settings.len() - i,
        {
            if self.settings[i] != other.settings[i] {
                return false;
            }
            assert(self.settings@.take(i + 1) =~= self.settings@.take(i as int).push(self.settings@[i as int]));
            assert(other.settings@.take(i + 1) =~= other.settings@.take(i as int).push(other.settings@[i as int]));
            i = i + 1;
        }
        assert(self.settings@ =~= self.settings@.take(i as int));
        assert(other.settings@ =~= other.settings@.take(i as int));
        let mut j: usize = 0;
        while j < self.priorities.len()
            invariant
                j <= self.priorities.len() == other.priorities.len(),
                self.priorities@.take(j as int) =~= other.priorities@.take(j as int),
            decreases self.priorities.len() - j,
        {
            if self.priorities[j] != other.priorities[j] {
                return false;
            }
            assert(self.priorities@.take(j + 1) =~= self.priorities@.take(j as int).push(self.priorities@[j as int]));
            assert(other.priorities@.take(j + 1) =~= other.priorities@.take(j as int).push(other.priorities@[j as int]));
            j = j + 1;
        }
        assert(self.priorities@ =~= self.priorities@.take(j as int));
        assert(other.priorities@ =~= other.priorities@.take(j as int));
        let mut k: usize = 0;
        while k < self.pseudo_header_order.len()
            invariant
                k <= self.pseudo_header_order.len() == other.pseudo_header_order.len(),
                self.pseudo_header_order@.take(k as int) =~= other.pseudo_header_order@.take(k as int),
            decreases self.pseudo_header_order.len() - k,
        {
            if self.pseudo_header_order[k] != other.pseudo_header_order[k] {
                return false;
            }
            assert(self.pseudo_header_order@.take(k + 1) =~= self.pseudo_header_order@.take(k as int).push(
                self.pseudo_header_order@[k as int],
            ));
            assert(other.pseudo_header_order@.take(k + 1) =~= other.pseudo_header_order@.take(k as int).push(
                other.pseudo_header_order@[k as int],
            ));
            k = k + 1;
        }
        assert(self.pseudo_header_order@ =~= self.pseudo_header_order@.take(k as int));
        assert(other.pseudo_header_order@ =~= other.pseudo_header_order@.take(k as int));
        true
    }

    /// Every field in which `self` (observed) differs from `target`: SETTINGS
    /// values by ascending id (the value an id ends up with after all entries),
    /// then a SETTINGS order difference when the values agree, then
    /// WINDOW_UPDATE, PRIORITY and pseudo-header order.
    pub fn diff(&self, target: &AkamaiH2Fingerprint) -> (out: Vec<AkamaiH2Divergence>)
        ensures
            div_views(out@) == diff_spec(self@, target@),
    {
        let mut out: Vec<AkamaiH2Divergence> = Vec::new();
        let mut id: u32 = 0;
        while id < 0x10000
            invariant
                id <= 0x10000,
                div_views(out@) == setting_divs_upto(self.settings@, target.settings@, id as nat),
            decreases 0x10000 - id,
        {
            let o = last_value_exec(&self.settings, id as u16);
            let t = last_value_exec(&target.settings, id as u16);
            let ghost before = div_views(out@);
            if o != t {
                out.push(AkamaiH2Divergence::Setting { id: id as u16, observed: o, target: t });
                assert(div_views(out@) =~= before.push(
                    DivergenceView::Setting { id: id as u16, observed: o, target: t },
                ));
            }
            id = id + 1;
        }
        let values_agree = out.len() == 0;
        proof {
            lemma_setting_divs_empty(self.settings@, target.settings@, 0x10000);
            assert(values_agree == same_values(self.settings@, target.settings@));
        }
        let ghost after_settings = div_views(out@);
        let ghost order_part: Seq<DivergenceView> = Seq::empty();
        if values_agree {
            let self_order = ids_of(&self.settings);
            let target_order = ids_of(&target.settings);
            if !u16_eq_seq(&self_order, &target_order) {
                out.push(AkamaiH2Divergence::SettingsOrder { observed: self_order, target: target_order });
                proof {
                    order_part = seq![
                        DivergenceView::SettingsOrder {
                            observed: setting_ids(self.settings@),
                            target: setting_ids(target.settings@),
                        },
                    ];
                }
            }
        }
        assert(div_views(out@) =~= after_settings + order_part);
        let ghost after_order = div_views(out@);
        let ghost window_part: Seq<DivergenceView> = Seq::empty();
        if self.window_update != target.window_update {
            out.push(
                AkamaiH2Divergence::WindowUpdate {
                    observed: self.window_update,
                    target: target.window_update,
                },
            );
            proof {
                window_part = seq![
                    DivergenceView::WindowUpdate { observed: self.window_update, target: target.window_update },
                ];
            }
        }
        assert(div_views(out@) =~= after_order + window_part);
        let ghost after_window = div_views(out@);
        let ghost prio_part: Seq<DivergenceView> = Seq::empty();
        if !priorities_eq(&self.priorities, &target.priorities) {
            out.push(
                AkamaiH2Divergence::Priority {
                    observed: copy_priorities(&self.priorities),
                    target: copy_priorities(&target.priorities),
                },
            );
            proof {
                prio_part = seq![
                    DivergenceView::Priority { observed: self.priorities@, target: target.priorities@ },
                ];
            }
        }
        assert(div_views(out@) =~= after_window + prio_part);
        let ghost after_prio = div_views(out@);
        let ghost pseudo_part: Seq<DivergenceView> = Seq::empty();
        if !pseudo_eq(&self.pseudo_header_order, &target.pseudo_header_order) {
            out.push(
                AkamaiH2Divergence::PseudoHeaderOrder {
                    observed: copy_pseudo(&self.pseudo_header_order),
                    target: copy_pseudo(&target.pseudo_header_order),
                },
            );
            proof {
                pseudo_part = seq![
                    DivergenceView::PseudoHeaderOrder {
                        observed: self.pseudo_header_order@,
                        target: target.pseudo_header_order@,
                    },
                ];
            }
        }
        assert(div_views(out@) =~= after_prio + pseudo_part);
        assert(div_views(out@) =~= diff_spec(self@, target@));
        out
    }
}

// ───────────────────────── laws ─────────────────────────

proof fn lemma_setting_text_no(x: H2Setting, c: char)
    requires
        !is_digit(c),
        c != ':',
    ensures
        no_char(setting_text(x), c),
{
    lemma_dec_no_char(x.id as nat, c);
    lemma_dec_no_char(x.value as nat, c);
    lemma_no_char_concat(dec(x.id as nat), seq![':'], c);
    lemma_no_char_concat(dec(x.id as nat) + seq![':'], dec(x.value as nat), c);
}

proof fn lemma_priority_text_no(x: H2Priority, c: char)
    requires
        !is_digit(c),
        c != ':',
    ensures
        no_char(priority_text(x), c),
{
    let parts = seq![dec(x.stream_id as nat), dec(x.exclusive as nat), dec(x.dependent as nat), dec(x.weight as nat)];
    lemma_dec_no_char(x.stream_id as nat, c);
    lemma_dec_no_char(x.exclusive as nat, c);
    lemma_dec_no_char(x.dependent as nat, c);
    lemma_dec_no_char(x.weight as nat, c);
    assert forall|i: int| 0 <= i < parts.len() implies no_char(#[trigger] parts[i], c) by {}
    lemma_no_char_join(parts, seq![':'], c);
}

proof fn lemma_setting_token_text(x: H2Setting)
    ensures
        setting_token(setting_text(x)) == Some(x),
{
    let a = dec(x.id as nat);
    let b = seq![':'] + dec(x.value as nat);
    lemma_dec_no_char(x.id as nat, ':');
    assert(setting_text(x) =~= a + b);
    lemma_find_char_concat(a, b, ':');
    let k = a.len() as int;
    assert((a + b).take(k) =~= a);
    assert((a + b).skip(k + 1) =~= dec(x.value as nat));
    lemma_parse_dec(x.id as nat, u16_max());
    lemma_parse_dec(x.value as nat, u32_max());
}

proof fn lemma_priority_frame_text(x: H2Priority)
    ensures
        priority_frame(priority_text(x)) == Some(x),
{
    let parts = seq![dec(x.stream_id as nat), dec(x.exclusive as nat), dec(x.dependent as nat), dec(x.weight as nat)];
    lemma_dec_no_char(x.stream_id as nat, ':');
    lemma_dec_no_char(x.exclusive as nat, ':');
    lemma_dec_no_char(x.dependent as nat, ':');
    lemma_dec_no_char(x.weight as nat, ':');
    assert forall|i: int| 0 <= i < parts.len() implies no_char(#[trigger] parts[i], ':') by {}
    lemma_split_join(parts, ':');
    lemma_parse_dec(x.stream_id as nat, u32_max());
    lemma_parse_dec(x.exclusive as nat, u8_max());
    lemma_parse_dec(x.dependent as nat, u32_max());
    lemma_parse_dec(x.weight as nat, u16_max());
}

proof fn lemma_settings_list_texts(xs: Seq<H2Setting>)
    ensures
        settings_list(xs.map_values(|x: H2Setting| setting_text(x))) == Ok::<Seq<H2Setting>, Seq<char>>(xs),
    decreases xs.len(),
{
    let m = xs.map_values(|x: H2Setting| setting_text(x));
    if xs.len() > 0 {
        lemma_settings_list_texts(xs.drop_last());
        assert(m.drop_last() =~= xs.drop_last().map_values(|x: H2Setting| setting_text(x)));
        lemma_setting_token_text(xs.last());
        assert(xs.drop_last().push(xs.last()) =~= xs);
    } else {
        assert(m.len() == 0);
        assert(xs =~= Seq::<H2Setting>::empty());
    }
}

proof fn lemma_priorities_list_texts(xs: Seq<H2Priority>)
    ensures
        priorities_list(xs.map_values(|x: H2Priority| priority_text(x))) == Ok::<Seq<H2Priority>, Seq<char>>(xs),
    decreases xs.len(),
{
    let m = xs.map_values(|x: H2Priority| priority_text(x));
    if xs.len() > 0 {
        lemma_priorities_list_texts(xs.drop_last());
        assert(m.drop_last() =~= xs.drop_last().map_values(|x: H2Priority| priority_text(x)));
        lemma_priority_frame_text(xs.last());
        assert(xs.drop_last().push(xs.last()) =~= xs);
    } else {
        assert(m.len() == 0);
        assert(xs =~= Seq::<H2Priority>::empty());
    }
}

proof fn lemma_pseudo_list_texts(xs: Seq<PseudoHeader>)
    ensures
        pseudo_list(xs.map_values(|x: PseudoHeader| seq![code_of(x)])) == Ok::<Seq<PseudoHeader>, Seq<char>>(xs),
    decreases xs.len(),
{
    let m = xs.map_values(|x: PseudoHeader| seq![code_of(x)]);
    if xs.len() > 0 {
        lemma_pseudo_list_texts(xs.drop_last());
        assert(m.drop_last() =~= xs.drop_last().map_values(|x: PseudoHeader| seq![code_of(x)]));
        assert(m.last() == seq![code_of(xs.last())]);
        assert(pseudo_token(m.last()) == Some(xs.last()));
        assert(xs.drop_last().push(xs.last()) =~= xs);
    } else {
        assert(m.len() == 0);
        assert(xs =~= Seq::<PseudoHeader>::empty());
    }
}

proof fn lemma_settings_section_text(xs: Seq<H2Setting>)
    ensures
        settings_section(settings_text(xs)) == Ok::<Seq<H2Setting>, ParseErrorView>(xs),
        no_char(settings_text(xs), '|'),
{
    let m = xs.map_values(|x: H2Setting| setting_text(x));
    assert forall|i: int| 0 <= i < m.len() implies no_char(#[trigger] m[i], '|') by {
        lemma_setting_text_no(xs[i], '|');
    }
    lemma_no_char_join(m, seq![';'], '|');
    if xs.len() == 0 {
        assert(m.len() == 0);
        assert(xs =~= Seq::<H2Setting>::empty());
    } else {
        assert forall|i: int| 0 <= i < m.len() implies no_char(#[trigger] m[i], ';') by {
            lemma_setting_text_no(xs[i], ';');
        }
        lemma_split_join(m, ';');
        lemma_settings_list_texts(xs);
        if settings_text(xs).len() == 0 {
            assert(split(settings_text(xs), ';') =~= seq![Seq::<char>::empty()]);
            lemma_dec_no_char(xs[0].id as nat, ':');
            crate::text::lemma_dec_len_pos(xs[0].id as nat);
            assert(m[0].len() > 0);
        }
    }
}

proof fn lemma_priorities_section_text(xs: Seq<H2Priority>)
    ensures
        priorities_section(priorities_text(xs)) == Ok::<Seq<H2Priority>, ParseErrorView>(xs),
        no_char(priorities_text(xs), '|'),
{
    let m = xs.map_values(|x: H2Priority| priority_text(x));
    if xs.len() == 0 {
        assert(xs =~= Seq::<H2Priority>::empty());
        assert(no_char(seq!['0'], '|'));
    } else {
        assert forall|i: int| 0 <= i < m.len() implies no_char(#[trigger] m[i], '|') by {
            lemma_priority_text_no(xs[i], '|');
        }
        lemma_no_char_join(m, seq![','], '|');
        assert forall|i: int| 0 <= i < m.len() implies no_char(#[trigger] m[i], ',') by {
            lemma_priority_text_no(xs[i], ',');
        }
        let p = priorities_text(xs);
        lemma_split_join(m, ',');
        lemma_priorities_list_texts(xs);
        lemma_priority_frame_text(xs[0]);
        if p == seq!['0'] || p.len() == 0 {
            crate::text::lemma_split_plain(p, ',');
            assert(m[0] == p);
            crate::text::lemma_split_plain(p, ':');
            assert(priority_frame(p) is None);
        }
    }
}

proof fn lemma_pseudo_section_text(xs: Seq<PseudoHeader>)
    requires
        xs.len() > 0,
    ensures
        pseudo_section(pseudo_text(xs)) == Ok::<Seq<PseudoHeader>, ParseErrorView>(xs),
        no_char(pseudo_text(xs), '|'),
{
    let m = xs.map_values(|x: PseudoHeader| seq![code_of(x)]);
    assert forall|i: int| 0 <= i < m.len() implies no_char(#[trigger] m[i], '|') by {
        assert(m[i] == seq![code_of(xs[i])]);
    }
    lemma_no_char_join(m, seq![','], '|');
    assert forall|i: int| 0 <= i < m.len() implies no_char(#[trigger] m[i], ',') by {
        assert(m[i] == seq![code_of(xs[i])]);
    }
    lemma_split_join(m, ',');
    lemma_pseudo_list_texts(xs);
    if pseudo_text(xs).len() == 0 {
        assert(split(pseudo_text(xs), ',') =~= seq![Seq::<char>::empty()]);
        assert(m[0] == seq![code_of(xs[0])]);
    }
}

/// Parsing the canonical rendering of a fingerprint gives the fingerprint back,
/// for every fingerprint with at least one pseudo-header (an empty
/// pseudo-header section is refused by the parser).
pub proof fn lemma_parse_canonical_roundtrip(f: AkamaiView)
    requires
        f.pseudo.len() > 0,
    ensures
        akamai_parse(canonical(f)) == Ok::<AkamaiView, ParseErrorView>(f),
{
    let parts = seq![settings_text(f.settings), dec(f.window_update as nat), priorities_text(f.priorities), pseudo_text(f.pseudo)];
    lemma_settings_section_text(f.settings);
    lemma_priorities_section_text(f.priorities);
    lemma_pseudo_section_text(f.pseudo);
    lemma_dec_no_char(f.window_update as nat, '|');
    assert forall|i: int| 0 <= i < parts.len() implies no_char(#[trigger] parts[i], '|') by {}
    lemma_split_join(parts, '|');
    lemma_parse_dec(f.window_update as nat, u32_max());
}

/// A string that is the canonical rendering of some fingerprint parses, and
/// re-rendering the parse reproduces the string byte for byte.
pub proof fn lemma_canonical_string_roundtrip(s: Seq<char>, f: AkamaiView)
    requires
        f.pseudo.len() > 0,
        s == canonical(f),
    ensures
        akamai_parse(s) matches Ok(g) && canonical(g) == s,
{
    lemma_parse_canonical_roundtrip(f);
}

/// Every fingerprint matches itself: its diff against itself is empty.
pub proof fn lemma_diff_reflexive(f: AkamaiView)
    ensures
        diff_spec(f, f).len() == 0,
{
    lemma_setting_divs_empty(f.settings, f.settings, 0x10000);
    assert(setting_divs(f.settings, f.settings).len() == 0);
}

pub open spec fn distinct_ids(s: Seq<H2Setting>) -> bool {
    forall|i: int, j: int| 0 <= i < j < s.len() ==> s[i].id != s[j].id
}

proof fn lemma_last_value_distinct(s: Seq<H2Setting>, i: int)
    requires
        distinct_ids(s),
        0 <= i < s.len(),
    ensures
        last_value(s, s[i].id) == Some(s[i].value),
    decreases s.len(),
{
    if i < s.len() - 1 {
        assert(s.last().id != s[i].id);
        assert(distinct_ids(s.drop_last()));
        lemma_last_value_distinct(s.drop_last(), i);
    }
}

/// For shapes whose SETTINGS ids are each sent once, an empty diff (a match)
/// holds exactly when the two shapes are identical field for field, order
/// included.
pub proof fn lemma_diff_empty_iff_equal(a: AkamaiView, b: AkamaiView)
    requires
        distinct_ids(a.settings),
        distinct_ids(b.settings),
    ensures
        diff_spec(a, b).len() == 0 <==> a == b,
{
    lemma_setting_divs_empty(a.settings, b.settings, 0x10000);
    if diff_spec(a, b).len() == 0 {
        assert(setting_divs(a.settings, b.settings).len() == 0);
        assert(same_values(a.settings, b.settings));
        assert(setting_ids(a.settings) == setting_ids(b.settings));
        assert(a.settings.len() == b.settings.len()) by {
            assert(setting_ids(a.settings).len() == setting_ids(b.settings).len());
        }
        assert forall|i: int| 0 <= i < a.settings.len() implies a.settings[i] == b.settings[i] by {
            assert(setting_ids(a.settings)[i] == setting_ids(b.settings)[i]);
            lemma_last_value_distinct(a.settings, i);
            lemma_last_value_distinct(b.settings, i);
            assert(last_value(a.settings, a.settings[i].id) == last_value(b.settings, a.settings[i].id));
        }
        assert(a.settings =~= b.settings);
    } else if a == b {
        lemma_diff_reflexive(a);
    }
}



proof fn lemma_first_value_distinct(s: Seq<H2Setting>, i: int)
    requires
        distinct_ids(s),
        0 <= i < s.len(),
    ensures
        first_value(s, s[i].id) == Some(s[i].value),
    decreases s.len(),
{
    if i > 0 {
        assert(s[0].id != s[i].id);
        assert(distinct_ids(s.drop_first()));
        assert(s.drop_first()[i - 1] == s[i]);
        lemma_first_value_distinct(s.drop_first(), i - 1);
    }
}

proof fn lemma_value_absent(s: Seq<H2Setting>, id: u16)
    requires
        forall|i: int| 0 <= i < s.len() ==> (#[trigger] s[i]).id != id,
    ensures
        last_value(s, id) is None,
        first_value(s, id) is None,
    decreases s.len(),
{
    if s.len() > 0 {
        assert(s.last() == s[s.len() - 1]);
        assert(s[0].id != id);
        assert forall|i: int| 0 <= i < s.drop_last().len() implies (#[trigger] s.drop_last()[i]).id != id by {
            assert(s.drop_last()[i] == s[i]);
        }
        assert forall|i: int| 0 <= i < s.drop_first().len() implies (#[trigger] s.drop_first()[i]).id
            != id by {
            assert(s.drop_first()[i] == s[i + 1]);
        }
        lemma_value_absent(s.drop_last(), id);
        lemma_value_absent(s.drop_first(), id);
    }
}

/// With each id sent once, the value an id ends up with is the value it was
/// first sent with.
proof fn lemma_last_is_first(s: Seq<H2Setting>, id: u16)
    requires
        distinct_ids(s),
    ensures
        last_value(s, id) == first_value(s, id),
{
    if exists|i: int| 0 <= i < s.len() && (#[trigger] s[i]).id == id {
        let i = choose|i: int| 0 <= i < s.len() && (#[trigger] s[i]).id == id;
        lemma_last_value_distinct(s, i);
        lemma_first_value_distinct(s, i);
    } else {
        lemma_value_absent(s, id);
    }
}

/// One `Setting` divergence per id below `n`, ascending, for the ids whose
/// first-sent values (what [`AkamaiH2Fingerprint::setting`] reports)
/// differ.
pub open spec fn first_divs_upto(a: Seq<H2Setting>, b: Seq<H2Setting>, n: nat) -> Seq<DivergenceView>
    decreases n,
{
    if n == 0 {
        Seq::empty()
    } else {
        let id = (n - 1) as u16;
        let prev = first_divs_upto(a, b, (n - 1) as nat);
        if first_value(a, id) != first_value(b, id) {
            prev.push(DivergenceView::Setting { id, observed: first_value(a, id), target: first_value(b, id) })
        } else {
            prev
        }
    }
}

proof fn lemma_first_divs(a: Seq<H2Setting>, b: Seq<H2Setting>, n: nat)
    requires
        distinct_ids(a),
        distinct_ids(b),
        n <= 0x10000,
    ensures
        first_divs_upto(a, b, n) == setting_divs_upto(a, b, n),
    decreases n,
{
    if n > 0 {
        lemma_first_divs(a, b, (n - 1) as nat);
        lemma_last_is_first(a, (n - 1) as u16);
        lemma_last_is_first(b, (n - 1) as u16);
    }
}

/// For shapes whose SETTINGS ids are each sent once, the diff is: one
/// `Setting` divergence per id (ascending) whose values differ, then a
/// `SettingsOrder` divergence exactly when no value differs but the id
/// sequences do, then one `WindowUpdate`, `Priority` and `PseudoHeaderOrder`
/// divergence for each of those fields that differs; and it is empty exactly
/// when the two shapes are equal.
pub proof fn lemma_diff_with_distinct_ids(a: AkamaiView, b: AkamaiView)
    requires
        distinct_ids(a.settings),
        distinct_ids(b.settings),
    ensures
        diff_spec(a, b) == first_divs_upto(a.settings, b.settings, 0x10000) + (if first_divs_upto(
            a.settings,
            b.settings,
            0x10000,
        ).len() == 0 && setting_ids(a.settings) != setting_ids(b.settings) {
            seq![
                DivergenceView::SettingsOrder {
                    observed: setting_ids(a.settings),
                    target: setting_ids(b.settings),
                },
            ]
        } else {
            Seq::empty()
        }) + (if a.window_update != b.window_update {
            seq![DivergenceView::WindowUpdate { observed: a.window_update, target: b.window_update }]
        } else {
            Seq::empty()
        }) + (if a.priorities != b.priorities {
            seq![DivergenceView::Priority { observed: a.priorities, target: b.priorities }]
        } else {
            Seq::empty()
        }) + (if a.pseudo != b.pseudo {
            seq![DivergenceView::PseudoHeaderOrder { observed: a.pseudo, target: b.pseudo }]
        } else {
            Seq::empty()
        }),
        diff_spec(a, b).len() == 0 <==> a == b,
{
    lemma_first_divs(a.settings, b.settings, 0x10000);
    lemma_setting_divs_empty(a.settings, b.settings, 0x10000);
    assert(same_values(a.settings, b.settings) <==> setting_divs(a.settings, b.settings).len() == 0);
    lemma_diff_empty_iff_equal(a, b);
}

} // verus!
