//! Versioned TLS and HTTP/2 fingerprint targets for browser-shaped
//! transports, and the shape checks every target must pass.
//!
//! Each entry carries the JA3, JA4, Akamai-H2 and peetprint strings of one
//! published browser / version / OS target.
use vstd::prelude::*;
use vstd::string::StringSliceAdditionalSpecFns;
use vstd::utf8::{
    decode_utf8, encode_utf8, encode_utf8_decode_utf8, encode_utf8_valid_utf8, is_ascii_chars,
    is_ascii_chars_encode_utf8, is_char_boundary, is_char_boundary_iff_not_is_continuation_byte,
};
use crate::akamai_h2::{akamai_parse, parse_error_message, AkamaiH2Fingerprint};
use crate::hash::{md5_hex, md5_string};
use crate::text::{
    all_digits, byte_range_chars, char_boundary, chars_of, debug_str, dec, digit_val, digits_value, is_digit,
    lemma_encode_utf8_len, parse_uint, parse_unsigned, push_all, push_dec, push_str, split,
    split_chars, starts_with, starts_with_str, str_debug, string_from_chars, dec_char, dec_pad, join,
    lemma_dec_len_pos, lemma_dec_no_char, lemma_encode_utf8_concat, lemma_split_join, no_char,
};
use crate::ja3::{
    dash_u16, dec_list_u16, effective_version_of, ja4_alpn, ja4_head_of, ja4_version_code,
    lemma_ja3_five_sections, min99, non_grease, ClientHelloFields,
};

verus! {

/// One vendor-shaped TLS and HTTP/2 fingerprint target.
#[derive(Debug, Clone, Copy, PartialEq, Eq)]
pub struct FingerprintTarget {
    /// Stable lowercase label for the target profile.
    pub label: &'static str,
    /// JA3 fingerprint string.
    pub ja3: &'static str,
    /// JA4 fingerprint string.
    pub ja4: &'static str,
    /// Akamai HTTP/2 fingerprint string in
    /// `settings|window_update|priority|headers` form.
    pub akamai_h2: &'static str,
    /// Peet HTTP/2 fingerprint hash.
    pub peet_h2: &'static str,
}

/// The text of a target's five fields.
pub struct TargetView {
    pub label: Seq<char>,
    pub ja3: Seq<char>,
    pub ja4: Seq<char>,
    pub akamai_h2: Seq<char>,
    pub peet_h2: Seq<char>,
}

impl View for FingerprintTarget {
    type V = TargetView;

    open spec fn view(&self) -> TargetView {
        TargetView {
            label: self.label@,
            ja3: self.ja3@,
            ja4: self.ja4@,
            akamai_h2: self.akamai_h2@,
            peet_h2: self.peet_h2@,
        }
    }
}

pub open spec fn target_views(v: Seq<FingerprintTarget>) -> Seq<TargetView> {
    v.map_values(|t: FingerprintTarget| t@)
}

/// The bundled targets, in declaration order.
pub open spec fn builtin_targets() -> Seq<TargetView> {
    seq![
        TargetView {
            label: "firefox-150-linux"@,
            ja3: "771,4865-4867-4866-49195-49199-52393-52392-49196-49200-49162-49161-49171-49172-156-157-47-53,0-23-65281-10-11-16-5-34-18-51-43-13-45-28-27-65037-41,4588-29-23-24-25-256-257,0"@,
            ja4: "t13d1717h2_5b57614c22b0_e6dcd7ae0a9e"@,
            akamai_h2: "1:65536;2:0;4:131072;5:16384|12517377|0|m,p,a,s"@,
            peet_h2: "6ea73faa8fc5aac76bded7bd238f6433"@,
        },
        TargetView {
            label: "firefox-151-linux"@,
            ja3: "771,4865-4867-4866-49195-49199-52393-52392-49196-49200-49162-49171-49172-156-157-47-53,0-23-65281-10-11-16-5-34-18-51-43-13-45-28-27-65037-41,4588-29-23-24-25-256-257,0"@,
            ja4: "t13d1617h2_86a278354501_e6dcd7ae0a9e"@,
            akamai_h2: "1:65536;2:0;4:131072;5:16384|12517377|0|m,p,a,s"@,
            peet_h2: "6ea73faa8fc5aac76bded7bd238f6433"@,
        },
        TargetView {
            label: "chrome-146-linux"@,
            ja3: "771,4865-4866-4867-49195-49199-49196-49200-52393-52392-49171-49172-156-157-47-53,0-5-45-18-27-10-35-16-43-65281-65037-11-23-51-13-17613-41,4588-29-23-24,0"@,
            ja4: "t13d1517h2_8daaf6152771_b6f405a00624"@,
            akamai_h2: "1:65536;2:0;4:6291456;6:262144|15663105|0|m,a,s,p"@,
            peet_h2: "52d84b11737d980aef856699f885ca86"@,
        },
    ]
}

/// The bundled browser TLS and HTTP/2 fingerprint targets, in declaration
/// order: measured Firefox 150 and 151 and Chrome 146 on Linux.
pub fn fingerprint_targets() -> (r: Vec<FingerprintTarget>)
    ensures
        target_views(r@) == builtin_targets(),
{
    let r = vec![
        FingerprintTarget {
            label: "firefox-150-linux",
            ja3: "771,4865-4867-4866-49195-49199-52393-52392-49196-49200-49162-49161-49171-49172-156-157-47-53,0-23-65281-10-11-16-5-34-18-51-43-13-45-28-27-65037-41,4588-29-23-24-25-256-257,0",
            ja4: "t13d1717h2_5b57614c22b0_e6dcd7ae0a9e",
            akamai_h2: "1:65536;2:0;4:131072;5:16384|12517377|0|m,p,a,s",
            peet_h2: "6ea73faa8fc5aac76bded7bd238f6433",
        },
        FingerprintTarget {
            label: "firefox-151-linux",
            ja3: "771,4865-4867-4866-49195-49199-52393-52392-49196-49200-49162-49171-49172-156-157-47-53,0-23-65281-10-11-16-5-34-18-51-43-13-45-28-27-65037-41,4588-29-23-24-25-256-257,0",
            ja4: "t13d1617h2_86a278354501_e6dcd7ae0a9e",
            akamai_h2: "1:65536;2:0;4:131072;5:16384|12517377|0|m,p,a,s",
            peet_h2: "6ea73faa8fc5aac76bded7bd238f6433",
        },
        FingerprintTarget {
            label: "chrome-146-linux",
            ja3: "771,4865-4866-4867-49195-49199-49196-49200-52393-52392-49171-49172-156-157-47-53,0-5-45-18-27-10-35-16-43-65281-65037-11-23-51-13-17613-41,4588-29-23-24,0",
            ja4: "t13d1517h2_8daaf6152771_b6f405a00624",
            akamai_h2: "1:65536;2:0;4:6291456;6:262144|15663105|0|m,a,s,p",
            peet_h2: "52d84b11737d980aef856699f885ca86",
        },
    ];
    assert(target_views(r@) =~= builtin_targets());
    r
}

/// The index of the first target labelled `label`.
pub open spec fn find_label(ts: Seq<TargetView>, label: Seq<char>) -> Option<int>
    decreases ts.len(),
{
    if ts.len() == 0 {
        None
    } else if ts[0].label == label {
        Some(0)
    } else {
        match find_label(ts.drop_first(), label) {
            Some(i) => Some(i + 1),
            None => None,
        }
    }
}

pub proof fn lemma_find_label(ts: Seq<TargetView>, label: Seq<char>)
    ensures
        find_label(ts, label) matches Some(i) ==> 0 <= i < ts.len() && ts[i].label == label && (
        forall|j: int| 0 <= j < i ==> ts[j].label != label),
        find_label(ts, label) is None ==> forall|j: int| 0 <= j < ts.len() ==> ts[j].label != label,
    decreases ts.len(),
{
    if ts.len() > 0 {
        lemma_find_label(ts.drop_first(), label);
        assert forall|j: int| 1 <= j < ts.len() implies ts[j] == ts.drop_first()[j - 1] by {}
    }
}

/// The bundled labels are distinct, so the label of every bundled target
/// looks up that very target.
pub proof fn lemma_every_label_resolves(i: int)
    requires
        0 <= i < builtin_targets().len(),
    ensures
        find_label(builtin_targets(), builtin_targets()[i].label) == Some(i),
{
    reveal_strlit("firefox-150-linux");
    reveal_strlit("firefox-151-linux");
    reveal_strlit("chrome-146-linux");
    let t = builtin_targets();
    assert(t[0].label[10] != t[1].label[10]);
    assert(t[0].label.len() != t[2].label.len());
    assert(t[1].label.len() != t[2].label.len());
    assert(t.drop_first()[0] == t[1]);
    assert(t.drop_first().drop_first()[0] == t[2]);
    assert(t.drop_first().drop_first().drop_first().len() == 0);
    reveal_with_fuel(find_label, 4);
    if i == 0 {
    } else if i == 1 {
        assert(find_label(t.drop_first(), t[1].label) == Some(0int));
    } else {
        assert(find_label(t.drop_first().drop_first(), t[2].label) == Some(0int));
        assert(find_label(t.drop_first(), t[2].label) == Some(1int));
    }
}

/// The bundled target whose label is exactly `label` (case-sensitive), or
/// `None` when no bundled target has that label.
pub fn lookup(label: &str) -> (r: Option<FingerprintTarget>)
    ensures
        match find_label(builtin_targets(), label@) {
            Some(i) => r matches Some(t) && t@ == builtin_targets()[i],
            None => r is None,
        },
{
    let all = fingerprint_targets();
    let mut i: usize = 0;
    proof {
        lemma_find_label(builtin_targets(), label@);
    }
    while i < all.len()
        invariant
            i <= all@.len(),
            target_views(all@) == builtin_targets(),
            all@.len() == builtin_targets().len(),
            forall|j: int| 0 <= j < i ==> builtin_targets()[j].label != label@,
        decreases all@.len() - i,
    {
        let t = all[i];
        assert(builtin_targets()[i as int] == t@);
        if crate::text::str_eq(t.label, label) {
            proof {
                lemma_find_label(builtin_targets(), label@);
                if let Some(k) = find_label(builtin_targets(), label@) {
                    assert(k == i);
                }
            }
            return Some(t);
        }
        i = i + 1;
    }
    proof {
        lemma_find_label(builtin_targets(), label@);
    }
    None
}

/// Every bundled target label, in declaration order.
pub fn all_labels() -> (r: Vec<&'static str>)
    ensures
        r@.len() == builtin_targets().len(),
        forall|i: int| 0 <= i < r@.len() ==> #[trigger] r@[i]@ == builtin_targets()[i].label,
{
    let all = fingerprint_targets();
    let mut r: Vec<&'static str> = Vec::new();
    let mut i: usize = 0;
    while i < all.len()
        invariant
            i <= all@.len(),
            target_views(all@) == builtin_targets(),
            r@.len() == i,
            forall|j: int| 0 <= j < i ==> #[trigger] r@[j]@ == builtin_targets()[j].label,
        decreases all@.len() - i,
    {
        assert(builtin_targets()[i as int] == all@[i as int]@);
        r.push(all[i].label);
        i = i + 1;
    }
    r
}

/// The bundled catalogue followed by `extra`.
pub fn builtin_with(extra: &[FingerprintTarget]) -> (r: Vec<FingerprintTarget>)
    ensures
        target_views(r@) == builtin_targets() + target_views(extra@),
{
    let mut r = fingerprint_targets();
    let ghost base = r@;
    let mut i: usize = 0;
    while i < extra.len()
        invariant
            i <= extra@.len(),
            r@ == base + extra@.take(i as int),
            target_views(base) == builtin_targets(),
        decreases extra@.len() - i,
    {
        r.push(extra[i]);
        i = i + 1;
        assert(r@ =~= base + extra@.take(i as int));
    }
    assert(extra@.take(extra@.len() as int) =~= extra@);
    assert(target_views(r@) =~= builtin_targets() + target_views(extra@));
    r
}

// ───────────────────────── shape validation ─────────────────────────

/// The longest prefix of `s` whose UTF-8 encoding fits in `limit` bytes:
/// the quoted head of a malformed field, cut before any character that
/// would cross the limit.
pub open spec fn prefix_within(s: Seq<char>, limit: nat) -> Seq<char>
    decreases s.len(),
{
    if s.len() == 0 {
        s
    } else {
        let w = vstd::utf8::encode_scalar(s[0] as u32).len();
        if w <= limit {
            seq![s[0]] + prefix_within(s.drop_first(), (limit - w) as nat)
        } else {
            Seq::empty()
        }
    }
}

/// The first shape violation of a target's fields, or `None` when they are
/// all well-formed: non-empty label; JA3 starting `771,`; JA4 starting
/// `t13`; an Akamai-H2 string that parses; a non-empty peetprint equal to
/// the MD5 of the Akamai-H2 string.
pub open spec fn target_fields_error(
    label: Seq<char>,
    ja3: Seq<char>,
    ja4: Seq<char>,
    akamai_h2: Seq<char>,
    peet_h2: Seq<char>,
) -> Option<Seq<char>> {
    if label.len() == 0 {
        Some("empty label"@)
    } else if !starts_with(ja3, "771,"@) {
        Some("JA3 must start with `771,` (got `"@ + prefix_within(ja3, 12) + "…`)"@)
    } else if !starts_with(ja4, "t13"@) {
        Some("JA4 must start with `t13` (got `"@ + prefix_within(ja4, 8) + "…`)"@)
    } else if akamai_parse(akamai_h2) is Err {
        Some("Akamai-H2 invalid: "@ + parse_error_message(akamai_parse(akamai_h2)->Err_0))
    } else if peet_h2.len() == 0 {
        Some("empty peetprint"@)
    } else if md5_hex(encode_utf8(akamai_h2)) != peet_h2 {
        Some("peet_h2 must be md5(akamai_h2); for "@ + str_debug(akamai_h2) + " that is "@
            + md5_hex(encode_utf8(akamai_h2)) + ", not "@ + peet_h2)
    } else {
        None
    }
}

/// The UTF-8 width of a character.
fn char_width(c: char) -> (w: usize)
    ensures
        w == vstd::utf8::encode_scalar(c as u32).len(),
{
    proof {
        vstd::utf8::char_is_scalar(c);
    }
    let u = c as u32;
    if u <= 0x7f {
        1
    } else if u <= 0x7ff {
        2
    } else if u <= 0xffff {
        3
    } else {
        4
    }
}

/// The characters of [`prefix_within`]`(s, limit)`.
fn quoted_prefix(s: &str, limit: usize) -> (r: Vec<char>)
    ensures
        r@ == prefix_within(s@, limit as nat),
{
    let v = chars_of(s);
    let mut r: Vec<char> = Vec::new();
    let mut budget: usize = limit;
    let mut i: usize = 0;
    assert(v@.skip(0) =~= v@);
    while i < v.len()
        invariant
            v@ == s@,
            i <= v@.len(),
            budget <= limit,
            r@ + prefix_within(v@.skip(i as int), budget as nat) == prefix_within(v@, limit as nat),
        decreases v@.len() - i,
    {
        let w = char_width(v[i]);
        let ghost rest = v@.skip(i as int);
        assert(rest[0] == v@[i as int]);
        assert(rest.drop_first() =~= v@.skip(i + 1));
        if w > budget {
            assert(prefix_within(rest, budget as nat) == Seq::<char>::empty());
            assert(r@ + prefix_within(rest, budget as nat) =~= r@);
            return r;
        }
        assert(prefix_within(rest, budget as nat) == seq![v@[i as int]] + prefix_within(
            v@.skip(i + 1),
            (budget - w) as nat,
        ));
        let ghost before = r@;
        r.push(v[i]);
        assert(r@ =~= before + seq![v@[i as int]]);
        assert(r@ + prefix_within(v@.skip(i + 1), (budget - w) as nat) =~= before + (seq![v@[i as int]]
            + prefix_within(v@.skip(i + 1), (budget - w) as nat)));
        budget = budget - w;
        i = i + 1;
    }
    assert(v@.skip(i as int) =~= Seq::<char>::empty());
    assert(r@ + prefix_within(v@.skip(i as int), budget as nat) =~= r@);
    r
}

/// Validate the shape of one target's fingerprint fields; `Err` carries the
/// reason for the first violation (see [`target_fields_error`]).
pub fn validate_target_fields(label: &str, ja3: &str, ja4: &str, akamai_h2: &str, peet_h2: &str) -> (r:
    Result<(), String>)
    ensures
        match target_fields_error(label@, ja3@, ja4@, akamai_h2@, peet_h2@) {
            None => r is Ok,
            Some(m) => r matches Err(e) && e@ == m,
        },
{
    let mut out: Vec<char> = Vec::new();
    if label.is_empty() {
        push_str(&mut out, "empty label");
        return Err(string_from_chars(out.as_slice()));
    }
    if !starts_with_str(ja3, "771,") {
        push_str(&mut out, "JA3 must start with `771,` (got `");
        let p = quoted_prefix(ja3, 12);
        push_all(&mut out, &p);
        push_str(&mut out, "…`)");
        return Err(string_from_chars(out.as_slice()));
    }
    if !starts_with_str(ja4, "t13") {
        push_str(&mut out, "JA4 must start with `t13` (got `");
        let p = quoted_prefix(ja4, 8);
        push_all(&mut out, &p);
        push_str(&mut out, "…`)");
        return Err(string_from_chars(out.as_slice()));
    }
    match AkamaiH2Fingerprint::parse(akamai_h2) {
        Ok(_) => {},
        Err(e) => {
            push_str(&mut out, "Akamai-H2 invalid: ");
            let m = e.message();
            push_str(&mut out, m.as_str());
            return Err(string_from_chars(out.as_slice()));
        },
    }
    if peet_h2.is_empty() {
        push_str(&mut out, "empty peetprint");
        return Err(string_from_chars(out.as_slice()));
    }
    let expected = md5_string(akamai_h2);
    if !crate::text::str_eq(peet_h2, expected.as_str()) {
        push_str(&mut out, "peet_h2 must be md5(akamai_h2); for ");
        let d = debug_str(akamai_h2);
        push_str(&mut out, d.as_str());
        push_str(&mut out, " that is ");
        push_str(&mut out, expected.as_str());
        push_str(&mut out, ", not ");
        push_str(&mut out, peet_h2);
        return Err(string_from_chars(out.as_slice()));
    }
    Ok(())
}

// ───────────────────────── JA3 / JA4 count consistency ─────────────────────────

/// The number of `-`-separated entries of a JA3 list field (0 when empty).
pub open spec fn list_count(field: Seq<char>) -> nat {
    if field.len() == 0 {
        0
    } else {
        split(field, '-').len()
    }
}

/// The characters of bytes `from..to` of `s`.
pub open spec fn byte_slice(s: &str, from: int, to: int) -> Seq<char> {
    decode_utf8(s.spec_bytes().subrange(from, to))
}

/// `str::parse::<usize>` of the JA4 count digits.
pub open spec fn count_digits(s: Seq<char>) -> Option<nat> {
    parse_unsigned(s, usize::MAX as nat)
}

/// The first disagreement between the counts a JA4 encodes and the lists of
/// a JA3, or `None` when they agree.
pub open spec fn counts_error(ja3: &str, ja4: &str) -> Option<Seq<char>> {
    let fields = split(ja3@, ',');
    if fields.len() != 5 {
        Some("JA3 must have 5 comma-separated fields, got "@ + dec(fields.len()))
    } else if ja4.spec_bytes().len() < 8 {
        Some("JA4 too short to carry counts: "@ + ja4@)
    } else {
        let c3 = list_count(fields[1]);
        let e3 = list_count(fields[2]);
        match count_field(ja4, 4) {
            None => Some("JA4 cipher-count digits not numeric: "@ + ja4@),
            Some(c4) => match count_field(ja4, 6) {
                None => Some("JA4 extension-count digits not numeric: "@ + ja4@),
                Some(e4) => if c4 != c3 {
                    Some("JA4 cipher count "@ + dec(c4) + " != JA3 cipher-list length "@ + dec(c3)
                        + " ("@ + ja4@ + " vs "@ + ja3@ + ")"@)
                } else if e4 != e3 {
                    Some("JA4 extension count "@ + dec(e4) + " != JA3 extension-list length "@ + dec(
                        e3,
                    ) + " ("@ + ja4@ + " vs "@ + ja3@ + ")"@)
                } else {
                    None
                },
            },
        }
    }
}

/// The count a JA4 encodes in bytes `from..from + 2`: `str::parse::<usize>`
/// of those bytes, `None` when they are not numeric (which they cannot be
/// when either end falls inside a character).
pub open spec fn count_field(ja4: &str, from: int) -> Option<nat> {
    if is_char_boundary(ja4.spec_bytes(), from) && is_char_boundary(ja4.spec_bytes(), from + 2) {
        count_digits(byte_slice(ja4, from, from + 2))
    } else {
        None
    }
}

proof fn lemma_short_digits(d: Seq<char>)
    requires
        d.len() <= 2,
        all_digits(d),
    ensures
        digits_value(d) <= 99,
{
    reveal_with_fuel(digits_value, 3);
    if d.len() > 0 {
        assert(is_digit(d.last()));
        assert(digit_val(d.last()) <= 9);
        if d.len() > 1 {
            assert(is_digit(d[0]));
            assert(d.drop_last().last() == d[0]);
            assert(d.drop_last().drop_last().len() == 0);
            assert(digits_value(d.drop_last()) <= 9);
        } else {
            assert(d.drop_last().len() == 0);
        }
    }
}

/// Parse two characters as a count: `str::parse::<usize>`, whose bound two
/// characters can never reach.
fn parse_count(v: &Vec<char>) -> (r: Option<u64>)
    requires
        v@.len() <= 2,
    ensures
        match count_digits(v@) {
            Some(n) => r == Some(n as u64),
            None => r is None,
        },
{
    let r = parse_uint(v, 0xffff_ffff);
    proof {
        let s = v@;
        let d = if s.len() > 0 && s[0] == '+' {
            s.drop_first()
        } else {
            s
        };
        if d.len() > 0 && all_digits(d) {
            lemma_short_digits(d);
        }
    }
    r
}

fn count_list(field: &Vec<char>) -> (n: usize)
    ensures
        n == list_count(field@),
{
    if field.len() == 0 {
        0
    } else {
        let parts = split_chars(field, '-');
        assert(crate::text::views(parts@).len() == parts@.len());
        parts.len()
    }
}

/// Check that the cipher and extension counts a JA4 encodes (bytes `4..6`
/// and `6..8`) equal the lengths of the cipher and extension lists of the
/// paired JA3; `Err` carries the first disagreement (see [`counts_error`]).
pub fn ja4_counts_match_ja3(ja3: &str, ja4: &str) -> (r: Result<(), String>)
    ensures
        match counts_error(ja3, ja4) {
            None => r is Ok,
            Some(m) => r matches Err(e) && e@ == m,
        },
{
    let mut out: Vec<char> = Vec::new();
    let j3 = chars_of(ja3);
    let fields = split_chars(&j3, ',');
    assert(crate::text::views(fields@) == split(ja3@, ','));
    assert(crate::text::views(fields@).len() == fields@.len());
    if fields.len() != 5 {
        push_str(&mut out, "JA3 must have 5 comma-separated fields, got ");
        push_dec(&mut out, fields.len() as u64);
        return Err(string_from_chars(out.as_slice()));
    }
    assert(fields@[1]@ == split(ja3@, ',')[1]);
    assert(fields@[2]@ == split(ja3@, ',')[2]);
    let c3 = count_list(&fields[1]);
    let e3 = count_list(&fields[2]);
    if ja4.as_bytes().len() < 8 {
        push_str(&mut out, "JA4 too short to carry counts: ");
        push_str(&mut out, ja4);
        return Err(string_from_chars(out.as_slice()));
    }
    let c4_opt = if char_boundary(ja4, 4) && char_boundary(ja4, 6) {
        let cs = byte_range_chars(ja4, 4, 6);
        proof {
            lemma_encode_utf8_len(cs@);
        }
        parse_count(&cs)
    } else {
        None
    };
    let c4 = match c4_opt {
        Some(n) => n,
        None => {
            push_str(&mut out, "JA4 cipher-count digits not numeric: ");
            push_str(&mut out, ja4);
            return Err(string_from_chars(out.as_slice()));
        },
    };
    let e4_opt = if char_boundary(ja4, 6) && char_boundary(ja4, 8) {
        let es = byte_range_chars(ja4, 6, 8);
        proof {
            lemma_encode_utf8_len(es@);
        }
        parse_count(&es)
    } else {
        None
    };
    let e4 = match e4_opt {
        Some(n) => n,
        None => {
            push_str(&mut out, "JA4 extension-count digits not numeric: ");
            push_str(&mut out, ja4);
            return Err(string_from_chars(out.as_slice()));
        },
    };
    if c4 != c3 as u64 {
        push_str(&mut out, "JA4 cipher count ");
        push_dec(&mut out, c4);
        push_str(&mut out, " != JA3 cipher-list length ");
        push_dec(&mut out, c3 as u64);
        push_str(&mut out, " (");
        push_str(&mut out, ja4);
        push_str(&mut out, " vs ");
        push_str(&mut out, ja3);
        push_str(&mut out, ")");
        return Err(string_from_chars(out.as_slice()));
    }
    if e4 != e3 as u64 {
        push_str(&mut out, "JA4 extension count ");
        push_dec(&mut out, e4);
        push_str(&mut out, " != JA3 extension-list length ");
        push_dec(&mut out, e3 as u64);
        push_str(&mut out, " (");
        push_str(&mut out, ja4);
        push_str(&mut out, " vs ");
        push_str(&mut out, ja3);
        push_str(&mut out, ")");
        return Err(string_from_chars(out.as_slice()));
    }
    Ok(())
}

// ───────────────────────── JA3 / JA4 agreement law ─────────────────────────

proof fn lemma_list_count_dash(l: Seq<u16>)
    ensures
        list_count(dash_u16(l)) == non_grease(l).len(),
{
    let parts = dec_list_u16(non_grease(l));
    if parts.len() == 0 {
        assert(dash_u16(l) == Seq::<char>::empty());
    } else {
        assert forall|i: int| 0 <= i < parts.len() implies no_char(#[trigger] parts[i], '-') by {
            lemma_dec_no_char(non_grease(l)[i] as nat, '-');
        }
        lemma_split_join(parts, '-');
        if parts.len() == 1 {
            lemma_dec_len_pos(non_grease(l)[0] as nat);
            assert(dash_u16(l) == parts[0]);
        } else {
            assert(dash_u16(l) == join(parts.drop_last(), seq!['-']) + seq!['-'] + parts.last());
        }
        assert(dash_u16(l).len() > 0);
    }
}

proof fn lemma_dec_char_digit(d: nat)
    requires
        d < 10,
    ensures
        is_digit(dec_char(d)),
        digit_val(dec_char(d)) == d,
{
}

/// Two zero-padded decimal digits parse back to their value.
pub(crate) proof fn lemma_count_digits_pad(n: nat)
    requires
        n < 100,
    ensures
        dec_pad(n, 2).len() == 2,
        is_ascii_chars(dec_pad(n, 2)),
        count_digits(dec_pad(n, 2)) == Some(n),
{
    let p = dec_pad(n, 2);
    reveal_with_fuel(digits_value, 3);
    if n < 10 {
        lemma_dec_char_digit(n);
        assert(dec(n) == seq![dec_char(n)]);
        assert(p =~= seq!['0', dec_char(n)]);
        assert(p.drop_last() =~= seq!['0']);
        assert(p.drop_last().drop_last() =~= Seq::<char>::empty());
        assert(digits_value(p.drop_last()) == 0);
        assert(digits_value(p) == n);
    } else {
        lemma_dec_char_digit(n / 10);
        lemma_dec_char_digit(n % 10);
        assert(dec(n / 10) == seq![dec_char(n / 10)]);
        assert(dec(n) == dec(n / 10).push(dec_char(n % 10)));
        assert(p =~= seq![dec_char(n / 10), dec_char(n % 10)]);
        assert(p.drop_last() =~= seq![dec_char(n / 10)]);
        assert(p.drop_last().drop_last() =~= Seq::<char>::empty());
        assert(digits_value(p.drop_last()) == n / 10);
        assert(digits_value(p) == (n / 10) * 10 + n % 10);
    }
    assert(all_digits(p));
}

/// The JA4 `_a` section is ten ASCII characters.
proof fn lemma_ja4_head_ascii(
    version: u16,
    cipher_suites: Seq<u16>,
    extensions: Seq<u16>,
    alpn: Seq<Seq<u8>>,
    supported_versions: Seq<u16>,
)
    requires
        non_grease(cipher_suites).len() < 100,
        non_grease(extensions).len() < 100,
    ensures
        ja4_head_of(version, cipher_suites, extensions, alpn, supported_versions).len() == 10,
        is_ascii_chars(ja4_head_of(version, cipher_suites, extensions, alpn, supported_versions)),
        ja4_head_of(version, cipher_suites, extensions, alpn, supported_versions).subrange(4, 6)
            == dec_pad(non_grease(cipher_suites).len(), 2),
        ja4_head_of(version, cipher_suites, extensions, alpn, supported_versions).subrange(6, 8)
            == dec_pad(non_grease(extensions).len(), 2),
{
    let nc = non_grease(cipher_suites).len();
    let ne = non_grease(extensions).len();
    lemma_count_digits_pad(nc);
    lemma_count_digits_pad(ne);
    let a = seq!['t'] + ja4_version_code(effective_version_of(version, supported_versions)) + seq![
        if extensions.contains(0) {
            'd'
        } else {
            'i'
        },
    ];
    let c = dec_pad(min99(nc), 2);
    let e = dec_pad(min99(ne), 2);
    let al = ja4_alpn(alpn);
    let h = ja4_head_of(version, cipher_suites, extensions, alpn, supported_versions);
    assert(h == a + c + e + al);
    assert(a.len() == 4);
    assert(al.len() == 2);
    assert(is_ascii_chars(a));
    assert(is_ascii_chars(al));
    assert forall|i: int| 0 <= i < h.len() implies '\0' <= #[trigger] h[i] <= '\u{7f}' by {
        if i < 4 {
            assert(h[i] == a[i]);
        } else if i < 6 {
            assert(h[i] == c[i - 4]);
        } else if i < 8 {
            assert(h[i] == e[i - 6]);
        } else {
            assert(h[i] == al[i - 8]);
        }
    }
    assert(h.subrange(4, 6) =~= c);
    assert(h.subrange(6, 8) =~= e);
}

proof fn lemma_ja3_list_counts(f: ClientHelloFields, ja3: &str)
    requires
        ja3@ == f.ja3(),
    ensures
        split(ja3@, ',').len() == 5,
        list_count(split(ja3@, ',')[1]) == non_grease(f.cipher_suites@).len(),
        list_count(split(ja3@, ',')[2]) == non_grease(f.extensions@).len(),
{
    lemma_ja3_five_sections(
        f.version,
        f.cipher_suites@,
        f.extensions@,
        f.supported_groups@,
        f.ec_point_formats@,
    );
    lemma_list_count_dash(f.cipher_suites@);
    lemma_list_count_dash(f.extensions@);
}

/// A string that starts with ten ASCII characters is sliced at character
/// boundaries within them, and its bytes there are those characters.
proof fn lemma_ascii_head_bytes(s: &str, h: Seq<char>)
    requires
        h.len() == 10,
        is_ascii_chars(h),
        s@.take(10) == h,
        s@.len() >= 10,
    ensures
        s.spec_bytes().len() >= 10,
        forall|i: int| 0 <= i < 10 ==> #[trigger] is_char_boundary(s.spec_bytes(), i),
        byte_slice(s, 4, 6) == h.subrange(4, 6),
        byte_slice(s, 6, 8) == h.subrange(6, 8),
{
    let rest = s@.skip(10);
    assert(s@ =~= h + rest);
    lemma_encode_utf8_concat(h, rest);
    is_ascii_chars_encode_utf8(h);
    let b = s.spec_bytes();
    assert(b == encode_utf8(h) + encode_utf8(rest));
    encode_utf8_valid_utf8(s@);
    assert forall|i: int| 0 <= i < 10 implies b[i] == (#[trigger] h[i]) as u8 by {
        assert(b[i] == encode_utf8(h)[i]);
    }
    assert forall|i: int| 0 <= i < 10 implies #[trigger] is_char_boundary(b, i) by {
        assert(b[i] == h[i] as u8);
        assert(h[i] <= '\u{7f}');
        is_char_boundary_iff_not_is_continuation_byte(b, i);
    }
    let c = h.subrange(4, 6);
    let e = h.subrange(6, 8);
    assert(is_ascii_chars(c));
    assert(is_ascii_chars(e));
    is_ascii_chars_encode_utf8(c);
    is_ascii_chars_encode_utf8(e);
    assert(b.subrange(4, 6) =~= encode_utf8(c));
    assert(b.subrange(6, 8) =~= encode_utf8(e));
    encode_utf8_decode_utf8(c);
    encode_utf8_decode_utf8(e);
}

/// A JA4 computed from a ClientHello agrees with that ClientHello's JA3:
/// the cipher and extension counts it encodes are the lengths of the JA3's
/// (GREASE-free) cipher and extension lists, whenever those are below 100
/// (JA4 caps its counts at 99).
pub proof fn lemma_ja4_counts_match_own_ja3(f: ClientHelloFields, ja3: &str, ja4: &str)
    requires
        ja3@ == f.ja3(),
        ja4@ == f.ja4(),
        non_grease(f.cipher_suites@).len() < 100,
        non_grease(f.extensions@).len() < 100,
    ensures
        counts_error(ja3, ja4) is None,
{
    let nc = non_grease(f.cipher_suites@).len();
    let ne = non_grease(f.extensions@).len();
    lemma_ja3_list_counts(f, ja3);
    let h = f.ja4_head();
    lemma_ja4_head_ascii(
        f.version,
        f.cipher_suites@,
        f.extensions@,
        f.alpn_view(),
        f.supported_versions@,
    );
    assert(ja4@.take(10) =~= h);
    lemma_ascii_head_bytes(ja4, h);
    lemma_count_digits_pad(nc);
    lemma_count_digits_pad(ne);
    assert(is_char_boundary(ja4.spec_bytes(), 4));
    assert(is_char_boundary(ja4.spec_bytes(), 6));
    assert(is_char_boundary(ja4.spec_bytes(), 8));
}


proof fn lemma_ascii_byte_slice(s: &str, a: int, b: int)
    requires
        is_ascii_chars(s@),
        0 <= a <= b <= s@.len(),
    ensures
        s.spec_bytes().len() == s@.len(),
        is_char_boundary(s.spec_bytes(), a),
        is_char_boundary(s.spec_bytes(), b),
        byte_slice(s, a, b) == s@.subrange(a, b),
{
    let bytes = s.spec_bytes();
    is_ascii_chars_encode_utf8(s@);
    encode_utf8_valid_utf8(s@);
    vstd::utf8::is_char_boundary_start_end_of_seq(bytes);
    if a < bytes.len() {
        is_char_boundary_iff_not_is_continuation_byte(bytes, a);
        assert(bytes[a] == s@[a] as u8);
    }
    if b < bytes.len() {
        is_char_boundary_iff_not_is_continuation_byte(bytes, b);
        assert(bytes[b] == s@[b] as u8);
    }
    let c = s@.subrange(a, b);
    assert(is_ascii_chars(c));
    is_ascii_chars_encode_utf8(c);
    assert(bytes.subrange(a, b) =~= encode_utf8(c));
    encode_utf8_decode_utf8(c);
}

/// For an ASCII JA4 the count check passes exactly when the JA3 has five
/// comma-separated fields, the JA4 has at least eight characters, and its
/// characters `4..6` and `6..8` parse (as `str::parse::<usize>`) to the
/// number of `-`-separated entries of the JA3's cipher and extension fields
/// (0 for an empty field).
pub proof fn lemma_counts_match_parsed(ja3: &str, ja4: &str)
    requires
        is_ascii_chars(ja4@),
    ensures
        counts_error(ja3, ja4) is None <==> {
            &&& split(ja3@, ',').len() == 5
            &&& ja4@.len() >= 8
            &&& count_digits(ja4@.subrange(4, 6)) == Some(list_count(split(ja3@, ',')[1]))
            &&& count_digits(ja4@.subrange(6, 8)) == Some(list_count(split(ja3@, ',')[2]))
        },
{
    is_ascii_chars_encode_utf8(ja4@);
    if ja4@.len() >= 8 {
        lemma_ascii_byte_slice(ja4, 4, 6);
        lemma_ascii_byte_slice(ja4, 6, 8);
    }
}


/// A target's fields pass validation exactly when all the shape checks hold:
/// a non-empty label, a JA3 starting `771,`, a JA4 starting `t13`, an
/// Akamai-H2 string that parses, and a non-empty peetprint equal to the MD5
/// of the Akamai-H2 string. A failure reports the first failing check in
/// that order, naming it.
pub proof fn lemma_target_fields_checks(
    label: Seq<char>,
    ja3: Seq<char>,
    ja4: Seq<char>,
    akamai_h2: Seq<char>,
    peet_h2: Seq<char>,
)
    ensures
        target_fields_error(label, ja3, ja4, akamai_h2, peet_h2) is None <==> {
            &&& label.len() > 0
            &&& starts_with(ja3, "771,"@)
            &&& starts_with(ja4, "t13"@)
            &&& akamai_parse(akamai_h2) is Ok
            &&& peet_h2.len() > 0
            &&& peet_h2 == md5_hex(encode_utf8(akamai_h2))
        },
        label.len() > 0 && !starts_with(ja3, "771,"@) ==> target_fields_error(
            label,
            ja3,
            ja4,
            akamai_h2,
            peet_h2,
        ) == Some("JA3 must start with `771,` (got `"@ + prefix_within(ja3, 12) + "…`)"@),
        label.len() > 0 && starts_with(ja3, "771,"@) && !starts_with(ja4, "t13"@) ==> target_fields_error(
            label,
            ja3,
            ja4,
            akamai_h2,
            peet_h2,
        ) == Some("JA4 must start with `t13` (got `"@ + prefix_within(ja4, 8) + "…`)"@),
{
}

} // verus!
