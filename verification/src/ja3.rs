//! JA3 and JA4 fingerprint computation for captured TLS ClientHello fields.
//!
//! Pure transforms over already-extracted handshake fields: no sockets, no
//! packet parsing, no handshakes.
use vstd::prelude::*;
use vstd::utf8::encode_utf8;
use crate::hash::{
    is_lower_hex, lemma_hex_bytes_lower, md5_hex, md5_string, sha256_first_12, sha256_first_12_spec,
};
use crate::text::{
    dec, dec_pad, hex_pad, join, push_all, push_dec, push_dec_pad, push_hex_pad, push_joined,
    seq_eq, chars_of, string_from_chars, views, no_char, lemma_dec_no_char, lemma_no_char_join,
    lemma_split_join, split,
};

verus! {

/// One TLS ClientHello, broken into the fields used by JA3 and JA4.
#[derive(Debug, Clone, PartialEq, Eq)]
pub struct ClientHelloFields {
    /// TLS legacy protocol version encoded in the ClientHello.
    pub version: u16,
    /// Cipher suites offered by the client, in client-preferred order.
    pub cipher_suites: Vec<u16>,
    /// Extension type ids offered by the client, in wire order.
    pub extensions: Vec<u16>,
    /// Supported elliptic-curve groups.
    pub supported_groups: Vec<u16>,
    /// EC point formats.
    pub ec_point_formats: Vec<u8>,
    /// ALPN protocols, in client-preferred order (raw bytes).
    pub alpn: Vec<Vec<u8>>,
    /// Signature algorithm ids, in client-offered order.
    pub signature_algorithms: Vec<u16>,
    /// TLS versions offered in the `supported_versions` extension.
    pub supported_versions: Vec<u16>,
}

// ───────────────────────── GREASE ─────────────────────────

/// The sixteen RFC 8701 GREASE values.
pub open spec fn grease_values() -> Seq<u16> {
    seq![
        0x0a0au16, 0x1a1a, 0x2a2a, 0x3a3a, 0x4a4a, 0x5a5a, 0x6a6a, 0x7a7a, 0x8a8a, 0x9a9a, 0xaaaa,
        0xbaba, 0xcaca, 0xdada, 0xeaea, 0xfafa,
    ]
}

pub open spec fn is_grease_spec(v: u16) -> bool {
    grease_values().contains(v)
}

/// `s` with every GREASE value removed, order kept.
pub open spec fn non_grease(s: Seq<u16>) -> Seq<u16>
    decreases s.len(),
{
    if s.len() == 0 {
        Seq::empty()
    } else if is_grease_spec(s.last()) {
        non_grease(s.drop_last())
    } else {
        non_grease(s.drop_last()).push(s.last())
    }
}

/// True for the sixteen GREASE values.
pub fn is_grease(value: u16) -> (r: bool)
    ensures
        r == is_grease_spec(value),
{
    let table: [u16; 16] = [
        0x0a0a, 0x1a1a, 0x2a2a, 0x3a3a, 0x4a4a, 0x5a5a, 0x6a6a, 0x7a7a, 0x8a8a, 0x9a9a, 0xaaaa, 0xbaba,
        0xcaca, 0xdada, 0xeaea, 0xfafa,
    ];
    assert(table@ =~= grease_values());
    let mut i: usize = 0;
    while i < 16
        invariant
            i <= 16,
            table@ == grease_values(),
            forall|j: int| 0 <= j < i ==> grease_values()[j] != value,
        decreases 16 - i,
    {
        if table[i] == value {
            assert(grease_values()[i as int] == value);
            return true;
        }
        i = i + 1;
    }
    assert(!grease_values().contains(value));
    false
}

/// The non-GREASE entries of `v`, in order.
pub fn strip_grease(v: &Vec<u16>) -> (r: Vec<u16>)
    ensures
        r@ == non_grease(v@),
{
    let mut r: Vec<u16> = Vec::new();
    let mut i: usize = 0;
    while i < v.len()
        invariant
            i <= v@.len(),
            r@ == non_grease(v@.take(i as int)),
        decreases v@.len() - i,
    {
        assert(v@.take(i as int + 1).drop_last() =~= v@.take(i as int));
        if !is_grease(v[i]) {
            r.push(v[i]);
        }
        i = i + 1;
    }
    assert(v@.take(v@.len() as int) =~= v@);
    r
}

// ───────────────────────── numeric helpers ─────────────────────────

/// The largest element of a non-empty sequence.
pub open spec fn seq_max(s: Seq<u16>) -> u16
    decreases s.len(),
{
    if s.len() <= 1 {
        s[0]
    } else {
        let m = seq_max(s.drop_last());
        if s.last() > m {
            s.last()
        } else {
            m
        }
    }
}

/// Insert `x` into an ascending sequence before its first strictly larger element.
pub open spec fn insert_sorted(t: Seq<u16>, x: u16) -> Seq<u16> {
    let pos = first_greater(t, x);
    t.take(pos) + seq![x] + t.skip(pos)
}

/// The index of the first element of `t` strictly greater than `x` (or `t.len()`).
pub open spec fn first_greater(t: Seq<u16>, x: u16) -> int
    decreases t.len(),
{
    if t.len() == 0 {
        0
    } else if t[0] > x {
        0
    } else {
        1 + first_greater(t.drop_first(), x)
    }
}

/// `s` sorted ascending (stable insertion order for equal values).
pub open spec fn sort_u16(s: Seq<u16>) -> Seq<u16>
    decreases s.len(),
{
    if s.len() == 0 {
        Seq::empty()
    } else {
        insert_sorted(sort_u16(s.drop_last()), s.last())
    }
}

pub open spec fn is_ascending(s: Seq<u16>) -> bool {
    forall|i: int, j: int| 0 <= i < j < s.len() ==> s[i] <= s[j]
}

proof fn lemma_first_greater(t: Seq<u16>, x: u16)
    ensures
        0 <= first_greater(t, x) <= t.len(),
        forall|i: int| 0 <= i < first_greater(t, x) ==> t[i] <= x,
        first_greater(t, x) < t.len() ==> t[first_greater(t, x)] > x,
    decreases t.len(),
{
    if t.len() > 0 && t[0] <= x {
        lemma_first_greater(t.drop_first(), x);
        assert forall|i: int| 0 <= i < first_greater(t, x) implies t[i] <= x by {
            if i > 0 {
                assert(t[i] == t.drop_first()[i - 1]);
            }
        }
    }
}

proof fn lemma_insert_sorted(t: Seq<u16>, x: u16)
    requires
        is_ascending(t),
    ensures
        is_ascending(insert_sorted(t, x)),
        insert_sorted(t, x).to_multiset() == t.to_multiset().insert(x),
{
    lemma_first_greater(t, x);
    let pos = first_greater(t, x);
    let r = insert_sorted(t, x);
    assert(r.len() == t.len() + 1);
    assert forall|i: int, j: int| 0 <= i < j < r.len() implies r[i] <= r[j] by {
        if j < pos {
            assert(r[i] == t[i] && r[j] == t[j]);
        } else if j == pos {
            assert(r[j] == x);
            assert(r[i] == t[i]);
        } else if i < pos {
            assert(r[i] == t[i]);
            assert(r[j] == t[j - 1]);
            assert(t[pos] > x);
        } else if i == pos {
            assert(r[i] == x);
            assert(r[j] == t[j - 1]);
            assert(t[pos] > x);
            assert(t[pos] <= t[j - 1] || j - 1 == pos);
        } else {
            assert(r[i] == t[i - 1] && r[j] == t[j - 1]);
        }
    }
    vstd::seq_lib::lemma_multiset_commutative(t.take(pos) + seq![x], t.skip(pos));
    vstd::seq_lib::lemma_multiset_commutative(t.take(pos), seq![x]);
    vstd::seq_lib::lemma_multiset_commutative(t.take(pos), t.skip(pos));
    assert(t.take(pos) + t.skip(pos) =~= t);
    assert(seq![x].to_multiset() =~= vstd::multiset::Multiset::<u16>::empty().insert(x)) by {
        broadcast use vstd::seq_lib::group_to_multiset_ensures;
        assert(seq![x] =~= Seq::<u16>::empty().push(x));
    }
    assert(insert_sorted(t, x).to_multiset() =~= t.to_multiset().insert(x));
}

/// The sort is ascending and a permutation of its input.
pub proof fn lemma_sort_u16(s: Seq<u16>)
    ensures
        is_ascending(sort_u16(s)),
        sort_u16(s).to_multiset() == s.to_multiset(),
    decreases s.len(),
{
    broadcast use vstd::seq_lib::group_to_multiset_ensures;

    if s.len() > 0 {
        lemma_sort_u16(s.drop_last());
        lemma_insert_sorted(sort_u16(s.drop_last()), s.last());
        assert(s.drop_last().push(s.last()) =~= s);
    } else {
        assert(s.to_multiset() =~= vstd::multiset::Multiset::<u16>::empty());
        assert(sort_u16(s).to_multiset() =~= vstd::multiset::Multiset::<u16>::empty());
    }
}

/// `v` sorted ascending.
pub fn sorted_u16(v: &Vec<u16>) -> (r: Vec<u16>)
    ensures
        r@ == sort_u16(v@),
        is_ascending(r@),
        r@.to_multiset() == v@.to_multiset(),
{
    let mut r: Vec<u16> = Vec::new();
    let mut i: usize = 0;
    while i < v.len()
        invariant
            i <= v@.len(),
            r@ == sort_u16(v@.take(i as int)),
            r@.len() == i,
        decreases v@.len() - i,
    {
        assert(v@.take(i as int + 1).drop_last() =~= v@.take(i as int));
        let x = v[i];
        let mut pos: usize = 0;
        assert(r@.skip(0) =~= r@);
        while pos < r.len() && r[pos] <= x
            invariant
                pos <= r@.len(),
                first_greater(r@, x) == pos + first_greater(r@.skip(pos as int), x),
            decreases r@.len() - pos,
        {
            assert(r@.skip(pos as int).drop_first() =~= r@.skip(pos + 1));
            pos = pos + 1;
        }
        proof {
            if pos < r@.len() {
                assert(r@.skip(pos as int)[0] > x);
            } else {
                assert(r@.skip(pos as int).len() == 0);
            }
        }
        r.insert(pos, x);
        assert(r@ =~= sort_u16(v@.take(i as int + 1)));
        i = i + 1;
    }
    assert(v@.take(v@.len() as int) =~= v@);
    proof {
        lemma_sort_u16(v@);
    }
    r
}

// ───────────────────────── JA3 specification ─────────────────────────

pub open spec fn dec_list_u16(s: Seq<u16>) -> Seq<Seq<char>> {
    s.map_values(|v: u16| dec(v as nat))
}

/// GREASE-stripped, dash-joined decimal rendering.
pub open spec fn dash_u16(s: Seq<u16>) -> Seq<char> {
    join(dec_list_u16(non_grease(s)), seq!['-'])
}

pub open spec fn dash_u8(s: Seq<u8>) -> Seq<char> {
    join(s.map_values(|v: u8| dec(v as nat)), seq!['-'])
}

/// The canonical JA3 string:
/// `version,ciphers,extensions,groups,point_formats`.
pub open spec fn ja3_spec(
    version: u16,
    ciphers: Seq<u16>,
    extensions: Seq<u16>,
    groups: Seq<u16>,
    formats: Seq<u8>,
) -> Seq<char> {
    dec(version as nat) + seq![','] + dash_u16(ciphers) + seq![','] + dash_u16(extensions) + seq![',']
        + dash_u16(groups) + seq![','] + dash_u8(formats)
}

proof fn lemma_dash_no_comma(parts: Seq<Seq<char>>)
    requires
        forall|i: int| 0 <= i < parts.len() ==> no_char(#[trigger] parts[i], ','),
    ensures
        no_char(join(parts, seq!['-']), ','),
{
    lemma_no_char_join(parts, seq!['-'], ',');
}

/// A JA3 string has exactly five comma-separated sections: the decimal
/// version, then the dash-joined decimal ciphers, extensions and groups
/// (GREASE removed), then the dash-joined point formats.
pub proof fn lemma_ja3_five_sections(
    version: u16,
    ciphers: Seq<u16>,
    extensions: Seq<u16>,
    groups: Seq<u16>,
    formats: Seq<u8>,
)
    ensures
        split(ja3_spec(version, ciphers, extensions, groups, formats), ',') == seq![
            dec(version as nat),
            dash_u16(ciphers),
            dash_u16(extensions),
            dash_u16(groups),
            dash_u8(formats),
        ],
{
    let parts = seq![
        dec(version as nat),
        dash_u16(ciphers),
        dash_u16(extensions),
        dash_u16(groups),
        dash_u8(formats),
    ];
    assert forall|l: Seq<u16>| #![trigger dash_u16(l)] no_char(dash_u16(l), ',') by {
        let d = dec_list_u16(non_grease(l));
        assert forall|i: int| 0 <= i < d.len() implies no_char(#[trigger] d[i], ',') by {
            lemma_dec_no_char(non_grease(l)[i] as nat, ',');
        }
        lemma_dash_no_comma(d);
    }
    let f = formats.map_values(|v: u8| dec(v as nat));
    assert forall|i: int| 0 <= i < f.len() implies no_char(#[trigger] f[i], ',') by {
        lemma_dec_no_char(formats[i] as nat, ',');
    }
    lemma_dash_no_comma(f);
    lemma_dec_no_char(version as nat, ',');
    assert forall|i: int| 0 <= i < parts.len() implies no_char(#[trigger] parts[i], ',') by {
        if i == 1 {
            assert(no_char(dash_u16(ciphers), ','));
        } else if i == 2 {
            assert(no_char(dash_u16(extensions), ','));
        } else if i == 3 {
            assert(no_char(dash_u16(groups), ','));
        }
    }
    let c = seq![','];
    let p1 = seq![dec(version as nat)];
    let p2 = p1.push(dash_u16(ciphers));
    let p3 = p2.push(dash_u16(extensions));
    let p4 = p3.push(dash_u16(groups));
    assert(p4.push(dash_u8(formats)) =~= parts);
    assert(p2.drop_last() =~= p1);
    assert(p3.drop_last() =~= p2);
    assert(p4.drop_last() =~= p3);
    assert(parts.drop_last() =~= p4);
    assert(join(p1, c) == dec(version as nat));
    assert(join(p2, c) == dec(version as nat) + c + dash_u16(ciphers));
    assert(join(p3, c) == join(p2, c) + c + dash_u16(extensions));
    assert(join(p4, c) == join(p3, c) + c + dash_u16(groups));
    assert(join(parts, c) == join(p4, c) + c + dash_u8(formats));
    assert(join(parts, seq![',']) == ja3_spec(version, ciphers, extensions, groups, formats));
    lemma_split_join(parts, ',');
}

/// The version JA4 encodes: the largest non-GREASE `supported_versions`
/// entry, else the legacy version field.
pub open spec fn effective_version_of(version: u16, supported_versions: Seq<u16>) -> u16 {
    let v = non_grease(supported_versions);
    if v.len() == 0 {
        version
    } else {
        seq_max(v)
    }
}

impl ClientHelloFields {
    pub open spec fn ja3(&self) -> Seq<char> {
        ja3_spec(
            self.version,
            self.cipher_suites@,
            self.extensions@,
            self.supported_groups@,
            self.ec_point_formats@,
        )
    }

    /// The version JA4 encodes (see [`effective_version_of`]).
    pub open spec fn effective_version(&self) -> u16 {
        effective_version_of(self.version, self.supported_versions@)
    }

    /// This ClientHello shape with `alpn` replaced.
    pub fn with_alpn(self, alpn: Vec<Vec<u8>>) -> (r: ClientHelloFields)
        ensures
            r == (ClientHelloFields { alpn, ..self }),
    {
        let mut s = self;
        s.alpn = alpn;
        s
    }

    /// This ClientHello shape with `signature_algorithms` replaced.
    pub fn with_signature_algorithms(self, algs: Vec<u16>) -> (r: ClientHelloFields)
        ensures
            r == (ClientHelloFields { signature_algorithms: algs, ..self }),
    {
        let mut s = self;
        s.signature_algorithms = algs;
        s
    }

    /// This ClientHello shape with `supported_versions` replaced.
    pub fn with_supported_versions(self, versions: Vec<u16>) -> (r: ClientHelloFields)
        ensures
            r == (ClientHelloFields { supported_versions: versions, ..self }),
    {
        let mut s = self;
        s.supported_versions = versions;
        s
    }

    /// The highest TLS version this client negotiates: the largest
    /// GREASE-stripped `supported_versions` entry, otherwise the legacy field.
    pub fn effective_tls_version(&self) -> (r: u16)
        ensures
            r == self.effective_version(),
    {
        let v = strip_grease(&self.supported_versions);
        if v.len() == 0 {
            return self.version;
        }
        let mut best: u16 = v[0];
        let mut i: usize = 1;
        assert(v@.take(1).drop_last() =~= Seq::<u16>::empty());
        while i < v.len()
            invariant
                1 <= i <= v@.len(),
                best == seq_max(v@.take(i as int)),
            decreases v@.len() - i,
        {
            assert(v@.take(i as int + 1).drop_last() =~= v@.take(i as int));
            if v[i] > best {
                best = v[i];
            }
            i = i + 1;
        }
        assert(v@.take(v@.len() as int) =~= v@);
        best
    }
}

fn dash_join_u16(values: &Vec<u16>) -> (r: Vec<char>)
    ensures
        r@ == dash_u16(values@),
{
    let kept = strip_grease(values);
    let mut parts: Vec<Vec<char>> = Vec::new();
    let mut i: usize = 0;
    while i < kept.len()
        invariant
            i <= kept@.len(),
            parts@.len() == i,
            forall|q: int| 0 <= q < i ==> #[trigger] parts@[q]@ == dec(kept@[q] as nat),
        decreases kept@.len() - i,
    {
        let mut p: Vec<char> = Vec::new();
        push_dec(&mut p, kept[i] as u64);
        parts.push(p);
        i = i + 1;
    }
    assert(views(parts@) =~= dec_list_u16(kept@));
    let mut out: Vec<char> = Vec::new();
    push_joined(&mut out, &parts, '-');
    out
}

fn dash_join_u8(values: &Vec<u8>) -> (r: Vec<char>)
    ensures
        r@ == dash_u8(values@),
{
    let mut parts: Vec<Vec<char>> = Vec::new();
    let mut i: usize = 0;
    while i < values.len()
        invariant
            i <= values@.len(),
            parts@.len() == i,
            forall|q: int| 0 <= q < i ==> #[trigger] parts@[q]@ == dec(values@[q] as nat),
        decreases values@.len() - i,
    {
        let mut p: Vec<char> = Vec::new();
        push_dec(&mut p, values[i] as u64);
        parts.push(p);
        i = i + 1;
    }
    assert(views(parts@) =~= values@.map_values(|v: u8| dec(v as nat)));
    let mut out: Vec<char> = Vec::new();
    push_joined(&mut out, &parts, '-');
    out
}

fn ja3_chars(fields: &ClientHelloFields) -> (r: Vec<char>)
    ensures
        r@ == fields.ja3(),
{
    let mut out: Vec<char> = Vec::new();
    push_dec(&mut out, fields.version as u64);
    out.push(',');
    let c = dash_join_u16(&fields.cipher_suites);
    push_all(&mut out, &c);
    out.push(',');
    let e = dash_join_u16(&fields.extensions);
    push_all(&mut out, &e);
    out.push(',');
    let g = dash_join_u16(&fields.supported_groups);
    push_all(&mut out, &g);
    out.push(',');
    let f = dash_join_u8(&fields.ec_point_formats);
    push_all(&mut out, &f);
    assert(out@ =~= fields.ja3());
    out
}

/// The canonical JA3 string of a ClientHello (GREASE stripped from every
/// `u16` list).
pub fn compute_ja3(fields: &ClientHelloFields) -> (s: String)
    ensures
        s@ == fields.ja3(),
{
    let v = ja3_chars(fields);
    string_from_chars(v.as_slice())
}

/// The MD5 (lowercase hex) of the canonical JA3 string.
pub fn compute_ja3_hash(fields: &ClientHelloFields) -> (s: String)
    ensures
        s@ == md5_hex(encode_utf8(fields.ja3())),
{
    let canonical = compute_ja3(fields);
    md5_string(canonical.as_str())
}

// ───────────────────────── JA4 specification ─────────────────────────

pub open spec fn ascii_alnum(b: u8) -> bool {
    (48 <= b && b <= 57) || (65 <= b && b <= 90) || (97 <= b && b <= 122)
}

/// A byte as its character when ASCII alphanumeric, else `'0'`.
pub open spec fn safe_char(b: u8) -> char {
    if ascii_alnum(b) {
        b as char
    } else {
        '0'
    }
}

pub fn safe_char_exec(b: u8) -> (c: char)
    ensures
        c == safe_char(b),
{
    if (48 <= b && b <= 57) || (65 <= b && b <= 90) || (97 <= b && b <= 122) {
        b as char
    } else {
        '0'
    }
}

/// The two-character JA4 version code.
pub open spec fn ja4_version_code(v: u16) -> Seq<char> {
    if v == 769 {
        seq!['1', '0']
    } else if v == 770 {
        seq!['1', '1']
    } else if v == 771 {
        seq!['1', '2']
    } else if v == 772 {
        seq!['1', '3']
    } else {
        seq!['0', '0']
    }
}

/// The JA4 ALPN field: first and last byte of the first protocol, or `00`.
pub open spec fn ja4_alpn(alpn: Seq<Seq<u8>>) -> Seq<char> {
    if alpn.len() > 0 && alpn[0].len() > 0 {
        seq![safe_char(alpn[0][0]), safe_char(alpn[0].last())]
    } else {
        seq!['0', '0']
    }
}

pub open spec fn hex4_list(s: Seq<u16>) -> Seq<Seq<char>> {
    s.map_values(|v: u16| hex_pad(v as nat, 4))
}

/// Comma-joined four-digit lowercase hex.
pub open spec fn hex4_join(s: Seq<u16>) -> Seq<char> {
    join(hex4_list(s), seq![','])
}

pub open spec fn min99(n: nat) -> nat {
    if n < 99 {
        n
    } else {
        99
    }
}

/// `s` without SNI (0x0000) and ALPN (0x0010).
pub open spec fn drop_sni_alpn(s: Seq<u16>) -> Seq<u16>
    decreases s.len(),
{
    if s.len() == 0 {
        Seq::empty()
    } else if s.last() == 0 || s.last() == 0x0010 {
        drop_sni_alpn(s.drop_last())
    } else {
        drop_sni_alpn(s.drop_last()).push(s.last())
    }
}

/// The input of the JA4 extension hash: sorted extensions, then `_` and the
/// signature algorithms in offered order when there are any.
pub open spec fn ja4_ext_hash_input(exts: Seq<u16>, sigalgs: Seq<u16>) -> Seq<char> {
    let ext_hex = hex4_join(sort_u16(drop_sni_alpn(non_grease(exts))));
    if sigalgs.len() == 0 {
        ext_hex
    } else {
        ext_hex + seq!['_'] + hex4_join(sigalgs)
    }
}

impl ClientHelloFields {
    pub open spec fn alpn_view(&self) -> Seq<Seq<u8>> {
        self.alpn@.map_values(|a: Vec<u8>| a@)
    }

    /// The JA4 `_a` section of this ClientHello.
    pub open spec fn ja4_head(&self) -> Seq<char> {
        ja4_head_of(
            self.version,
            self.cipher_suites@,
            self.extensions@,
            self.alpn_view(),
            self.supported_versions@,
        )
    }

    /// The FoxIO JA4 string of this ClientHello.
    pub open spec fn ja4(&self) -> Seq<char> {
        ja4_of(
            self.version,
            self.cipher_suites@,
            self.extensions@,
            self.alpn_view(),
            self.signature_algorithms@,
            self.supported_versions@,
        )
    }
}

/// The JA4 `_a` section: `t<ver><sni><nciphers><nexts><alpn>`.
pub open spec fn ja4_head_of(
    version: u16,
    cipher_suites: Seq<u16>,
    extensions: Seq<u16>,
    alpn: Seq<Seq<u8>>,
    supported_versions: Seq<u16>,
) -> Seq<char> {
    let ciphers = non_grease(cipher_suites);
    let exts = non_grease(extensions);
    seq!['t'] + ja4_version_code(effective_version_of(version, supported_versions)) + seq![
        if extensions.contains(0) {
            'd'
        } else {
            'i'
        },
    ] + dec_pad(min99(ciphers.len()), 2) + dec_pad(min99(exts.len()), 2) + ja4_alpn(alpn)
}

/// The FoxIO JA4 string:
/// `t<ver><sni><nciphers><nexts><alpn>_<cipherhash12>_<exthash12>`.
pub open spec fn ja4_of(
    version: u16,
    cipher_suites: Seq<u16>,
    extensions: Seq<u16>,
    alpn: Seq<Seq<u8>>,
    signature_algorithms: Seq<u16>,
    supported_versions: Seq<u16>,
) -> Seq<char> {
    ja4_head_of(version, cipher_suites, extensions, alpn, supported_versions) + seq!['_']
        + sha256_first_12_spec(encode_utf8(hex4_join(sort_u16(non_grease(cipher_suites)))))
        + seq!['_'] + sha256_first_12_spec(
        encode_utf8(ja4_ext_hash_input(extensions, signature_algorithms)),
    )
}

/// Comma-joined four-digit hex of `values`.
pub fn hex4_join_exec(values: &Vec<u16>) -> (r: Vec<char>)
    ensures
        r@ == hex4_join(values@),
{
    let mut parts: Vec<Vec<char>> = Vec::new();
    let mut i: usize = 0;
    while i < values.len()
        invariant
            i <= values@.len(),
            parts@.len() == i,
            forall|q: int| 0 <= q < i ==> #[trigger] parts@[q]@ == hex_pad(values@[q] as nat, 4),
        decreases values@.len() - i,
    {
        let mut p: Vec<char> = Vec::new();
        push_hex_pad(&mut p, values[i] as u64, 4);
        parts.push(p);
        i = i + 1;
    }
    assert(views(parts@) =~= hex4_list(values@));
    let mut out: Vec<char> = Vec::new();
    push_joined(&mut out, &parts, ',');
    out
}

fn drop_sni_alpn_exec(v: &Vec<u16>) -> (r: Vec<u16>)
    ensures
        r@ == drop_sni_alpn(v@),
{
    let mut r: Vec<u16> = Vec::new();
    let mut i: usize = 0;
    while i < v.len()
        invariant
            i <= v@.len(),
            r@ == drop_sni_alpn(v@.take(i as int)),
        decreases v@.len() - i,
    {
        assert(v@.take(i as int + 1).drop_last() =~= v@.take(i as int));
        if v[i] != 0 && v[i] != 0x0010 {
            r.push(v[i]);
        }
        i = i + 1;
    }
    assert(v@.take(v@.len() as int) =~= v@);
    r
}

fn contains_u16(v: &Vec<u16>, x: u16) -> (r: bool)
    ensures
        r == v@.contains(x),
{
    let mut i: usize = 0;
    while i < v.len()
        invariant
            i <= v@.len(),
            forall|j: int| 0 <= j < i ==> v@[j] != x,
        decreases v@.len() - i,
    {
        if v[i] == x {
            assert(v@[i as int] == x);
            return true;
        }
        i = i + 1;
    }
    false
}

/// SHA-256 of the characters of `v`, truncated to twelve hex characters.
pub fn sha12_of_chars(v: &Vec<char>) -> (r: Vec<char>)
    ensures
        r@ == sha256_first_12_spec(encode_utf8(v@)),
        r@.len() == 12,
{
    let s = string_from_chars(v.as_slice());
    let h = sha256_first_12(s.as_str());
    chars_of(h.as_str())
}

fn ja4_version_exec(v: u16) -> (r: Vec<char>)
    ensures
        r@ == ja4_version_code(v),
{
    let (a, b) = if v == 769 {
        ('1', '0')
    } else if v == 770 {
        ('1', '1')
    } else if v == 771 {
        ('1', '2')
    } else if v == 772 {
        ('1', '3')
    } else {
        ('0', '0')
    };
    let mut r: Vec<char> = Vec::new();
    r.push(a);
    r.push(b);
    assert(r@ =~= ja4_version_code(v));
    r
}

fn ja4_alpn_exec(fields: &ClientHelloFields) -> (r: Vec<char>)
    ensures
        r@ == ja4_alpn(fields.alpn_view()),
{
    let mut r: Vec<char> = Vec::new();
    if fields.alpn.len() > 0 && fields.alpn[0].len() > 0 {
        let first = &fields.alpn[0];
        r.push(safe_char_exec(first[0]));
        r.push(safe_char_exec(first[first.len() - 1]));
    } else {
        r.push('0');
        r.push('0');
    }
    proof {
        if fields.alpn@.len() > 0 {
            assert(fields.alpn_view()[0] == fields.alpn@[0]@);
        }
    }
    assert(r@ =~= ja4_alpn(fields.alpn_view()));
    r
}

fn ja4_head_exec(fields: &ClientHelloFields) -> (r: Vec<char>)
    ensures
        r@ == fields.ja4_head(),
{
    let mut out: Vec<char> = Vec::new();
    out.push('t');
    let v = fields.effective_tls_version();
    let vc = ja4_version_exec(v);
    push_all(&mut out, &vc);
    let sni = if contains_u16(&fields.extensions, 0) {
        'd'
    } else {
        'i'
    };
    out.push(sni);
    let ciphers = strip_grease(&fields.cipher_suites);
    let exts = strip_grease(&fields.extensions);
    let cc: u64 = if ciphers.len() < 99 {
        ciphers.len() as u64
    } else {
        99
    };
    let ec: u64 = if exts.len() < 99 {
        exts.len() as u64
    } else {
        99
    };
    push_dec_pad(&mut out, cc, 2);
    push_dec_pad(&mut out, ec, 2);
    let al = ja4_alpn_exec(fields);
    push_all(&mut out, &al);
    assert(out@ =~= fields.ja4_head());
    out
}

fn ja4_ext_input_exec(fields: &ClientHelloFields) -> (r: Vec<char>)
    ensures
        r@ == ja4_ext_hash_input(fields.extensions@, fields.signature_algorithms@),
{
    let exts = strip_grease(&fields.extensions);
    let ext_kept = drop_sni_alpn_exec(&exts);
    let sorted_exts = sorted_u16(&ext_kept);
    let mut ext_input = hex4_join_exec(&sorted_exts);
    if fields.signature_algorithms.len() > 0 {
        ext_input.push('_');
        let sig = hex4_join_exec(&fields.signature_algorithms);
        push_all(&mut ext_input, &sig);
    }
    assert(ext_input@ =~= ja4_ext_hash_input(fields.extensions@, fields.signature_algorithms@));
    ext_input
}

/// The FoxIO JA4 string for a TCP TLS ClientHello. The version is the
/// negotiated one (see [`ClientHelloFields::effective_tls_version`]); cipher
/// and extension hash inputs are GREASE-stripped, hex-rendered and sorted; the
/// extension count includes SNI and ALPN, which only the hash excludes.
pub fn compute_ja4(fields: &ClientHelloFields) -> (s: String)
    ensures
        s@ == fields.ja4(),
        s@.len() == 36,
        s@.subrange(0, 10) == fields.ja4_head(),
        s@[10] == '_',
        s@[23] == '_',
        forall|i: int| 11 <= i < 23 || 24 <= i < 36 ==> is_lower_hex(#[trigger] s@[i]),
{
    let mut out = ja4_head_exec(fields);
    proof {
        lemma_ja4_head_fields(*fields);
    }
    out.push('_');
    let ciphers = strip_grease(&fields.cipher_suites);
    let sorted_ciphers = sorted_u16(&ciphers);
    let cipher_input = hex4_join_exec(&sorted_ciphers);
    let cipher_hash = sha12_of_chars(&cipher_input);
    push_all(&mut out, &cipher_hash);
    out.push('_');
    let ext_input = ja4_ext_input_exec(fields);
    let ext_hash = sha12_of_chars(&ext_input);
    push_all(&mut out, &ext_hash);
    assert(out@ =~= fields.ja4());
    proof {
        let h = fields.ja4_head();
        let c = cipher_hash@;
        let e = ext_hash@;
        lemma_hex_bytes_lower(crate::hash::sha256(encode_utf8(cipher_input@)).take(6));
        lemma_hex_bytes_lower(crate::hash::sha256(encode_utf8(ext_input@)).take(6));
        assert(out@ =~= h + seq!['_'] + c + seq!['_'] + e);
        assert(out@.subrange(0, 10) =~= h);
        assert forall|i: int| 11 <= i < 23 || 24 <= i < 36 implies is_lower_hex(#[trigger] out@[i]) by {
            if i < 23 {
                assert(out@[i] == c[i - 11]);
            } else {
                assert(out@[i] == e[i - 24]);
            }
        }
    }
    string_from_chars(out.as_slice())
}

/// The JA4 `_a` section is ten characters: `t`, the two-character version
/// code of the effective version, `d` exactly when the server-name
/// extension (0) is offered (else `i`), the GREASE-free cipher and
/// extension counts (capped at 99) as two zero-padded digits each, and the
/// two ALPN characters.
pub proof fn lemma_ja4_head_fields(f: ClientHelloFields)
    ensures
        f.ja4_head().len() == 10,
        f.ja4_head()[0] == 't',
        f.ja4_head().subrange(1, 3) == ja4_version_code(f.effective_version()),
        (f.ja4_head()[3] == 'd') == f.extensions@.contains(0),
        f.ja4_head()[3] == 'd' || f.ja4_head()[3] == 'i',
        f.ja4_head().subrange(4, 6) == dec_pad(min99(non_grease(f.cipher_suites@).len()), 2),
        f.ja4_head().subrange(6, 8) == dec_pad(min99(non_grease(f.extensions@).len()), 2),
        f.ja4_head().subrange(8, 10) == ja4_alpn(f.alpn_view()),
{
    let nc = min99(non_grease(f.cipher_suites@).len());
    let ne = min99(non_grease(f.extensions@).len());
    crate::tls_targets::lemma_count_digits_pad(nc);
    crate::tls_targets::lemma_count_digits_pad(ne);
    let a = seq!['t'] + ja4_version_code(f.effective_version()) + seq![
        if f.extensions@.contains(0) {
            'd'
        } else {
            'i'
        },
    ];
    let c = dec_pad(nc, 2);
    let e = dec_pad(ne, 2);
    let al = ja4_alpn(f.alpn_view());
    let h = f.ja4_head();
    assert(h == a + c + e + al);
    assert(h.subrange(1, 3) =~= ja4_version_code(f.effective_version()));
    assert(h.subrange(4, 6) =~= c);
    assert(h.subrange(6, 8) =~= e);
    assert(h.subrange(8, 10) =~= al);
}

// ───────────────────────── verification against a target ─────────────────────────

/// Result of comparing an actual ClientHello against a target JA3.
#[derive(Debug, Clone, PartialEq, Eq)]
pub enum JA3VerificationOutcome {
    /// The actual ClientHello rendered to the expected canonical JA3 string.
    Match {
        /// Actual canonical JA3 string.
        canonical: String,
    },
    /// The actual ClientHello rendered to a different canonical JA3 string.
    Drift {
        /// Actual canonical JA3 string.
        actual: String,
        /// Expected canonical JA3 string.
        expected: String,
    },
}

impl JA3VerificationOutcome {
    /// True when this comparison is a match.
    pub fn is_match(&self) -> (r: bool)
        ensures
            r == (self is Match),
    {
        match self {
            JA3VerificationOutcome::Match { .. } => true,
            JA3VerificationOutcome::Drift { .. } => false,
        }
    }
}

/// Compare a captured ClientHello against a target JA3 string.
pub fn verify_against_target(actual: &ClientHelloFields, target_ja3: &str) -> (r: JA3VerificationOutcome)
    ensures
        actual.ja3() == target_ja3@ ==> (r matches JA3VerificationOutcome::Match { canonical }
            && canonical@ == actual.ja3()),
        actual.ja3() != target_ja3@ ==> (r matches JA3VerificationOutcome::Drift { actual: a, expected: e }
            && a@ == actual.ja3() && e@ == target_ja3@),
{
    let actual_chars = ja3_chars(actual);
    let target_chars = chars_of(target_ja3);
    if seq_eq(&actual_chars, &target_chars) {
        JA3VerificationOutcome::Match { canonical: string_from_chars(actual_chars.as_slice()) }
    } else {
        JA3VerificationOutcome::Drift {
            actual: string_from_chars(actual_chars.as_slice()),
            expected: string_from_chars(target_chars.as_slice()),
        }
    }
}

proof fn lemma_dec_pad_no_underscore(n: nat, w: nat)
    ensures
        no_char(dec_pad(n, w), '_'),
{
    crate::text::lemma_dec_all_digits(n);
    let d = dec(n);
    let p = dec_pad(n, w);
    assert forall|i: int| 0 <= i < p.len() implies p[i] != '_' by {
        if d.len() < w {
            let z = crate::text::zeros((w - d.len()) as nat);
            assert(p == z + d);
            if i >= z.len() {
                assert(p[i] == d[i - z.len()]);
                assert(crate::text::is_digit(d[i - z.len()]));
            }
        } else {
            assert(crate::text::is_digit(d[i]));
        }
    }
}

proof fn lemma_sha12_no_underscore(bytes: Seq<u8>)
    ensures
        no_char(sha256_first_12_spec(bytes), '_'),
{
    let b = crate::hash::sha256(bytes).take(6);
    lemma_hex_bytes_lower(b);
    assert forall|i: int| 0 <= i < sha256_first_12_spec(bytes).len() implies sha256_first_12_spec(
        bytes,
    )[i] != '_' by {
        assert(is_lower_hex(crate::hash::hex_bytes(b)[i]));
    }
}

/// Every JA4 string starts with `t` and has exactly three `_`-separated
/// sections: the `_a` header, the cipher hash and the extension hash.
pub proof fn lemma_ja4_three_sections(
    version: u16,
    cipher_suites: Seq<u16>,
    extensions: Seq<u16>,
    alpn: Seq<Seq<u8>>,
    signature_algorithms: Seq<u16>,
    supported_versions: Seq<u16>,
)
    ensures
        ja4_of(version, cipher_suites, extensions, alpn, signature_algorithms, supported_versions)[0]
            == 't',
        split(
            ja4_of(version, cipher_suites, extensions, alpn, signature_algorithms, supported_versions),
            '_',
        ) == seq![
            ja4_head_of(version, cipher_suites, extensions, alpn, supported_versions),
            sha256_first_12_spec(encode_utf8(hex4_join(sort_u16(non_grease(cipher_suites))))),
            sha256_first_12_spec(encode_utf8(ja4_ext_hash_input(extensions, signature_algorithms))),
        ],
{
    let head = ja4_head_of(version, cipher_suites, extensions, alpn, supported_versions);
    let h1 = sha256_first_12_spec(encode_utf8(hex4_join(sort_u16(non_grease(cipher_suites)))));
    let h2 = sha256_first_12_spec(encode_utf8(ja4_ext_hash_input(extensions, signature_algorithms)));
    let a = seq!['t'] + ja4_version_code(effective_version_of(version, supported_versions)) + seq![
        if extensions.contains(0) {
            'd'
        } else {
            'i'
        },
    ];
    let c = dec_pad(min99(non_grease(cipher_suites).len()), 2);
    let e = dec_pad(min99(non_grease(extensions).len()), 2);
    let al = ja4_alpn(alpn);
    assert(head == a + c + e + al);
    lemma_dec_pad_no_underscore(min99(non_grease(cipher_suites).len()), 2);
    lemma_dec_pad_no_underscore(min99(non_grease(extensions).len()), 2);
    assert(no_char(a, '_'));
    assert(no_char(al, '_'));
    crate::text::lemma_no_char_concat(a, c, '_');
    crate::text::lemma_no_char_concat(a + c, e, '_');
    crate::text::lemma_no_char_concat(a + c + e, al, '_');
    lemma_sha12_no_underscore(encode_utf8(hex4_join(sort_u16(non_grease(cipher_suites)))));
    lemma_sha12_no_underscore(encode_utf8(ja4_ext_hash_input(extensions, signature_algorithms)));
    let parts = seq![head, h1, h2];
    let u = seq!['_'];
    let p1 = seq![head];
    let p2 = p1.push(h1);
    assert(p2.push(h2) =~= parts);
    assert(p2.drop_last() =~= p1);
    assert(parts.drop_last() =~= p2);
    assert(join(p1, u) == head);
    assert(join(p2, u) == head + u + h1);
    assert(join(parts, u) == join(p2, u) + u + h2);
    assert forall|i: int| 0 <= i < parts.len() implies no_char(#[trigger] parts[i], '_') by {}
    lemma_split_join(parts, '_');
    assert((a + c + e + al)[0] == 't');
}

/// A ClientHello whose effective version is not TLS 1.0 to 1.3 is encoded
/// with the `00` version code, so it never collides with a TLS 1.3 JA4.
pub proof fn lemma_ja4_unknown_version_is_t00(
    version: u16,
    cipher_suites: Seq<u16>,
    extensions: Seq<u16>,
    alpn: Seq<Seq<u8>>,
    signature_algorithms: Seq<u16>,
    supported_versions: Seq<u16>,
)
    requires
        !(769 <= effective_version_of(version, supported_versions) <= 772),
    ensures
        ja4_of(version, cipher_suites, extensions, alpn, signature_algorithms, supported_versions).take(
            3,
        ) == seq!['t', '0', '0'],
{
    let j = ja4_of(version, cipher_suites, extensions, alpn, signature_algorithms, supported_versions);
    assert(j[0] == 't');
    assert(j[1] == '0');
    assert(j[2] == '0');
    assert(j.take(3) =~= seq!['t', '0', '0']);
}


// ───────────────────────── JA4 ignores GREASE and list order ─────────────────────────

proof fn lemma_non_grease_counts(s: Seq<u16>)
    ensures
        forall|v: u16|
            #[trigger] non_grease(s).to_multiset().count(v) == if is_grease_spec(v) {
                0
            } else {
                s.to_multiset().count(v)
            },
    decreases s.len(),
{
    broadcast use vstd::seq_lib::group_to_multiset_ensures;
    broadcast use vstd::multiset::group_multiset_axioms;

    if s.len() == 0 {
        assert(non_grease(s) =~= Seq::<u16>::empty());
        assert(s =~= Seq::<u16>::empty());
        assert(s.to_multiset() =~= vstd::multiset::Multiset::<u16>::empty());
        assert(non_grease(s).to_multiset() =~= vstd::multiset::Multiset::<u16>::empty());
    } else {
        let t = s.drop_last();
        let x = s.last();
        lemma_non_grease_counts(t);
        assert(t.push(x) =~= s);
        t.to_multiset_ensures();
        non_grease(t).to_multiset_ensures();
        assert(s.to_multiset() =~= t.to_multiset().insert(x));
        if !is_grease_spec(x) {
            assert(non_grease(s) == non_grease(t).push(x));
            assert(non_grease(s).to_multiset() =~= non_grease(t).to_multiset().insert(x));
        }
    }
}

proof fn lemma_drop_sni_alpn_counts(s: Seq<u16>)
    ensures
        forall|v: u16|
            #[trigger] drop_sni_alpn(s).to_multiset().count(v) == if v == 0 || v == 0x0010 {
                0
            } else {
                s.to_multiset().count(v)
            },
    decreases s.len(),
{
    broadcast use vstd::seq_lib::group_to_multiset_ensures;
    broadcast use vstd::multiset::group_multiset_axioms;

    if s.len() == 0 {
        assert(drop_sni_alpn(s) =~= Seq::<u16>::empty());
        assert(s =~= Seq::<u16>::empty());
        assert(s.to_multiset() =~= vstd::multiset::Multiset::<u16>::empty());
        assert(drop_sni_alpn(s).to_multiset() =~= vstd::multiset::Multiset::<u16>::empty());
    } else {
        let t = s.drop_last();
        let x = s.last();
        lemma_drop_sni_alpn_counts(t);
        assert(t.push(x) =~= s);
        t.to_multiset_ensures();
        drop_sni_alpn(t).to_multiset_ensures();
        assert(s.to_multiset() =~= t.to_multiset().insert(x));
        if !(x == 0 || x == 0x0010) {
            assert(drop_sni_alpn(s) == drop_sni_alpn(t).push(x));
            assert(drop_sni_alpn(s).to_multiset() =~= drop_sni_alpn(t).to_multiset().insert(x));
        }
    }
}

/// An ascending sequence is determined by which values it holds how often.
pub proof fn lemma_ascending_unique(a: Seq<u16>, b: Seq<u16>)
    requires
        is_ascending(a),
        is_ascending(b),
        a.to_multiset() == b.to_multiset(),
    ensures
        a == b,
{
    let leq = |x: u16, y: u16| x <= y;
    assert(vstd::relations::total_ordering(leq));
    assert(vstd::relations::sorted_by(a, leq));
    assert(vstd::relations::sorted_by(b, leq));
    vstd::seq_lib::lemma_sorted_unique(a, b, leq);
}

/// Sorting depends only on which values occur how often.
pub(crate) proof fn lemma_sort_determined(a: Seq<u16>, b: Seq<u16>)
    requires
        a.to_multiset() == b.to_multiset(),
    ensures
        sort_u16(a) == sort_u16(b),
{
    lemma_sort_u16(a);
    lemma_sort_u16(b);
    let leq = |x: u16, y: u16| x <= y;
    assert(vstd::relations::total_ordering(leq));
    assert(vstd::relations::sorted_by(sort_u16(a), leq));
    assert(vstd::relations::sorted_by(sort_u16(b), leq));
    vstd::seq_lib::lemma_sorted_unique(sort_u16(a), sort_u16(b), leq);
}

/// JA4 ignores GREASE and the order of the cipher and extension lists: two
/// ClientHellos whose non-GREASE ciphers and extensions are the same values,
/// equally often, in any order, and that agree on everything else, have the
/// same JA4.
pub proof fn lemma_ja4_ignores_grease_and_order(
    version: u16,
    ciphers_a: Seq<u16>,
    ciphers_b: Seq<u16>,
    extensions_a: Seq<u16>,
    extensions_b: Seq<u16>,
    alpn: Seq<Seq<u8>>,
    signature_algorithms: Seq<u16>,
    supported_versions: Seq<u16>,
)
    requires
        non_grease(ciphers_a).to_multiset() == non_grease(ciphers_b).to_multiset(),
        non_grease(extensions_a).to_multiset() == non_grease(extensions_b).to_multiset(),
    ensures
        ja4_of(version, ciphers_a, extensions_a, alpn, signature_algorithms, supported_versions)
            == ja4_of(version, ciphers_b, extensions_b, alpn, signature_algorithms, supported_versions),
{
    broadcast use vstd::seq_lib::group_to_multiset_ensures;

    let na = non_grease(extensions_a);
    let nb = non_grease(extensions_b);
    lemma_non_grease_counts(extensions_a);
    lemma_non_grease_counts(extensions_b);
    assert(!is_grease_spec(0)) by {
        assert(forall|i: int| 0 <= i < grease_values().len() ==> grease_values()[i] != 0);
    }
    assert(na.to_multiset().count(0) == extensions_a.to_multiset().count(0));
    assert(nb.to_multiset().count(0) == extensions_b.to_multiset().count(0));
    assert(extensions_a.contains(0) == extensions_b.contains(0));
    non_grease(ciphers_a).to_multiset_ensures();
    non_grease(ciphers_b).to_multiset_ensures();
    na.to_multiset_ensures();
    nb.to_multiset_ensures();
    extensions_a.to_multiset_ensures();
    extensions_b.to_multiset_ensures();
    assert(non_grease(ciphers_a).len() == non_grease(ciphers_b).len());
    assert(na.len() == nb.len());
    lemma_sort_determined(non_grease(ciphers_a), non_grease(ciphers_b));
    lemma_drop_sni_alpn_counts(na);
    lemma_drop_sni_alpn_counts(nb);
    assert(drop_sni_alpn(na).to_multiset() =~= drop_sni_alpn(nb).to_multiset());
    lemma_sort_determined(drop_sni_alpn(na), drop_sni_alpn(nb));
    assert(ja4_ext_hash_input(extensions_a, signature_algorithms) == ja4_ext_hash_input(
        extensions_b,
        signature_algorithms,
    ));
    assert(ja4_head_of(version, ciphers_a, extensions_a, alpn, supported_versions) == ja4_head_of(
        version,
        ciphers_b,
        extensions_b,
        alpn,
        supported_versions,
    ));
}

} // verus!
