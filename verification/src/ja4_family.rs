//! The server, latency and certificate members of the JA4+ family.
//!
//! Pure transforms over already-extracted handshake and certificate fields:
//! JA4S (ServerHello), JA4L (one-way latency and TTL) and JA4X (X.509
//! structure), plus the DER encoding of dotted OIDs that JA4X consumes.
use vstd::prelude::*;
use vstd::utf8::encode_utf8;
use crate::hash::{is_lower_hex, sha256_first_12_spec};
use crate::ja3::{
    hex4_join, hex4_join_exec, ja4_alpn, min99, non_grease, safe_char_exec, sha12_of_chars,
    sort_u16, sorted_u16, strip_grease,
};
use crate::text::{
    chars_of, dec, dec_pad, hex_pad, join, parse_uint, parse_unsigned, push_all, push_dec,
    push_dec_pad, push_hex_pad, push_joined, split, split_chars, string_from_chars, views,
};

verus! {

/// Transport protocol identifier used in the JA4 prefix.
#[derive(Debug, Clone, Copy, PartialEq, Eq, Structural)]
pub enum TransportProto {
    /// TCP TLS.
    Tcp,
    /// QUIC TLS.
    Quic,
    /// DTLS.
    Dtls,
}

impl TransportProto {
    pub open spec fn spec_char(self) -> char {
        match self {
            TransportProto::Tcp => 't',
            TransportProto::Quic => 'q',
            TransportProto::Dtls => 'd',
        }
    }

    /// Single-character prefix used by FoxIO.
    pub fn ja4_char(self) -> (c: char)
        ensures
            c == self.spec_char(),
    {
        match self {
            TransportProto::Tcp => 't',
            TransportProto::Quic => 'q',
            TransportProto::Dtls => 'd',
        }
    }
}

/// The two-character JA4S version code.
pub open spec fn tls_version_code(v: u16) -> Seq<char> {
    if v == 0x0304 {
        seq!['1', '3']
    } else if v == 0x0303 {
        seq!['1', '2']
    } else if v == 0x0302 {
        seq!['1', '1']
    } else if v == 0x0301 {
        seq!['1', '0']
    } else if v == 0x0300 {
        seq!['s', '3']
    } else if v == 0x0200 {
        seq!['s', '2']
    } else if v == 0xfeff {
        seq!['d', '1']
    } else if v == 0xfefd {
        seq!['d', '2']
    } else if v == 0xfefc {
        seq!['d', '3']
    } else {
        seq!['0', '0']
    }
}

fn tls_version_char(v: u16) -> (r: Vec<char>)
    ensures
        r@ == tls_version_code(v),
{
    let (a, b) = if v == 0x0304 {
        ('1', '3')
    } else if v == 0x0303 {
        ('1', '2')
    } else if v == 0x0302 {
        ('1', '1')
    } else if v == 0x0301 {
        ('1', '0')
    } else if v == 0x0300 {
        ('s', '3')
    } else if v == 0x0200 {
        ('s', '2')
    } else if v == 0xfeff {
        ('d', '1')
    } else if v == 0xfefd {
        ('d', '2')
    } else if v == 0xfefc {
        ('d', '3')
    } else {
        ('0', '0')
    };
    let mut r: Vec<char> = Vec::new();
    r.push(a);
    r.push(b);
    assert(r@ =~= tls_version_code(v));
    r
}

/// The UTF-8 bytes of each string.
pub open spec fn strings_bytes(v: Seq<String>) -> Seq<Seq<u8>> {
    v.map_values(|s: String| encode_utf8(s@))
}

/// The characters of each string.
pub open spec fn strings_view(v: Seq<String>) -> Seq<Seq<char>> {
    v.map_values(|s: String| s@)
}

/// Fields extracted from a TLS `ServerHello` used by JA4S.
#[derive(Debug, Clone, PartialEq, Eq)]
pub struct ServerHelloFields {
    /// Legacy protocol version encoded in the ServerHello.
    pub version: u16,
    /// Contents of the `supported_versions` extension (0x002b), if present.
    pub supported_versions: Vec<u16>,
    /// Selected cipher suite.
    pub cipher: u16,
    /// Extension type ids offered in the ServerHello, in wire order.
    pub extensions: Vec<u16>,
    /// Negotiated ALPN protocol, if any.
    pub alpn: Vec<String>,
    /// Transport protocol (TCP/QUIC/DTLS) for the prefix character.
    pub proto: TransportProto,
}

/// The zero sentinel JA4 uses in place of a hash of nothing.
pub open spec fn zero_hash() -> Seq<char> {
    seq!['0', '0', '0', '0', '0', '0', '0', '0', '0', '0', '0', '0']
}

fn zero_hash_exec() -> (r: Vec<char>)
    ensures
        r@ == zero_hash(),
{
    let mut r: Vec<char> = Vec::new();
    let mut i: usize = 0;
    while i < 12
        invariant
            i <= 12,
            r@ == Seq::new(i as nat, |_j: int| '0'),
        decreases 12 - i,
    {
        r.push('0');
        i = i + 1;
        assert(r@ =~= Seq::new(i as nat, |_j: int| '0'));
    }
    assert(r@ =~= zero_hash());
    r
}

impl ServerHelloFields {
    /// The version JA4S encodes: the first non-GREASE `supported_versions`
    /// entry, else the legacy field.
    pub open spec fn effective_version(&self) -> u16 {
        let v = non_grease(self.supported_versions@);
        if v.len() == 0 {
            self.version
        } else {
            v[0]
        }
    }

    /// The JA4S extension hash: the zero sentinel for no extensions, else the
    /// truncated SHA-256 of the sorted four-digit hex list.
    pub open spec fn ext_hash(&self) -> Seq<char> {
        if self.extensions@.len() == 0 {
            zero_hash()
        } else {
            sha256_first_12_spec(encode_utf8(hex4_join(sort_u16(self.extensions@))))
        }
    }

    /// `<proto><ver><ext_count><alpn>_<cipher>_<ext_hash>`.
    pub open spec fn ja4s(&self) -> Seq<char> {
        seq![self.proto.spec_char()] + tls_version_code(self.effective_version()) + dec_pad(
            min99(self.extensions@.len()),
            2,
        ) + ja4_alpn(strings_bytes(self.alpn@)) + seq!['_'] + hex_pad(self.cipher as nat, 4)
            + seq!['_'] + self.ext_hash()
    }

    /// The effective TLS version used by JA4S: the first non-GREASE entry of
    /// `supported_versions` when present, otherwise the legacy field.
    pub fn effective_tls_version(&self) -> (r: u16)
        ensures
            r == self.effective_version(),
    {
        let v = strip_grease(&self.supported_versions);
        if v.len() == 0 {
            self.version
        } else {
            v[0]
        }
    }
}

fn alpn_part(alpn: &Vec<String>) -> (r: Vec<char>)
    ensures
        r@ == ja4_alpn(strings_bytes(alpn@)),
{
    let mut r: Vec<char> = Vec::new();
    if alpn.len() > 0 {
        let bytes = alpn[0].as_str().as_bytes();
        assert(strings_bytes(alpn@)[0] == bytes@);
        if bytes.len() > 0 {
            r.push(safe_char_exec(bytes[0]));
            r.push(safe_char_exec(bytes[bytes.len() - 1]));
            assert(r@ =~= ja4_alpn(strings_bytes(alpn@)));
            return r;
        }
    }
    r.push('0');
    r.push('0');
    assert(r@ =~= ja4_alpn(strings_bytes(alpn@)));
    r
}

fn ja4s_head(fields: &ServerHelloFields) -> (r: Vec<char>)
    ensures
        r@ == seq![fields.proto.spec_char()] + tls_version_code(fields.effective_version())
            + dec_pad(min99(fields.extensions@.len()), 2) + ja4_alpn(strings_bytes(fields.alpn@)),
{
    let mut out: Vec<char> = Vec::new();
    out.push(fields.proto.ja4_char());
    let v = tls_version_char(fields.effective_tls_version());
    push_all(&mut out, &v);
    let n: u64 = if fields.extensions.len() < 99 {
        fields.extensions.len() as u64
    } else {
        99
    };
    push_dec_pad(&mut out, n, 2);
    let a = alpn_part(&fields.alpn);
    push_all(&mut out, &a);
    out
}

/// The FoxIO JA4S fingerprint for a captured `ServerHello`:
/// `<proto><ver><ext_count><alpn>_<cipher>_<ext_hash>`. The extension count
/// is that of every extension (capped at 99); the hash input is the
/// numerically sorted list.
pub fn compute_ja4s(fields: &ServerHelloFields) -> (s: String)
    ensures
        s@ == fields.ja4s(),
        s@.len() == 25,
        s@[7] == '_',
        s@[12] == '_',
        forall|i: int| 8 <= i < 12 || 13 <= i < 25 ==> is_lower_hex(#[trigger] s@[i]),
{
    let mut out = ja4s_head(fields);
    out.push('_');
    push_hex_pad(&mut out, fields.cipher as u64, 4);
    out.push('_');
    if fields.extensions.len() == 0 {
        let z = zero_hash_exec();
        push_all(&mut out, &z);
    } else {
        let sorted = sorted_u16(&fields.extensions);
        let input = hex4_join_exec(&sorted);
        let h = sha12_of_chars(&input);
        proof {
            crate::hash::lemma_hex_bytes_lower(crate::hash::sha256(encode_utf8(input@)).take(6));
        }
        push_all(&mut out, &h);
    }
    assert(out@ =~= fields.ja4s());
    proof {
        let n = min99(fields.extensions@.len());
        crate::tls_targets::lemma_count_digits_pad(n);
        crate::hash::lemma_hex_pad_u16(fields.cipher);
        let head = seq![fields.proto.spec_char()] + tls_version_code(fields.effective_version())
            + dec_pad(n, 2) + ja4_alpn(strings_bytes(fields.alpn@));
        let c = hex_pad(fields.cipher as nat, 4);
        let e = fields.ext_hash();
        assert(tls_version_code(fields.effective_version()).len() == 2);
        assert(head.len() == 7);
        assert(e.len() == 12);
        assert forall|i: int| 0 <= i < 12 implies is_lower_hex(#[trigger] e[i]) by {
            if fields.extensions@.len() == 0 {
                assert(e == zero_hash());
            }
        }
        assert(out@ =~= head + seq!['_'] + c + seq!['_'] + e);
        assert forall|i: int| 8 <= i < 12 || 13 <= i < 25 implies is_lower_hex(#[trigger] out@[i]) by {
            if i < 12 {
                assert(out@[i] == c[i - 8]);
            } else {
                assert(out@[i] == e[i - 13]);
            }
        }
    }
    string_from_chars(out.as_slice())
}

// ───────────────────────── JA4L ─────────────────────────

/// Which side of a connection produced a JA4L latency sample.
#[derive(Debug, Clone, Copy, PartialEq, Eq, Structural)]
pub enum LatencySide {
    /// Client-measured (the final ACK of a TCP three-way handshake).
    Client,
    /// Server-measured (the SYN-ACK).
    Server,
}

impl LatencySide {
    pub open spec fn spec_char(self) -> char {
        match self {
            LatencySide::Client => 'C',
            LatencySide::Server => 'S',
        }
    }

    fn ja4_char(self) -> (c: char)
        ensures
            c == self.spec_char(),
    {
        match self {
            LatencySide::Client => 'C',
            LatencySide::Server => 'S',
        }
    }
}

/// One JA4L light-distance sample.
#[derive(Debug, Clone, Copy, PartialEq, Eq, Structural)]
pub struct LatencySample {
    /// Which side produced the sample.
    pub side: LatencySide,
    /// One-way latency in microseconds (must be >= 1).
    pub latency_us: u64,
    /// IP TTL observed on the packet that produced the sample.
    pub ttl: u8,
}

/// `JA4L-<side>=<latency_us>_<ttl>`.
pub open spec fn ja4l_spec(side: LatencySide, latency_us: u64, ttl: u8) -> Seq<char> {
    seq!['J', 'A', '4', 'L', '-', side.spec_char(), '='] + dec(latency_us as nat) + seq!['_'] + dec(
        ttl as nat,
    )
}

/// The FoxIO JA4L latency fingerprint `JA4L-<side>=<latency_us>_<ttl>`.
pub fn compute_ja4l(sample: &LatencySample) -> (s: String)
    ensures
        s@ == ja4l_spec(sample.side, sample.latency_us, sample.ttl),
{
    let mut out: Vec<char> = Vec::new();
    out.push('J');
    out.push('A');
    out.push('4');
    out.push('L');
    out.push('-');
    out.push(sample.side.ja4_char());
    out.push('=');
    push_dec(&mut out, sample.latency_us);
    out.push('_');
    push_dec(&mut out, sample.ttl as u64);
    assert(out@ =~= ja4l_spec(sample.side, sample.latency_us, sample.ttl));
    string_from_chars(out.as_slice())
}

/// Which side of a TCP three-way handshake produced a packet.
#[derive(Debug, Clone, Copy, PartialEq, Eq, Structural)]
pub enum TcpHandshakeRole {
    /// Client SYN.
    Syn,
    /// Server SYN-ACK.
    SynAck,
    /// Client ACK.
    Ack,
}

/// A JA4L fingerprint from a TCP three-way handshake packet: `None` for a
/// SYN, which has no latency yet; the server side for a SYN-ACK and the
/// client side for an ACK, with the latency raised to at least one
/// microsecond.
pub fn compute_ja4l_from_tcp_handshake(role: TcpHandshakeRole, latency_us: u64, ttl: u8) -> (r:
    Option<String>)
    ensures
        role is Syn ==> r is None,
        role is SynAck ==> (r matches Some(s) && s@ == ja4l_spec(
            LatencySide::Server,
            if latency_us < 1 { 1 } else { latency_us },
            ttl,
        )),
        role is Ack ==> (r matches Some(s) && s@ == ja4l_spec(
            LatencySide::Client,
            if latency_us < 1 { 1 } else { latency_us },
            ttl,
        )),
{
    let lat: u64 = if latency_us < 1 {
        1
    } else {
        latency_us
    };
    let sample = match role {
        TcpHandshakeRole::Syn => {
            return None;
        },
        TcpHandshakeRole::SynAck => LatencySample { side: LatencySide::Server, latency_us: lat, ttl },
        TcpHandshakeRole::Ack => LatencySample { side: LatencySide::Client, latency_us: lat, ttl },
    };
    Some(compute_ja4l(&sample))
}

// ───────────────────────── OID → DER hex ─────────────────────────

/// Parse error returned when an OID string is not valid dotted-decimal form.
#[derive(Debug, Clone, PartialEq, Eq)]
pub struct OidParseError {
    oid: String,
}

impl OidParseError {
    /// The string that was rejected.
    pub closed spec fn rejected(&self) -> Seq<char> {
        self.oid@
    }

    /// `invalid OID dotted string: <oid>`.
    pub fn message(&self) -> (s: String)
        ensures
            s@ == oid_error_prefix() + self.rejected(),
    {
        let mut out: Vec<char> = Vec::new();
        let p = oid_error_prefix_exec();
        push_all(&mut out, &p);
        let o = chars_of(self.oid.as_str());
        push_all(&mut out, &o);
        string_from_chars(out.as_slice())
    }
}

pub open spec fn oid_error_prefix() -> Seq<char> {
    seq![
        'i', 'n', 'v', 'a', 'l', 'i', 'd', ' ', 'O', 'I', 'D', ' ', 'd', 'o', 't', 't', 'e', 'd', ' ',
        's', 't', 'r', 'i', 'n', 'g', ':', ' ',
    ]
}

fn oid_error_prefix_exec() -> (r: Vec<char>)
    ensures
        r@ == oid_error_prefix(),
{
    let r: Vec<char> = vec![
        'i', 'n', 'v', 'a', 'l', 'i', 'd', ' ', 'O', 'I', 'D', ' ', 'd', 'o', 't', 't', 'e', 'd', ' ',
        's', 't', 'r', 'i', 'n', 'g', ':', ' ',
    ];
    assert(r@ =~= oid_error_prefix());
    r
}

/// Every part parsed as a `u32`, or `None` when any part is not one.
pub open spec fn parse_all(parts: Seq<Seq<char>>) -> Option<Seq<nat>>
    decreases parts.len(),
{
    if parts.len() == 0 {
        Some(Seq::empty())
    } else {
        match (parse_all(parts.drop_last()), parse_unsigned(parts.last(), u32::MAX as nat)) {
            (Some(p), Some(v)) => Some(p.push(v)),
            _ => None,
        }
    }
}

/// The high-order base-128 digits of `w > 0`, each with the continuation bit.
pub open spec fn vlq_hi(w: nat) -> Seq<nat>
    decreases w,
{
    if w < 128 {
        seq![w + 128]
    } else {
        vlq_hi(w / 128).push(w % 128 + 128)
    }
}

/// The DER variable-length quantity encoding of one OID arc.
pub open spec fn vlq(v: nat) -> Seq<nat> {
    if v < 128 {
        seq![v]
    } else {
        vlq_hi(v / 128).push(v % 128)
    }
}

/// The encoding of every arc of `arcs`, concatenated.
pub open spec fn vlq_all(arcs: Seq<nat>) -> Seq<nat>
    decreases arcs.len(),
{
    if arcs.len() == 0 {
        Seq::empty()
    } else {
        vlq_all(arcs.drop_last()) + vlq(arcs.last())
    }
}

/// Two-digit (at least) lowercase hex of every value, concatenated.
pub open spec fn hex2_all(b: Seq<nat>) -> Seq<char>
    decreases b.len(),
{
    if b.len() == 0 {
        Seq::empty()
    } else {
        hex2_all(b.drop_last()) + hex_pad(b.last(), 2)
    }
}

/// The encoded arcs of a parsed OID: `first * 40 + second`, then each later
/// arc as a variable-length quantity.
pub open spec fn oid_bytes(arcs: Seq<nat>) -> Seq<nat> {
    seq![arcs[0] * 40 + arcs[1]] + vlq_all(arcs.skip(2))
}

/// The DER hex of a dotted OID, or `None` when it is not one (a part is not
/// a `u32`, or fewer than two parts).
pub open spec fn oid_hex(oid: Seq<char>) -> Option<Seq<char>> {
    match parse_all(split(oid, '.')) {
        Some(arcs) => if arcs.len() < 2 {
            None
        } else {
            Some(hex2_all(oid_bytes(arcs)))
        },
        None => None,
    }
}

/// The combined first byte `first * 40 + second` fits in a `u32`.
pub open spec fn oid_head_fits(oid: Seq<char>) -> bool {
    match parse_all(split(oid, '.')) {
        Some(arcs) => arcs.len() >= 2 ==> arcs[0] * 40 + arcs[1] <= u32::MAX,
        None => true,
    }
}

fn push_vlq_hi(out: &mut Vec<u32>, w: u32)
    requires
        w > 0,
    ensures
        final(out)@.map_values(|x: u32| x as nat) == old(out)@.map_values(|x: u32| x as nat)
            + vlq_hi(w as nat),
    decreases w,
{
    if w >= 128 {
        push_vlq_hi(out, w / 128);
    }
    let ghost before = out@;
    out.push(w % 128 + 128);
    assert(out@.map_values(|x: u32| x as nat) =~= before.map_values(|x: u32| x as nat).push(
        (w % 128 + 128) as nat,
    ));
}

fn push_vlq(out: &mut Vec<u32>, v: u32)
    ensures
        final(out)@.map_values(|x: u32| x as nat) == old(out)@.map_values(|x: u32| x as nat) + vlq(
            v as nat,
        ),
{
    if v >= 128 {
        push_vlq_hi(out, v / 128);
    }
    let ghost before = out@;
    out.push(v % 128);
    assert(out@.map_values(|x: u32| x as nat) =~= before.map_values(|x: u32| x as nat).push(
        (v % 128) as nat,
    ));
}

/// Parse every dotted part of `oid` as a `u32`; `None` when one fails.
fn parse_arcs(chars: &Vec<char>) -> (r: Option<Vec<u32>>)
    ensures
        match r {
            Some(v) => parse_all(split(chars@, '.')) == Some(v@.map_values(|x: u32| x as nat)),
            None => parse_all(split(chars@, '.')) is None,
        },
{
    let parts = split_chars(chars, '.');
    let ghost ps = split(chars@, '.');
    assert(views(parts@) == ps);
    let mut arcs: Vec<u32> = Vec::new();
    let mut i: usize = 0;
    while i < parts.len()
        invariant
            i <= parts@.len(),
            views(parts@) == ps,
            ps == split(chars@, '.'),
            ps.len() == parts@.len(),
            parse_all(ps.take(i as int)) == Some(arcs@.map_values(|x: u32| x as nat)),
        decreases parts@.len() - i,
    {
        assert(ps.take(i as int + 1).drop_last() =~= ps.take(i as int));
        assert(ps[i as int] == parts@[i as int]@);
        assert(ps.take(i as int + 1).last() == ps[i as int]);
        match parse_uint(&parts[i], 0xffff_ffff) {
            Some(v) => {
                let ghost before = arcs@;
                arcs.push(v as u32);
                assert(arcs@.map_values(|x: u32| x as nat) =~= before.map_values(|x: u32| x as nat).push(
                    v as nat,
                ));
            },
            None => {
                proof {
                    assert(parse_unsigned(ps[i as int], u32::MAX as nat) is None);
                    assert(parse_all(ps.take(i as int + 1)) is None);
                    lemma_parse_none_extends(ps, i as int + 1, ps.len() as int);
                    assert(ps.take(ps.len() as int) =~= ps);
                    assert(ps.take(ps.len() as int) =~= ps);
                }
                return None;
            },
        }
        i = i + 1;
    }
    assert(ps.take(ps.len() as int) =~= ps);
    Some(arcs)
}

proof fn lemma_parse_none_extends(ps: Seq<Seq<char>>, i: int, j: int)
    requires
        0 <= i <= j <= ps.len(),
        parse_all(ps.take(i)) is None,
    ensures
        parse_all(ps.take(j)) is None,
    decreases j - i,
{
    if j > i {
        lemma_parse_none_extends(ps, i, j - 1);
        assert(ps.take(j).drop_last() =~= ps.take(j - 1));
    }
}

/// ASN.1 DER-encode a dotted OID to lowercase hex: `first * 40 + second`,
/// then each later arc as a base-128 variable-length quantity, every value
/// rendered as at least two hex digits. An input that is not dotted decimal
/// `u32` arcs, or has fewer than two arcs, is an error carrying the input.
pub fn oid_to_hex(oid: &str) -> (r: Result<String, OidParseError>)
    requires
        oid_head_fits(oid@),
    ensures
        r is Ok <==> oid_hex(oid@) is Some,
        r matches Ok(s) ==> oid_hex(oid@) == Some(s@),
        r matches Err(e) ==> e.rejected() == oid@,
{
    let chars = chars_of(oid);
    let arcs = match parse_arcs(&chars) {
        Some(a) => a,
        None => {
            return Err(OidParseError { oid: string_from_chars(chars.as_slice()) });
        },
    };
    let ghost an = arcs@.map_values(|x: u32| x as nat);
    if arcs.len() < 2 {
        return Err(OidParseError { oid: string_from_chars(chars.as_slice()) });
    }
    assert(an[0] == arcs@[0] && an[1] == arcs@[1]);
    let mut bytes: Vec<u32> = Vec::new();
    bytes.push(arcs[0] * 40 + arcs[1]);
    assert(bytes@.map_values(|x: u32| x as nat) =~= seq![an[0] * 40 + an[1]]);
    let mut i: usize = 2;
    while i < arcs.len()
        invariant
            2 <= i <= arcs@.len(),
            an == arcs@.map_values(|x: u32| x as nat),
            bytes@.map_values(|x: u32| x as nat) == seq![an[0] * 40 + an[1]] + vlq_all(
                an.skip(2).take(i - 2),
            ),
        decreases arcs@.len() - i,
    {
        let ghost before = bytes@.map_values(|x: u32| x as nat);
        push_vlq(&mut bytes, arcs[i]);
        assert(an.skip(2).take(i - 1).drop_last() =~= an.skip(2).take(i - 2));
        assert(an.skip(2).take(i - 1).last() == an[i as int]);
        assert(bytes@.map_values(|x: u32| x as nat) =~= seq![an[0] * 40 + an[1]] + vlq_all(
            an.skip(2).take(i - 1),
        ));
        i = i + 1;
    }
    assert(an.skip(2).take(an.len() - 2) =~= an.skip(2));
    let ghost bn = bytes@.map_values(|x: u32| x as nat);
    assert(bn == oid_bytes(an));
    let mut out: Vec<char> = Vec::new();
    let mut k: usize = 0;
    while k < bytes.len()
        invariant
            k <= bytes@.len(),
            bn == bytes@.map_values(|x: u32| x as nat),
            out@ == hex2_all(bn.take(k as int)),
        decreases bytes@.len() - k,
    {
        assert(bn.take(k as int + 1).drop_last() =~= bn.take(k as int));
        assert(bn[k as int] == bytes@[k as int]);
        push_hex_pad(&mut out, bytes[k] as u64, 2);
        k = k + 1;
    }
    assert(bn.take(bn.len() as int) =~= bn);
    Ok(string_from_chars(out.as_slice()))
}

// ───────────────────────── JA4X ─────────────────────────

/// X.509 certificate fields used by JA4X: the hex-encoded OIDs of the
/// issuer and subject relative distinguished names and of the extensions,
/// in certificate order.
#[derive(Debug, Clone, PartialEq, Eq)]
pub struct CertificateFields {
    /// Hex-encoded issuer RDN OIDs, in order.
    pub issuer_rdns: Vec<String>,
    /// Hex-encoded subject RDN OIDs, in order.
    pub subject_rdns: Vec<String>,
    /// Hex-encoded extension OIDs, in order.
    pub extensions: Vec<String>,
}

impl Default for CertificateFields {
    fn default() -> (r: CertificateFields)
        ensures
            r.issuer_rdns@.len() == 0,
            r.subject_rdns@.len() == 0,
            r.extensions@.len() == 0,
    {
        CertificateFields { issuer_rdns: Vec::new(), subject_rdns: Vec::new(), extensions: Vec::new() }
    }
}

/// The zero sentinel for an empty list, else the truncated SHA-256 of the
/// comma-joined list.
pub open spec fn rdn_hash(values: Seq<String>) -> Seq<char> {
    if values.len() == 0 {
        zero_hash()
    } else {
        sha256_first_12_spec(encode_utf8(join(strings_view(values), seq![','])))
    }
}

fn hash_rdn_list(values: &Vec<String>) -> (r: Vec<char>)
    ensures
        r@ == rdn_hash(values@),
        r@.len() == 12,
        forall|i: int| 0 <= i < 12 ==> is_lower_hex(#[trigger] r@[i]),
{
    if values.len() == 0 {
        return zero_hash_exec();
    }
    let mut parts: Vec<Vec<char>> = Vec::new();
    let mut i: usize = 0;
    while i < values.len()
        invariant
            i <= values@.len(),
            parts@.len() == i,
            forall|q: int| 0 <= q < i ==> #[trigger] parts@[q]@ == values@[q]@,
        decreases values@.len() - i,
    {
        parts.push(chars_of(values[i].as_str()));
        i = i + 1;
    }
    assert(views(parts@) =~= strings_view(values@));
    let mut joined: Vec<char> = Vec::new();
    push_joined(&mut joined, &parts, ',');
    proof {
        crate::hash::lemma_hex_bytes_lower(crate::hash::sha256(encode_utf8(joined@)).take(6));
    }
    sha12_of_chars(&joined)
}

/// `<issuer_hash>_<subject_hash>_<extensions_hash>`.
pub open spec fn ja4x_spec(fields: CertificateFields) -> Seq<char> {
    rdn_hash(fields.issuer_rdns@) + seq!['_'] + rdn_hash(fields.subject_rdns@) + seq!['_'] + rdn_hash(
        fields.extensions@,
    )
}

/// The FoxIO JA4X certificate fingerprint
/// `<issuer_hash>_<subject_hash>_<extensions_hash>`: each hash the
/// truncated SHA-256 of the comma-joined hex OID list, or `000000000000`
/// for an empty list.
pub fn compute_ja4x(fields: &CertificateFields) -> (s: String)
    ensures
        s@ == ja4x_spec(*fields),
        s@.len() == 38,
        s@[12] == '_',
        s@[25] == '_',
        forall|i: int| 0 <= i < 12 || 13 <= i < 25 || 26 <= i < 38 ==> is_lower_hex(#[trigger] s@[i]),
{
    let a = hash_rdn_list(&fields.issuer_rdns);
    let mut out: Vec<char> = Vec::new();
    push_all(&mut out, &a);
    out.push('_');
    let b = hash_rdn_list(&fields.subject_rdns);
    push_all(&mut out, &b);
    out.push('_');
    let c = hash_rdn_list(&fields.extensions);
    push_all(&mut out, &c);
    assert(out@ =~= a@ + seq!['_'] + b@ + seq!['_'] + c@);
    assert forall|i: int| 0 <= i < 12 || 13 <= i < 25 || 26 <= i < 38 implies is_lower_hex(
        #[trigger] out@[i],
    ) by {
        if i < 12 {
            assert(out@[i] == a@[i]);
        } else if i < 25 {
            assert(out@[i] == b@[i - 13]);
        } else {
            assert(out@[i] == c@[i - 26]);
        }
    }
    string_from_chars(out.as_slice())
}


/// The number a sequence of base-128 digits (continuation bits ignored)
/// spells, most significant first.
pub open spec fn vlq_value(d: Seq<nat>) -> nat
    decreases d.len(),
{
    if d.len() == 0 {
        0
    } else {
        vlq_value(d.drop_last()) * 128 + d.last() % 128
    }
}

proof fn lemma_vlq_hi(w: nat)
    requires
        w > 0,
    ensures
        vlq_hi(w).len() >= 1,
        vlq_hi(w)[0] > 128,
        forall|i: int| 0 <= i < vlq_hi(w).len() ==> 128 <= #[trigger] vlq_hi(w)[i] < 256,
        vlq_value(vlq_hi(w)) == w,
    decreases w,
{
    if w >= 128 {
        let p = vlq_hi(w / 128);
        lemma_vlq_hi(w / 128);
        assert(vlq_hi(w) == p.push(w % 128 + 128));
        assert(vlq_hi(w).drop_last() =~= p);
        assert((w % 128 + 128) % 128 == w % 128);
        assert(vlq_value(vlq_hi(w)) == vlq_value(vlq_hi(w).drop_last()) * 128 + vlq_hi(w).last() % 128);
        assert(vlq_value(p) == w / 128);
        assert(vlq_value(vlq_hi(w)) == (w / 128) * 128 + w % 128);
        assert(w == (w / 128) * 128 + w % 128);
        assert forall|i: int| 0 <= i < vlq_hi(w).len() implies 128 <= #[trigger] vlq_hi(w)[i] < 256 by {
            if i < p.len() {
                assert(vlq_hi(w)[i] == p[i]);
            }
        }
    } else {
        assert(vlq_hi(w) == seq![w + 128]);
        assert(vlq_hi(w).drop_last() =~= Seq::<nat>::empty());
        assert(vlq_value(Seq::<nat>::empty()) == 0);
        assert((w + 128) % 128 == w);
        assert(vlq_value(vlq_hi(w)) == vlq_value(vlq_hi(w).drop_last()) * 128 + vlq_hi(w).last() % 128);
    }
}

/// Each OID arc after the first two is encoded as base-128 digits, most
/// significant first, that spell the arc back: every digit but the last
/// carries the continuation bit (128 to 255), the last does not (below 128),
/// and a multi-digit encoding never starts with a zero digit.
pub proof fn lemma_vlq_round_trip(v: nat)
    ensures
        vlq(v).len() >= 1,
        vlq(v).last() < 128,
        forall|i: int| 0 <= i < vlq(v).len() - 1 ==> 128 <= #[trigger] vlq(v)[i] < 256,
        vlq(v).len() > 1 ==> vlq(v)[0] > 128,
        vlq_value(vlq(v)) == v,
{
    if v >= 128 {
        let p = vlq_hi(v / 128);
        lemma_vlq_hi(v / 128);
        assert(vlq(v) == p.push(v % 128));
        assert(vlq(v).drop_last() =~= p);
        assert(vlq_value(vlq(v)) == vlq_value(vlq(v).drop_last()) * 128 + vlq(v).last() % 128);
        assert(vlq_value(p) == v / 128);
        assert(v == (v / 128) * 128 + v % 128);
        assert forall|i: int| 0 <= i < vlq(v).len() - 1 implies 128 <= #[trigger] vlq(v)[i] < 256 by {
            assert(vlq(v)[i] == p[i]);
        }
    } else {
        assert(vlq(v).drop_last() =~= Seq::<nat>::empty());
        assert(vlq_value(Seq::<nat>::empty()) == 0);
        assert(vlq_value(vlq(v)) == vlq_value(vlq(v).drop_last()) * 128 + vlq(v).last() % 128);
    }
}

/// A dotted OID has a hex encoding exactly when every part is a `u32` and
/// there are at least two; the encoding is then the two-digit hex of
/// `first * 40 + second` followed by the base-128 encoding of every later
/// arc (see [`lemma_vlq_round_trip`]), each value as two hex digits.
pub proof fn lemma_oid_hex_defined(oid: Seq<char>)
    ensures
        oid_hex(oid) is Some <==> (parse_all(split(oid, '.')) matches Some(arcs) && arcs.len() >= 2),
        match parse_all(split(oid, '.')) {
            Some(arcs) => arcs.len() >= 2 ==> oid_hex(oid) == Some(
                hex2_all(seq![arcs[0] * 40 + arcs[1]] + vlq_all(arcs.skip(2))),
            ),
            None => true,
        },
{
}


/// The JA4S extension hash is the truncated SHA-256 of the extension ids
/// as four-digit hex in ascending numeric order, whatever their wire order:
/// for any ascending list holding the same ids equally often.
pub proof fn lemma_ja4s_hashes_ascending_extensions(f: ServerHelloFields, sorted: Seq<u16>)
    requires
        f.extensions@.len() > 0,
        crate::ja3::is_ascending(sorted),
        sorted.to_multiset() == f.extensions@.to_multiset(),
    ensures
        f.ext_hash() == sha256_first_12_spec(encode_utf8(hex4_join(sorted))),
{
    crate::ja3::lemma_sort_u16(f.extensions@);
    crate::ja3::lemma_ascending_unique(sort_u16(f.extensions@), sorted);
}

/// JA4S ignores the wire order of the extensions: two ServerHellos that
/// agree on version, supported versions, cipher, ALPN and transport and
/// carry the same extension ids equally often have the same JA4S.
pub proof fn lemma_ja4s_ignores_extension_order(f: ServerHelloFields, g: ServerHelloFields)
    requires
        f.version == g.version,
        f.supported_versions@ == g.supported_versions@,
        f.cipher == g.cipher,
        f.alpn@ == g.alpn@,
        f.proto == g.proto,
        f.extensions@.to_multiset() == g.extensions@.to_multiset(),
    ensures
        f.ja4s() == g.ja4s(),
{
    f.extensions@.to_multiset_ensures();
    g.extensions@.to_multiset_ensures();
    assert(f.extensions@.len() == g.extensions@.len());
    crate::ja3::lemma_sort_determined(f.extensions@, g.extensions@);
}


/// One JA4X section as its definition reads: twelve `0`s for an empty
/// list, else the truncated SHA-256 of the text whose `,`-separated pieces
/// are the list's hex OIDs.
pub open spec fn ja4x_section_of(values: Seq<String>, text: Seq<char>) -> Seq<char> {
    if values.len() == 0 {
        seq!['0', '0', '0', '0', '0', '0', '0', '0', '0', '0', '0', '0']
    } else {
        sha256_first_12_spec(encode_utf8(text))
    }
}

/// JA4X is `<issuer>_<subject>_<extensions>`, each section twelve `0`s for
/// an empty list and otherwise the truncated SHA-256 of the UTF-8 of the
/// list's hex OIDs joined by `,`: of any text whose `,`-separated pieces
/// are exactly the list.
pub proof fn lemma_ja4x_sections(
    f: CertificateFields,
    issuer_text: Seq<char>,
    subject_text: Seq<char>,
    extensions_text: Seq<char>,
)
    requires
        f.issuer_rdns@.len() > 0 ==> split(issuer_text, ',') == strings_view(f.issuer_rdns@),
        f.subject_rdns@.len() > 0 ==> split(subject_text, ',') == strings_view(f.subject_rdns@),
        f.extensions@.len() > 0 ==> split(extensions_text, ',') == strings_view(f.extensions@),
    ensures
        ja4x_spec(f) == ja4x_section_of(f.issuer_rdns@, issuer_text) + seq!['_'] + ja4x_section_of(
            f.subject_rdns@,
            subject_text,
        ) + seq!['_'] + ja4x_section_of(f.extensions@, extensions_text),
{
    crate::text::lemma_join_split(issuer_text, ',');
    crate::text::lemma_join_split(subject_text, ',');
    crate::text::lemma_join_split(extensions_text, ',');
    assert(rdn_hash(f.issuer_rdns@) == ja4x_section_of(f.issuer_rdns@, issuer_text));
    assert(rdn_hash(f.subject_rdns@) == ja4x_section_of(f.subject_rdns@, subject_text));
    assert(rdn_hash(f.extensions@) == ja4x_section_of(f.extensions@, extensions_text));
}

} // verus!
