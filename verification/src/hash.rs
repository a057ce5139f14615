//! Hashing primitives behind the JA3 (MD5) and JA4 (SHA-256) digests.
//!
//! MD5 (RFC 1321) is implemented here and proved against a step-by-step
//! specification of the RFC. SHA-256 comes from the `sha2` crate; its digest is
//! a named function of the input bytes, and the twelve-character JA4
//! truncation and hex rendering on top of it are verified.
use vstd::prelude::*;
use vstd::string::StringSliceAdditionalSpecFns;
use crate::text::{hex_pad, push_hex_pad, string_from_chars};

verus! {

// ───────────────────────── MD5 specification ─────────────────────────

pub open spec fn md5_s() -> Seq<u32> {
    seq![
        7u32, 12, 17, 22, 7, 12, 17, 22, 7, 12, 17, 22, 7, 12, 17, 22, 5, 9, 14, 20, 5, 9, 14, 20, 5,
        9, 14, 20, 5, 9, 14, 20, 4, 11, 16, 23, 4, 11, 16, 23, 4, 11, 16, 23, 4, 11, 16, 23, 6, 10,
        15, 21, 6, 10, 15, 21, 6, 10, 15, 21, 6, 10, 15, 21,
    ]
}

pub open spec fn md5_k() -> Seq<u32> {
    seq![
        0xd76aa478u32, 0xe8c7b756, 0x242070db, 0xc1bdceee, 0xf57c0faf, 0x4787c62a, 0xa8304613,
        0xfd469501, 0x698098d8, 0x8b44f7af, 0xffff5bb1, 0x895cd7be, 0x6b901122, 0xfd987193,
        0xa679438e, 0x49b40821, 0xf61e2562, 0xc040b340, 0x265e5a51, 0xe9b6c7aa, 0xd62f105d,
        0x02441453, 0xd8a1e681, 0xe7d3fbc8, 0x21e1cde6, 0xc33707d6, 0xf4d50d87, 0x455a14ed,
        0xa9e3e905, 0xfcefa3f8, 0x676f02d9, 0x8d2a4c8a, 0xfffa3942, 0x8771f681, 0x6d9d6122,
        0xfde5380c, 0xa4beea44, 0x4bdecfa9, 0xf6bb4b60, 0xbebfbc70, 0x289b7ec6, 0xeaa127fa,
        0xd4ef3085, 0x04881d05, 0xd9d4d039, 0xe6db99e5, 0x1fa27cf8, 0xc4ac5665, 0xf4292244,
        0x432aff97, 0xab9423a7, 0xfc93a039, 0x655b59c3, 0x8f0ccc92, 0xffeff47d, 0x85845dd1,
        0x6fa87e4f, 0xfe2ce6e0, 0xa3014314, 0x4e0811a1, 0xf7537e82, 0xbd3af235, 0x2ad7d2bb,
        0xeb86d391,
    ]
}

pub open spec fn wadd(x: u32, y: u32) -> u32 {
    vstd::wrapping::u32_specs::wrapping_add(x, y)
}

/// Left rotation by `s` bits, `0 < s < 32`.
pub open spec fn rotl(x: u32, s: u32) -> u32 {
    (x << s) | (x >> ((32 - s) as u32))
}

/// The RFC 1321 round function of step `i`.
pub open spec fn md5_f(i: int, b: u32, c: u32, d: u32) -> u32 {
    if i < 16 {
        (b & c) | (!b & d)
    } else if i < 32 {
        (d & b) | (!d & c)
    } else if i < 48 {
        b ^ c ^ d
    } else {
        c ^ (b | !d)
    }
}

/// The message-word index used by step `i`.
pub open spec fn md5_g(i: int) -> int {
    if i < 16 {
        i
    } else if i < 32 {
        (5 * i + 1) % 16
    } else if i < 48 {
        (3 * i + 5) % 16
    } else {
        (7 * i) % 16
    }
}

/// Steps `i..64` of one MD5 compression over the sixteen words `m`.
pub open spec fn md5_steps(i: nat, st: (u32, u32, u32, u32), m: Seq<u32>) -> (u32, u32, u32, u32)
    decreases 64 - i,
{
    if i >= 64 {
        st
    } else {
        let (a, b, c, d) = st;
        let f = wadd(wadd(wadd(md5_f(i as int, b, c, d), a), md5_k()[i as int]), m[md5_g(i as int)]);
        md5_steps(i + 1, (d, wadd(b, rotl(f, md5_s()[i as int])), b, c), m)
    }
}

/// One MD5 compression: the 64 steps, then the feed-forward addition.
pub open spec fn md5_compress(st: (u32, u32, u32, u32), m: Seq<u32>) -> (u32, u32, u32, u32) {
    let (a, b, c, d) = md5_steps(0, st, m);
    (wadd(st.0, a), wadd(st.1, b), wadd(st.2, c), wadd(st.3, d))
}

/// Little-endian word at byte offset `off`.
pub open spec fn le_word(p: Seq<u8>, off: int) -> u32 {
    (p[off] as u32) | ((p[off + 1] as u32) << 8u32) | ((p[off + 2] as u32) << 16u32) | ((p[off + 3]
        as u32) << 24u32)
}

pub open spec fn block_words(p: Seq<u8>, blk: int) -> Seq<u32> {
    Seq::new(16, |w: int| le_word(p, 64 * blk + 4 * w))
}

pub open spec fn md5_init() -> (u32, u32, u32, u32) {
    (0x67452301u32, 0xefcdab89u32, 0x98badcfeu32, 0x10325476u32)
}

/// The state after compressing the first `n` 64-byte blocks of `p`.
pub open spec fn md5_blocks(p: Seq<u8>, n: nat) -> (u32, u32, u32, u32)
    decreases n,
{
    if n == 0 {
        md5_init()
    } else {
        md5_compress(md5_blocks(p, (n - 1) as nat), block_words(p, n - 1))
    }
}

/// The eight little-endian bytes of `x`.
pub open spec fn le64(x: u64) -> Seq<u8> {
    Seq::new(8, |i: int| ((x >> (8 * i) as u64) & 0xff) as u8)
}

/// RFC 1321 padding: `0x80`, zeros to 56 mod 64, then the bit length.
pub open spec fn md5_pad(msg: Seq<u8>) -> Seq<u8> {
    msg + seq![0x80u8] + Seq::new(((119 - msg.len() % 64) % 64) as nat, |_i: int| 0u8) + le64(
        ((msg.len() * 8) % 0x1_0000_0000_0000_0000) as u64,
    )
}

pub open spec fn word_le_bytes(w: u32) -> Seq<u8> {
    seq![(w & 0xff) as u8, ((w >> 8u32) & 0xff) as u8, ((w >> 16u32) & 0xff) as u8, ((w >> 24u32) & 0xff) as u8]
}

/// The sixteen-byte MD5 digest of `msg`.
pub open spec fn md5_digest(msg: Seq<u8>) -> Seq<u8> {
    let p = md5_pad(msg);
    let st = md5_blocks(p, p.len() / 64);
    word_le_bytes(st.0) + word_le_bytes(st.1) + word_le_bytes(st.2) + word_le_bytes(st.3)
}

/// Lowercase two-digit hex of every byte.
pub open spec fn hex_bytes(b: Seq<u8>) -> Seq<char>
    decreases b.len(),
{
    if b.len() == 0 {
        Seq::empty()
    } else {
        hex_bytes(b.drop_last()) + hex_pad(b.last() as nat, 2)
    }
}

/// The 32-character lowercase hex MD5 of `msg`.
pub open spec fn md5_hex(msg: Seq<u8>) -> Seq<char> {
    hex_bytes(md5_digest(msg))
}

// ───────────────────────── MD5 code ─────────────────────────

fn rotl_exec(x: u32, s: u32) -> (r: u32)
    requires
        0 < s < 32,
    ensures
        r == rotl(x, s),
{
    (x << s) | (x >> (32 - s))
}

fn le_word_exec(p: &Vec<u8>, off: usize) -> (r: u32)
    requires
        off + 4 <= p@.len(),
    ensures
        r == le_word(p@, off as int),
{
    let n = p.len();
    assert(off + 4 <= n);
    (p[off] as u32) | ((p[off + 1] as u32) << 8u32) | ((p[off + 2] as u32) << 16u32) | ((p[off + 3]
        as u32) << 24u32)
}

/// One MD5 compression of the 64-byte block of `padded` at `off`.
pub fn md5_round(state: (u32, u32, u32, u32), padded: &Vec<u8>, off: usize) -> (r: (u32, u32, u32, u32))
    requires
        off + 64 <= padded@.len(),
        off % 64 == 0,
    ensures
        r == md5_compress(state, block_words(padded@, off as int / 64)),
{
    let sh: [u32; 64] = [
        7, 12, 17, 22, 7, 12, 17, 22, 7, 12, 17, 22, 7, 12, 17, 22, 5, 9, 14, 20, 5, 9, 14, 20, 5,
        9, 14, 20, 5, 9, 14, 20, 4, 11, 16, 23, 4, 11, 16, 23, 4, 11, 16, 23, 4, 11, 16, 23, 6, 10,
        15, 21, 6, 10, 15, 21, 6, 10, 15, 21, 6, 10, 15, 21,
    ];
    let k: [u32; 64] = [
        0xd76aa478, 0xe8c7b756, 0x242070db, 0xc1bdceee, 0xf57c0faf, 0x4787c62a, 0xa8304613,
        0xfd469501, 0x698098d8, 0x8b44f7af, 0xffff5bb1, 0x895cd7be, 0x6b901122, 0xfd987193,
        0xa679438e, 0x49b40821, 0xf61e2562, 0xc040b340, 0x265e5a51, 0xe9b6c7aa, 0xd62f105d,
        0x02441453, 0xd8a1e681, 0xe7d3fbc8, 0x21e1cde6, 0xc33707d6, 0xf4d50d87, 0x455a14ed,
        0xa9e3e905, 0xfcefa3f8, 0x676f02d9, 0x8d2a4c8a, 0xfffa3942, 0x8771f681, 0x6d9d6122,
        0xfde5380c, 0xa4beea44, 0x4bdecfa9, 0xf6bb4b60, 0xbebfbc70, 0x289b7ec6, 0xeaa127fa,
        0xd4ef3085, 0x04881d05, 0xd9d4d039, 0xe6db99e5, 0x1fa27cf8, 0xc4ac5665, 0xf4292244,
        0x432aff97, 0xab9423a7, 0xfc93a039, 0x655b59c3, 0x8f0ccc92, 0xffeff47d, 0x85845dd1,
        0x6fa87e4f, 0xfe2ce6e0, 0xa3014314, 0x4e0811a1, 0xf7537e82, 0xbd3af235, 0x2ad7d2bb,
        0xeb86d391,
    ];
    assert(sh@ =~= md5_s());
    assert(k@ =~= md5_k());
    let mut m: Vec<u32> = Vec::new();
    let mut w: usize = 0;
    let ghost words = block_words(padded@, off as int / 64);
    while w < 16
        invariant
            w <= 16,
            off + 64 <= padded@.len(),
            off % 64 == 0,
            words == block_words(padded@, off as int / 64),
            m@ == words.take(w as int),
        decreases 16 - w,
    {
        m.push(le_word_exec(padded, off + 4 * w));
        w = w + 1;
        assert(m@ =~= words.take(w as int));
    }
    assert(m@ =~= words);
    let (mut a, mut b, mut c, mut d) = state;
    let mut i: usize = 0;
    while i < 64
        invariant
            i <= 64,
            m@ == words,
            words.len() == 16,
            sh@ == md5_s(),
            k@ == md5_k(),
            md5_steps(i as nat, (a, b, c, d), words) == md5_steps(0, state, words),
        decreases 64 - i,
    {
        let (f, g) = if i < 16 {
            ((b & c) | (!b & d), i)
        } else if i < 32 {
            ((d & b) | (!d & c), (5 * i + 1) % 16)
        } else if i < 48 {
            (b ^ c ^ d, (3 * i + 5) % 16)
        } else {
            (c ^ (b | !d), (7 * i) % 16)
        };
        assert(f == md5_f(i as int, b, c, d));
        assert(g == md5_g(i as int));
        let f2 = f.wrapping_add(a).wrapping_add(k[i]).wrapping_add(m[g]);
        let na = d;
        d = c;
        c = b;
        b = b.wrapping_add(rotl_exec(f2, sh[i]));
        a = na;
        i = i + 1;
    }
    let (a0, b0, c0, d0) = state;
    (a0.wrapping_add(a), b0.wrapping_add(b), c0.wrapping_add(c), d0.wrapping_add(d))
}

fn push_le_bytes(out: &mut Vec<char>, w: u32)
    ensures
        final(out)@ == old(out)@ + hex_bytes(word_le_bytes(w)),
{
    let bs: [u8; 4] = [(w & 0xff) as u8, ((w >> 8u32) & 0xff) as u8, ((w >> 16u32) & 0xff) as u8, ((w
        >> 24u32) & 0xff) as u8];
    let ghost wb = word_le_bytes(w);
    assert(bs@ =~= wb);
    let mut i: usize = 0;
    while i < 4
        invariant
            i <= 4,
            bs@ == wb,
            wb.len() == 4,
            out@ == old(out)@ + hex_bytes(wb.take(i as int)),
        decreases 4 - i,
    {
        push_hex_pad(out, bs[i] as u64, 2);
        i = i + 1;
        assert(wb.take(i as int).drop_last() =~= wb.take(i - 1));
        assert(out@ =~= old(out)@ + hex_bytes(wb.take(i as int)));
    }
    assert(wb.take(4) =~= wb);
}

proof fn lemma_hex_bytes_concat(a: Seq<u8>, b: Seq<u8>)
    ensures
        hex_bytes(a + b) == hex_bytes(a) + hex_bytes(b),
    decreases b.len(),
{
    if b.len() == 0 {
        assert(a + b =~= a);
        assert(hex_bytes(b) =~= Seq::<char>::empty());
        assert(hex_bytes(a) + hex_bytes(b) =~= hex_bytes(a));
    } else {
        lemma_hex_bytes_concat(a, b.drop_last());
        assert((a + b).drop_last() =~= a + b.drop_last());
        assert((a + b).last() == b.last());
        assert(hex_bytes(a + b) =~= hex_bytes(a) + hex_bytes(b));
    }
}

/// RFC 1321 padding of `bytes`.
fn md5_pad_exec(bytes: &[u8]) -> (padded: Vec<u8>)
    ensures
        padded@ == md5_pad(bytes@),
        padded@.len() % 64 == 0,
{
    let ghost msg = bytes@;
    let mut padded: Vec<u8> = Vec::new();
    let mut i: usize = 0;
    while i < bytes.len()
        invariant
            i <= bytes@.len(),
            bytes@ == msg,
            padded@ == msg.take(i as int),
        decreases bytes@.len() - i,
    {
        padded.push(bytes[i]);
        i = i + 1;
        assert(padded@ =~= msg.take(i as int));
    }
    assert(msg.take(msg.len() as int) =~= msg);
    padded.push(0x80);
    let zeros = (119 - bytes.len() % 64) % 64;
    let mut z: usize = 0;
    let ghost head = padded@;
    while z < zeros
        invariant
            z <= zeros,
            head == msg + seq![0x80u8],
            padded@ == head + Seq::new(z as nat, |_i: int| 0u8),
        decreases zeros - z,
    {
        padded.push(0);
        z = z + 1;
        assert(padded@ =~= head + Seq::new(z as nat, |_i: int| 0u8));
    }
    let bit_len: u64 = (bytes.len() as u64).wrapping_mul(8);
    assert(bit_len == ((msg.len() * 8) % 0x1_0000_0000_0000_0000) as u64);
    let mut j: u64 = 0;
    let ghost body = padded@;
    while j < 8
        invariant
            j <= 8,
            body == msg + seq![0x80u8] + Seq::new(zeros as nat, |_i: int| 0u8),
            padded@ == body + le64(bit_len).take(j as int),
        decreases 8 - j,
    {
        padded.push(((bit_len >> (8 * j)) & 0xff) as u8);
        j = j + 1;
        assert(padded@ =~= body + le64(bit_len).take(j as int));
    }
    assert(le64(bit_len).take(8) =~= le64(bit_len));
    assert(padded@ =~= md5_pad(msg));
    assert(padded@.len() == msg.len() + 1 + zeros + 8);
    assert((msg.len() + 1 + zeros + 8) % 64 == 0);
    padded
}

/// The lowercase hex MD5 digest of `input` (RFC 1321; the bit length is taken
/// modulo 2^64).
pub fn md5_string(input: &str) -> (s: String)
    ensures
        s@ == md5_hex(input.spec_bytes()),
{
    let padded = md5_pad_exec(input.as_bytes());
    let ghost msg = input.spec_bytes();
    let mut state: (u32, u32, u32, u32) = (0x67452301, 0xefcdab89, 0x98badcfe, 0x10325476);
    let mut off: usize = 0;
    while off < padded.len()
        invariant
            off <= padded@.len(),
            off % 64 == 0,
            padded@.len() % 64 == 0,
            padded@ == md5_pad(msg),
            state == md5_blocks(padded@, off as nat / 64),
        decreases padded@.len() - off,
    {
        state = md5_round(state, &padded, off);
        off = off + 64;
        assert((off as nat / 64 - 1) as nat == (off - 64) as nat / 64);
    }
    let mut out: Vec<char> = Vec::new();
    push_le_bytes(&mut out, state.0);
    push_le_bytes(&mut out, state.1);
    push_le_bytes(&mut out, state.2);
    push_le_bytes(&mut out, state.3);
    proof {
        let (s0, s1, s2, s3) = state;
        lemma_hex_bytes_concat(word_le_bytes(s0), word_le_bytes(s1));
        lemma_hex_bytes_concat(word_le_bytes(s0) + word_le_bytes(s1), word_le_bytes(s2));
        lemma_hex_bytes_concat(word_le_bytes(s0) + word_le_bytes(s1) + word_le_bytes(s2), word_le_bytes(s3));
        assert(out@ =~= md5_hex(msg));
    }
    string_from_chars(out.as_slice())
}

// ───────────────────────── SHA-256 ─────────────────────────

/// The SHA-256 digest of `data`, as computed by the `sha2` crate.
pub uninterp spec fn sha256(data: Seq<u8>) -> Seq<u8>;

/// SHA-256 of `data` via `sha2::Sha256::digest`. The contract claims that the
/// 32 returned bytes are the digest that `sha256` names: a function of the
/// input bytes alone.
#[verifier::external_body]
fn sha256_digest(data: &[u8]) -> (r: Vec<u8>)
    ensures
        r@ == sha256(data@),
        r@.len() == 32,
{
    <sha2::Sha256 as sha2::Digest>::digest(data).to_vec()
}

/// The first six bytes of `sha256(bytes)` as twelve lowercase hex characters.
pub open spec fn sha256_first_12_spec(bytes: Seq<u8>) -> Seq<char> {
    hex_bytes(sha256(bytes).take(6))
}

/// SHA-256 of `input`, truncated to the first six bytes as twelve hex chars.
pub fn sha256_first_12(input: &str) -> (s: String)
    ensures
        s@ == sha256_first_12_spec(input.spec_bytes()),
        s@.len() == 12,
{
    let digest = sha256_digest(input.as_bytes());
    let ghost d = digest@;
    let mut out: Vec<char> = Vec::new();
    let mut i: usize = 0;
    while i < 6
        invariant
            i <= 6,
            digest@ == d,
            d.len() == 32,
            out@ == hex_bytes(d.take(i as int)),
        decreases 6 - i,
    {
        push_hex_pad(&mut out, digest[i] as u64, 2);
        i = i + 1;
        assert(d.take(i as int).drop_last() =~= d.take(i - 1));
        assert(out@ =~= hex_bytes(d.take(i as int)));
    }
    proof {
        lemma_hex_bytes_len(d.take(6));
    }
    string_from_chars(out.as_slice())
}

pub proof fn lemma_hex_pad_byte_len(b: u8)
    ensures
        hex_pad(b as nat, 2).len() == 2,
{
    let n = b as nat;
    if n >= 16 {
        assert(n / 16 < 16);
        assert(crate::text::hex(n) == crate::text::hex(n / 16).push(crate::text::hex_char(n % 16)));
        assert(crate::text::hex(n / 16).len() == 1);
    }
}

pub proof fn lemma_hex_bytes_len(b: Seq<u8>)
    ensures
        hex_bytes(b).len() == 2 * b.len(),
    decreases b.len(),
{
    if b.len() > 0 {
        lemma_hex_bytes_len(b.drop_last());
        lemma_hex_pad_byte_len(b.last());
    }
}

/// A lowercase hexadecimal digit.
pub open spec fn is_lower_hex(c: char) -> bool {
    ('0' <= c && c <= '9') || ('a' <= c && c <= 'f')
}

proof fn lemma_hex_all_lower(n: nat)
    ensures
        forall|i: int| 0 <= i < crate::text::hex(n).len() ==> is_lower_hex(
            #[trigger] crate::text::hex(n)[i],
        ),
    decreases n,
{
    let h = crate::text::hex(n);
    assert(is_lower_hex(crate::text::hex_char(n % 16)));
    if n >= 16 {
        lemma_hex_all_lower(n / 16);
        let p = crate::text::hex(n / 16);
        assert(h == p.push(crate::text::hex_char(n % 16)));
        assert forall|i: int| 0 <= i < h.len() implies is_lower_hex(#[trigger] h[i]) by {
            if i < p.len() {
                assert(h[i] == p[i]);
            }
        }
    } else {
        assert(n % 16 == n);
        assert(h == seq![crate::text::hex_char(n)]);
    }
}

proof fn lemma_hex_pad_byte_lower(b: u8)
    ensures
        forall|i: int| 0 <= i < 2 ==> is_lower_hex(#[trigger] hex_pad(b as nat, 2)[i]),
{
    lemma_hex_pad_byte_len(b);
    lemma_hex_all_lower(b as nat);
    let h = crate::text::hex(b as nat);
    assert forall|i: int| 0 <= i < 2 implies is_lower_hex(#[trigger] hex_pad(b as nat, 2)[i]) by {
        if h.len() < 2 {
            let z = crate::text::zeros((2 - h.len()) as nat);
            assert(hex_pad(b as nat, 2) == z + h);
            if i < z.len() {
                assert((z + h)[i] == z[i]);
            } else {
                assert((z + h)[i] == h[i - z.len()]);
            }
        }
    }
}

/// A 16-bit value renders as four zero-padded lowercase hex digits.
pub proof fn lemma_hex_pad_u16(v: u16)
    ensures
        hex_pad(v as nat, 4).len() == 4,
        forall|i: int| 0 <= i < 4 ==> is_lower_hex(#[trigger] hex_pad(v as nat, 4)[i]),
{
    let n = v as nat;
    let h = crate::text::hex(n);
    crate::text::lemma_hex_len_pos(n);
    if n >= 16 {
        let a = n / 16;
        assert(h.len() == crate::text::hex(a).len() + 1);
        if a >= 16 {
            let b = a / 16;
            assert(crate::text::hex(a).len() == crate::text::hex(b).len() + 1);
            if b >= 16 {
                assert(crate::text::hex(b).len() == crate::text::hex(b / 16).len() + 1);
                assert(b / 16 < 16);
                assert(crate::text::hex(b / 16).len() == 1);
            }
        }
    }
    assert(h.len() <= 4);
    lemma_hex_all_lower(n);
    assert forall|i: int| 0 <= i < 4 implies is_lower_hex(#[trigger] hex_pad(n, 4)[i]) by {
        if h.len() < 4 {
            let z = crate::text::zeros((4 - h.len()) as nat);
            assert(hex_pad(n, 4) == z + h);
            if i < z.len() {
                assert((z + h)[i] == z[i]);
            } else {
                assert((z + h)[i] == h[i - z.len()]);
            }
        }
    }
}

/// Every character of a lowercase byte-hex rendering is a lowercase hex digit.
pub proof fn lemma_hex_bytes_lower(b: Seq<u8>)
    ensures
        forall|i: int| 0 <= i < hex_bytes(b).len() ==> is_lower_hex(#[trigger] hex_bytes(b)[i]),
    decreases b.len(),
{
    if b.len() > 0 {
        lemma_hex_bytes_lower(b.drop_last());
        lemma_hex_pad_byte_lower(b.last());
        lemma_hex_bytes_len(b.drop_last());
        lemma_hex_pad_byte_len(b.last());
        let a = hex_bytes(b.drop_last());
        let t = hex_pad(b.last() as nat, 2);
        assert forall|i: int| 0 <= i < (a + t).len() implies is_lower_hex(#[trigger] (a + t)[i]) by {
            if i < a.len() {
                assert((a + t)[i] == a[i]);
            } else {
                assert((a + t)[i] == t[i - a.len()]);
            }
        }
    }
}

/// An MD5 hex digest is always 32 lowercase hexadecimal digits.
pub proof fn lemma_md5_hex_shape(msg: Seq<u8>)
    ensures
        md5_hex(msg).len() == 32,
        forall|i: int| 0 <= i < 32 ==> is_lower_hex(#[trigger] md5_hex(msg)[i]),
{
    let d = md5_digest(msg);
    assert(d.len() == 16);
    lemma_hex_bytes_len(d);
    lemma_hex_bytes_lower(d);
}

} // verus!
