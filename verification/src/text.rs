//! Character-sequence primitives shared by every fingerprint renderer and
//! parser: decimal and hexadecimal rendering, unsigned-integer parsing with the
//! standard library's `str::parse` acceptance rules, splitting on a separator,
//! joining, substring search and ASCII case folding.
//!
//! Every function works over the `Seq<char>` view of `&str` / `String`, so the
//! contracts of the higher layers can be stated directly over text.
use vstd::prelude::*;
use vstd::string::StringSliceAdditionalSpecFns;
use vstd::utf8::{
    decode_utf8, encode_utf8, encode_utf8_decode_utf8, encode_utf8_valid_utf8, is_char_boundary,
    is_char_boundary_iff_not_is_continuation_byte, is_char_boundary_start_end_of_seq,
    valid_utf8_split,
};

verus! {

// ───────────────────────── conversions ─────────────────────────

/// The characters of `s`, in order.
pub fn chars_of(s: &str) -> (v: Vec<char>)
    ensures
        v@ == s@,
{
    let mut v: Vec<char> = Vec::new();
    for c in it: s.chars()
        invariant
            v@ == it.seq().take(it.index() as int),
            it.seq() == s@,
    {
        v.push(c);
    }
    v
}

/// Build a `String` holding exactly the characters of `v`, in order, with
/// std's `String::from_iter` over `&char`. Trusted: the contract claims the
/// documented behaviour, that the string is the characters collected.
#[verifier::external_body]
pub(crate) fn string_from_chars(v: &[char]) -> (s: String)
    ensures
        s@ == v@,
{
    String::from_iter(v)
}

/// Leak a `String` to a `&'static str` with the same characters, with
/// std's `String::leak`. Trusted: the contract claims the documented
/// behaviour, that the slice views the string's contents.
#[verifier::external_body]
pub(crate) fn leak_string(s: String) -> (r: &'static str)
    ensures
        r@ == s@,
{
    s.leak()
}

/// The `Debug` rendering of a string slice (quoted and escaped), as std
/// formats it.
pub uninterp spec fn str_debug(s: Seq<char>) -> Seq<char>;

/// `format!("{:?}", s)`: std's `Debug` for `str`. The contract names the
/// result as a function of the characters alone and says nothing more of it.
#[verifier::external_body]
pub(crate) fn debug_str(s: &str) -> (r: String)
    ensures
        r@ == str_debug(s@),
{
    format!("{:?}", s)
}

/// The UTF-8 encoding of a concatenation is the concatenation of the
/// encodings.
pub proof fn lemma_encode_utf8_concat(a: Seq<char>, b: Seq<char>)
    ensures
        encode_utf8(a + b) == encode_utf8(a) + encode_utf8(b),
    decreases a.len(),
{
    if a.len() > 0 {
        lemma_encode_utf8_concat(a.drop_first(), b);
        assert((a + b).drop_first() =~= a.drop_first() + b);
        assert((a + b)[0] == a[0]);
        assert(encode_utf8(a + b) == vstd::utf8::encode_scalar(a[0] as u32) + encode_utf8(
            a.drop_first() + b,
        ));
        assert(encode_utf8(a) == vstd::utf8::encode_scalar(a[0] as u32) + encode_utf8(
            a.drop_first(),
        ));
        assert(encode_utf8(a + b) =~= encode_utf8(a) + encode_utf8(b));
    } else {
        assert(a + b =~= b);
        assert(encode_utf8(a) + encode_utf8(b) =~= encode_utf8(b));
    }
}

/// Every UTF-8 encoding has at least one byte per character.
pub proof fn lemma_encode_utf8_len(c: Seq<char>)
    ensures
        encode_utf8(c).len() >= c.len(),
    decreases c.len(),
{
    if c.len() > 0 {
        lemma_encode_utf8_len(c.drop_first());
    }
}

/// `str::is_char_boundary`: whether byte `i` of `s` starts a character or
/// is its end.
pub fn char_boundary(s: &str, i: usize) -> (r: bool)
    ensures
        r == is_char_boundary(s.spec_bytes(), i as int),
{
    let b = s.as_bytes();
    proof {
        encode_utf8_valid_utf8(s@);
        vstd::utf8::is_char_boundary_start_end_of_seq(s.spec_bytes());
    }
    if i == 0 {
        true
    } else if i > b.len() {
        false
    } else if i == b.len() {
        true
    } else {
        proof {
            vstd::utf8::is_char_boundary_iff_not_is_continuation_byte(s.spec_bytes(), i as int);
        }
        let c = b[i];
        !(0x80 <= c && c <= 0xbf)
    }
}

/// The characters of the bytes `from..to` of `s` (`&s[from..to]`).
pub fn byte_range_chars(s: &str, from: usize, to: usize) -> (r: Vec<char>)
    requires
        from <= to <= s.spec_bytes().len(),
        is_char_boundary(s.spec_bytes(), from as int),
        is_char_boundary(s.spec_bytes(), to as int),
    ensures
        r@ == decode_utf8(s.spec_bytes().subrange(from as int, to as int)),
        encode_utf8(r@) == s.spec_bytes().subrange(from as int, to as int),
{
    let ghost b = s.spec_bytes();
    proof {
        encode_utf8_valid_utf8(s@);
        valid_utf8_split(b, from as int);
    }
    let (_head, rest) = s.split_at(from);
    let ghost rb = rest.spec_bytes();
    assert(rb =~= b.subrange(from as int, b.len() as int));
    proof {
        if to as int == b.len() {
            is_char_boundary_start_end_of_seq(rb);
        } else {
            is_char_boundary_iff_not_is_continuation_byte(b, to as int);
            is_char_boundary_iff_not_is_continuation_byte(rb, to - from);
            assert(rb[to - from] == b[to as int]);
        }
    }
    let (mid, _tail) = rest.split_at(to - from);
    assert(mid.spec_bytes() =~= b.subrange(from as int, to as int));
    proof {
        encode_utf8_decode_utf8(mid@);
    }
    chars_of(mid)
}

/// A `String` with the characters of `s`.
pub fn owned(s: &str) -> (r: String)
    ensures
        r@ == s@,
{
    let v = chars_of(s);
    string_from_chars(v.as_slice())
}

/// Character-wise equality of two strings.
pub fn str_eq(a: &str, b: &str) -> (r: bool)
    ensures
        r == (a@ == b@),
{
    let x = chars_of(a);
    let y = chars_of(b);
    seq_eq(&x, &y)
}

/// Element-wise equality of two character vectors.
pub fn seq_eq(x: &Vec<char>, y: &Vec<char>) -> (r: bool)
    ensures
        r == (x@ == y@),
{
    if x.len() != y.len() {
        return false;
    }
    let mut i: usize = 0;
    while i < x.len()
        invariant
            x@.len() == y@.len(),
            i <= x@.len(),
            forall|j: int| 0 <= j < i ==> x@[j] == y@[j],
        decreases x@.len() - i,
    {
        if x[i] != y[i] {
            return false;
        }
        i = i + 1;
    }
    assert(x@ =~= y@);
    true
}

// ───────────────────────── digits ─────────────────────────

pub open spec fn is_digit(c: char) -> bool {
    '0' <= c && c <= '9'
}

pub open spec fn digit_val(c: char) -> nat {
    (c as int - '0' as int) as nat
}

/// The lowercase hexadecimal digit for `d < 16`.
pub open spec fn hex_char(d: nat) -> char {
    if d < 10 {
        dec_char(d)
    } else if d == 10 {
        'a'
    } else if d == 11 {
        'b'
    } else if d == 12 {
        'c'
    } else if d == 13 {
        'd'
    } else if d == 14 {
        'e'
    } else {
        'f'
    }
}

/// The decimal digit character for `d < 10`.
pub open spec fn dec_char(d: nat) -> char {
    if d == 0 {
        '0'
    } else if d == 1 {
        '1'
    } else if d == 2 {
        '2'
    } else if d == 3 {
        '3'
    } else if d == 4 {
        '4'
    } else if d == 5 {
        '5'
    } else if d == 6 {
        '6'
    } else if d == 7 {
        '7'
    } else if d == 8 {
        '8'
    } else {
        '9'
    }
}

/// Minimal decimal rendering of `n` (what `n.to_string()` produces).
pub open spec fn dec(n: nat) -> Seq<char>
    decreases n,
{
    if n < 10 {
        seq![dec_char(n)]
    } else {
        dec(n / 10).push(dec_char(n % 10))
    }
}

/// Minimal lowercase hexadecimal rendering of `n` (what `{:x}` produces).
pub open spec fn hex(n: nat) -> Seq<char>
    decreases n,
{
    if n < 16 {
        seq![hex_char(n)]
    } else {
        hex(n / 16).push(hex_char(n % 16))
    }
}

/// `width` copies of `'0'`.
pub open spec fn zeros(width: nat) -> Seq<char> {
    Seq::new(width, |_i: int| '0')
}

/// Left-pad `s` with `'0'` to at least `width` characters (`{:0width}`).
pub open spec fn pad0(s: Seq<char>, width: nat) -> Seq<char> {
    if s.len() < width {
        zeros((width - s.len()) as nat) + s
    } else {
        s
    }
}

/// `{:0w}` of a decimal number.
pub open spec fn dec_pad(n: nat, width: nat) -> Seq<char> {
    pad0(dec(n), width)
}

/// `{:0wx}` of a number.
pub open spec fn hex_pad(n: nat, width: nat) -> Seq<char> {
    pad0(hex(n), width)
}

pub fn dec_digit(d: u64) -> (c: char)
    requires
        d < 10,
    ensures
        c == dec_char(d as nat),
{
    if d == 0 {
        '0'
    } else if d == 1 {
        '1'
    } else if d == 2 {
        '2'
    } else if d == 3 {
        '3'
    } else if d == 4 {
        '4'
    } else if d == 5 {
        '5'
    } else if d == 6 {
        '6'
    } else if d == 7 {
        '7'
    } else if d == 8 {
        '8'
    } else {
        '9'
    }
}

pub fn hex_digit(d: u64) -> (c: char)
    requires
        d < 16,
    ensures
        c == hex_char(d as nat),
{
    if d < 10 {
        dec_digit(d)
    } else if d == 10 {
        'a'
    } else if d == 11 {
        'b'
    } else if d == 12 {
        'c'
    } else if d == 13 {
        'd'
    } else if d == 14 {
        'e'
    } else {
        'f'
    }
}

/// Append the decimal rendering of `n`.
pub fn push_dec(out: &mut Vec<char>, n: u64)
    ensures
        final(out)@ == old(out)@ + dec(n as nat),
    decreases n,
{
    if n >= 10 {
        push_dec(out, n / 10);
    }
    let ghost before = out@;
    out.push(dec_digit(n % 10));
    proof {
        if n >= 10 {
            assert(dec(n as nat) == dec((n / 10) as nat).push(dec_char((n % 10) as nat)));
        }
    }
    assert(out@ =~= old(out)@ + dec(n as nat));
}

/// Append the lowercase hexadecimal rendering of `n`.
pub fn push_hex(out: &mut Vec<char>, n: u64)
    ensures
        final(out)@ == old(out)@ + hex(n as nat),
    decreases n,
{
    if n >= 16 {
        push_hex(out, n / 16);
    }
    out.push(hex_digit(n % 16));
    assert(out@ =~= old(out)@ + hex(n as nat));
}

pub proof fn lemma_dec_len_pos(n: nat)
    ensures
        dec(n).len() >= 1,
    decreases n,
{
    if n >= 10 {
        lemma_dec_len_pos(n / 10);
    }
}

pub proof fn lemma_hex_len_pos(n: nat)
    ensures
        hex(n).len() >= 1,
    decreases n,
{
    if n >= 16 {
        lemma_hex_len_pos(n / 16);
    }
}

/// Append `s` padded with leading zeros to `width`.
pub fn push_padded(out: &mut Vec<char>, s: &Vec<char>, width: usize)
    ensures
        final(out)@ == old(out)@ + pad0(s@, width as nat),
{
    if s.len() < width {
        let mut k: usize = 0;
        let pad = width - s.len();
        while k < pad
            invariant
                k <= pad,
                pad == width - s@.len(),
                out@ == old(out)@ + zeros(k as nat),
            decreases pad - k,
        {
            out.push('0');
            k = k + 1;
            assert(out@ =~= old(out)@ + zeros(k as nat));
        }
    }
    let mut i: usize = 0;
    let ghost mid = out@;
    while i < s.len()
        invariant
            i <= s@.len(),
            out@ == mid + s@.take(i as int),
        decreases s@.len() - i,
    {
        out.push(s[i]);
        i = i + 1;
        assert(out@ =~= mid + s@.take(i as int));
    }
    assert(s@.take(s@.len() as int) =~= s@);
    assert(out@ =~= old(out)@ + pad0(s@, width as nat));
}

/// Append `{:0width}` of `n`.
pub fn push_dec_pad(out: &mut Vec<char>, n: u64, width: usize)
    ensures
        final(out)@ == old(out)@ + dec_pad(n as nat, width as nat),
{
    let mut d: Vec<char> = Vec::new();
    push_dec(&mut d, n);
    assert(d@ =~= dec(n as nat));
    push_padded(out, &d, width);
}

/// Append `{:0widthx}` of `n`.
pub fn push_hex_pad(out: &mut Vec<char>, n: u64, width: usize)
    ensures
        final(out)@ == old(out)@ + hex_pad(n as nat, width as nat),
{
    let mut d: Vec<char> = Vec::new();
    push_hex(&mut d, n);
    assert(d@ =~= hex(n as nat));
    push_padded(out, &d, width);
}

/// Append the characters of `s`.
pub fn push_str(out: &mut Vec<char>, s: &str)
    ensures
        final(out)@ == old(out)@ + s@,
{
    let v = chars_of(s);
    push_all(out, &v);
}

/// Append every element of `v`.
pub fn push_all(out: &mut Vec<char>, v: &Vec<char>)
    ensures
        final(out)@ == old(out)@ + v@,
{
    let mut i: usize = 0;
    while i < v.len()
        invariant
            i <= v@.len(),
            out@ == old(out)@ + v@.take(i as int),
        decreases v@.len() - i,
    {
        out.push(v[i]);
        i = i + 1;
        assert(out@ =~= old(out)@ + v@.take(i as int));
    }
    assert(v@.take(v@.len() as int) =~= v@);
}

// ───────────────────────── parsing ─────────────────────────

pub open spec fn all_digits(s: Seq<char>) -> bool {
    forall|i: int| 0 <= i < s.len() ==> is_digit(#[trigger] s[i])
}

/// The value of a string of decimal digits (leading zeros allowed).
pub open spec fn digits_value(s: Seq<char>) -> nat
    decreases s.len(),
{
    if s.len() == 0 {
        0
    } else {
        digits_value(s.drop_last()) * 10 + digit_val(s.last())
    }
}

/// `str::parse::<uN>` where `max == uN::MAX`: an optional leading `+`, then a
/// non-empty run of decimal digits whose value does not exceed `max`.
pub open spec fn parse_unsigned(s: Seq<char>, max: nat) -> Option<nat> {
    let d = if s.len() > 0 && s[0] == '+' {
        s.drop_first()
    } else {
        s
    };
    if d.len() == 0 || !all_digits(d) || digits_value(d) > max {
        None
    } else {
        Some(digits_value(d))
    }
}

pub proof fn lemma_digits_value_prefix_mono(s: Seq<char>, i: int)
    requires
        0 <= i <= s.len(),
    ensures
        digits_value(s.take(i)) <= digits_value(s),
    decreases s.len() - i,
{
    if i < s.len() {
        lemma_digits_value_prefix_mono(s, i + 1);
        assert(s.take(i + 1).drop_last() =~= s.take(i));
    } else {
        assert(s.take(i) =~= s);
    }
}

/// `str::parse` of an unsigned integer type whose maximum is `max`.
pub fn parse_uint(s: &Vec<char>, max: u64) -> (r: Option<u64>)
    requires
        max <= u32::MAX,
    ensures
        r matches Some(v) ==> parse_unsigned(s@, max as nat) == Some(v as nat),
        r is None ==> parse_unsigned(s@, max as nat) is None,
{
    let start: usize = if s.len() > 0 && s[0] == '+' {
        1
    } else {
        0
    };
    let ghost d = s@.skip(start as int);
    assert(d =~= (if s@.len() > 0 && s@[0] == '+' {
        s@.drop_first()
    } else {
        s@
    }));
    if s.len() == start {
        return None;
    }
    let mut acc: u64 = 0;
    let mut i: usize = start;
    while i < s.len()
        invariant
            start <= i <= s@.len(),
            max <= u32::MAX,
            d == s@.skip(start as int),
            acc as nat == digits_value(d.take(i - start)),
            parse_unsigned(s@, max as nat) == (if d.len() == 0 || !all_digits(d) || digits_value(d)
                > max {
                None
            } else {
                Some(digits_value(d))
            }),
            acc <= max,
            all_digits(d.take(i - start)),
        decreases s@.len() - i,
    {
        let c = s[i];
        if !('0' <= c && c <= '9') {
            assert(d[i - start] == c);
            assert(!is_digit(d[i - start]));
            assert(!all_digits(d));
            return None;
        }
        let dv = (c as u64) - 48;
        let next = acc * 10 + dv;
        assert(d.take(i - start + 1).drop_last() =~= d.take(i - start));
        assert(d.take(i - start + 1).last() == c);
        if next > max {
            proof {
                lemma_digits_value_prefix_mono(d, i - start + 1);
                assert(digit_val(c) == dv);
                assert(digits_value(d.take(i - start + 1)) == next);
                assert(digits_value(d) > max);
            }
            return None;
        }
        acc = next;
        i = i + 1;
        assert(all_digits(d.take(i - start)));
    }
    assert(d.take(i - start) =~= d);
    Some(acc)
}

pub proof fn lemma_dec_all_digits(n: nat)
    ensures
        all_digits(dec(n)),
        dec(n).len() >= 1,
        digits_value(dec(n)) == n,
        dec(n)[0] != '+',
    decreases n,
{
    assert(digit_val(dec_char(n % 10)) == n % 10);
    if n < 10 {
        assert(dec(n).drop_last() =~= Seq::<char>::empty());
        assert(digits_value(Seq::<char>::empty()) == 0);
        assert(digits_value(dec(n)) == digits_value(dec(n).drop_last()) * 10 + digit_val(dec(n).last()));
    }
    if n >= 10 {
        lemma_dec_all_digits(n / 10);
        let p = dec(n / 10);
        assert(dec(n).drop_last() =~= p);
        assert(dec(n).last() == dec_char(n % 10));
        assert((n / 10) * 10 + n % 10 == n) by (nonlinear_arith);
        assert(digits_value(dec(n)) == digits_value(p) * 10 + digit_val(dec_char(n % 10)));
        assert forall|i: int| 0 <= i < dec(n).len() implies is_digit(#[trigger] dec(n)[i]) by {
            if i < p.len() {
                assert(dec(n)[i] == p[i]);
            }
        }
    }
}

/// Parsing the decimal rendering gives back the number.
pub proof fn lemma_parse_dec(n: nat, max: nat)
    requires
        n <= max,
    ensures
        parse_unsigned(dec(n), max) == Some(n),
{
    lemma_dec_all_digits(n);
}

// ───────────────────────── splitting and joining ─────────────────────────

/// `s.split(sep)`: the pieces between occurrences of `sep` (always at least one).
pub open spec fn split(s: Seq<char>, sep: char) -> Seq<Seq<char>>
    decreases s.len(),
{
    if s.len() == 0 {
        seq![Seq::<char>::empty()]
    } else {
        let p = split(s.drop_last(), sep);
        if s.last() == sep {
            p.push(Seq::<char>::empty())
        } else {
            p.update(p.len() - 1, p.last().push(s.last()))
        }
    }
}

pub proof fn lemma_split_len(s: Seq<char>, sep: char)
    ensures
        split(s, sep).len() >= 1,
    decreases s.len(),
{
    if s.len() > 0 {
        lemma_split_len(s.drop_last(), sep);
    }
}

pub open spec fn views(v: Seq<Vec<char>>) -> Seq<Seq<char>> {
    v.map_values(|x: Vec<char>| x@)
}

/// Split `s` at every occurrence of `sep`.
pub fn split_chars(s: &Vec<char>, sep: char) -> (parts: Vec<Vec<char>>)
    ensures
        views(parts@) == split(s@, sep),
{
    let mut parts: Vec<Vec<char>> = Vec::new();
    let mut cur: Vec<char> = Vec::new();
    let mut i: usize = 0;
    while i < s.len()
        invariant
            i <= s@.len(),
            views(parts@).push(cur@) == split(s@.take(i as int), sep),
        decreases s@.len() - i,
    {
        let c = s[i];
        let ghost old_parts = views(parts@);
        let ghost old_cur = cur@;
        proof {
            lemma_split_len(s@.take(i as int), sep);
            assert(s@.take(i as int + 1).drop_last() =~= s@.take(i as int));
        }
        if c == sep {
            let done = cur;
            parts.push(done);
            cur = Vec::new();
            assert(views(parts@) =~= old_parts.push(old_cur));
            assert(views(parts@).push(cur@) =~= split(s@.take(i as int + 1), sep));
        } else {
            cur.push(c);
            assert(views(parts@).push(cur@) =~= split(s@.take(i as int + 1), sep));
        }
        i = i + 1;
    }
    let ghost before = views(parts@);
    parts.push(cur);
    assert(views(parts@) =~= before.push(cur@));
    assert(s@.take(s@.len() as int) =~= s@);
    parts
}

/// `parts.join(sep)`.
pub open spec fn join(parts: Seq<Seq<char>>, sep: Seq<char>) -> Seq<char>
    decreases parts.len(),
{
    if parts.len() == 0 {
        Seq::empty()
    } else if parts.len() == 1 {
        parts[0]
    } else {
        join(parts.drop_last(), sep) + sep + parts.last()
    }
}

pub open spec fn no_char(s: Seq<char>, c: char) -> bool {
    forall|i: int| 0 <= i < s.len() ==> s[i] != c
}

pub proof fn lemma_split_append_plain(s: Seq<char>, b: Seq<char>, sep: char)
    requires
        no_char(b, sep),
    ensures
        split(s + b, sep) == split(s, sep).update(
            split(s, sep).len() - 1,
            split(s, sep).last() + b,
        ),
    decreases b.len(),
{
    lemma_split_len(s, sep);
    if b.len() == 0 {
        assert(s + b =~= s);
        assert(split(s, sep).last() + b =~= split(s, sep).last());
        assert(split(s, sep).update(split(s, sep).len() - 1, split(s, sep).last() + b)
            =~= split(s, sep));
    } else {
        let b0 = b.drop_last();
        lemma_split_append_plain(s, b0, sep);
        assert((s + b).drop_last() =~= s + b0);
        assert((s + b).last() == b.last());
        assert(split(s, sep).last() + b0 + seq![b.last()] =~= split(s, sep).last() + b);
        let p = split(s + b0, sep);
        assert(p.last() == split(s, sep).last() + b0);
        assert(p.last().push(b.last()) =~= split(s, sep).last() + b);
        assert(split(s + b, sep) =~= split(s, sep).update(
            split(s, sep).len() - 1,
            split(s, sep).last() + b,
        ));
    }
}

pub proof fn lemma_split_plain(b: Seq<char>, sep: char)
    requires
        no_char(b, sep),
    ensures
        split(b, sep) == seq![b],
{
    lemma_split_append_plain(Seq::empty(), b, sep);
    assert(Seq::<char>::empty() + b =~= b);
    assert(Seq::<char>::empty() + b =~= b);
    assert(seq![Seq::<char>::empty()].update(0, Seq::<char>::empty() + b) =~= seq![b]);
}

/// Splitting a join of separator-free pieces gives the pieces back.
pub proof fn lemma_split_join(parts: Seq<Seq<char>>, sep: char)
    requires
        parts.len() >= 1,
        forall|i: int| 0 <= i < parts.len() ==> no_char(#[trigger] parts[i], sep),
    ensures
        split(join(parts, seq![sep]), sep) == parts,
    decreases parts.len(),
{
    if parts.len() == 1 {
        lemma_split_plain(parts[0], sep);
        assert(seq![parts[0]] =~= parts);
    } else {
        let init = parts.drop_last();
        assert forall|i: int| 0 <= i < init.len() implies no_char(#[trigger] init[i], sep) by {
            assert(init[i] == parts[i]);
        }
        lemma_split_join(init, sep);
        let j = join(init, seq![sep]);
        let with_sep = j + seq![sep];
        assert(with_sep.drop_last() =~= j);
        assert(split(with_sep, sep) == split(j, sep).push(Seq::<char>::empty()));
        assert(no_char(parts.last(), sep));
        lemma_split_append_plain(with_sep, parts.last(), sep);
        assert(join(parts, seq![sep]) == j + seq![sep] + parts.last());
        assert(split(with_sep, sep).last() + parts.last() =~= parts.last());
        assert(split(join(parts, seq![sep]), sep) =~= parts);
    }
}

/// Mapping a concatenation maps each part.
pub proof fn lemma_map_values_add<A, B>(x: Seq<A>, y: Seq<A>, f: spec_fn(A) -> B)
    ensures
        (x + y).map_values(f) == x.map_values(f) + y.map_values(f),
{
    assert((x + y).map_values(f) =~= x.map_values(f) + y.map_values(f));
}

/// A template filled in: `pieces[0]`, then each value followed by the next
/// piece (`pieces` holds one more entry than `values`).
pub open spec fn fill(pieces: Seq<Seq<char>>, values: Seq<Seq<char>>) -> Seq<char>
    decreases values.len(),
{
    if values.len() == 0 {
        if pieces.len() > 0 {
            pieces[0]
        } else {
            Seq::empty()
        }
    } else {
        fill(pieces.take(values.len() as int), values.drop_last()) + values.last()
            + pieces[values.len() as int]
    }
}

/// Fill a template: the first piece, then each value followed by the next
/// piece.
pub fn fill_template(pieces: &Vec<&str>, values: &Vec<String>) -> (r: String)
    requires
        pieces@.len() == values@.len() + 1,
    ensures
        r@ == fill(pieces@.map_values(|p: &str| p@), values@.map_values(|v: String| v@)),
{
    let ghost ps = pieces@.map_values(|p: &str| p@);
    let ghost vs = values@.map_values(|v: String| v@);
    let mut out: Vec<char> = Vec::new();
    push_str(&mut out, pieces[0]);
    assert(ps.take(1).len() == 1);
    let mut i: usize = 0;
    while i < values.len()
        invariant
            i <= values@.len(),
            pieces@.len() == values@.len() + 1,
            ps == pieces@.map_values(|p: &str| p@),
            vs == values@.map_values(|v: String| v@),
            out@ == fill(ps.take(i as int + 1), vs.take(i as int)),
        decreases values@.len() - i,
    {
        assert(ps.take(i as int + 2).take(i as int + 1) =~= ps.take(i as int + 1));
        assert(vs.take(i as int + 1).drop_last() =~= vs.take(i as int));
        push_str(&mut out, values[i].as_str());
        push_str(&mut out, pieces[i + 1]);
        i = i + 1;
    }
    assert(ps.take(values@.len() as int + 1) =~= ps);
    assert(vs.take(values@.len() as int) =~= vs);
    string_from_chars(out.as_slice())
}

/// Append `parts.join(sep)` for a string separator.
pub fn push_joined_str(out: &mut Vec<char>, parts: &Vec<Vec<char>>, sep: &str)
    ensures
        final(out)@ == old(out)@ + join(views(parts@), sep@),
{
    let mut i: usize = 0;
    while i < parts.len()
        invariant
            i <= parts@.len(),
            out@ == old(out)@ + join(views(parts@.take(i as int)), sep@),
        decreases parts@.len() - i,
    {
        assert(views(parts@.take(i as int + 1)).drop_last() =~= views(parts@.take(i as int)));
        if i > 0 {
            push_str(out, sep);
        }
        push_all(out, &parts[i]);
        i = i + 1;
        proof {
            let t = views(parts@.take(i as int));
            if i == 1 {
                assert(join(views(parts@.take(0)), sep@) =~= Seq::<char>::empty());
                assert(out@ =~= old(out)@ + join(t, sep@));
            } else {
                assert(t.last() == parts@[i - 1]@);
                assert(out@ =~= old(out)@ + join(t, sep@));
            }
        }
    }
    assert(parts@.take(parts@.len() as int) =~= parts@);
}

/// Append `parts.join(sep)` character by character.
pub fn push_joined(out: &mut Vec<char>, parts: &Vec<Vec<char>>, sep: char)
    ensures
        final(out)@ == old(out)@ + join(views(parts@), seq![sep]),
{
    let mut i: usize = 0;
    while i < parts.len()
        invariant
            i <= parts@.len(),
            out@ == old(out)@ + join(views(parts@.take(i as int)), seq![sep]),
        decreases parts@.len() - i,
    {
        let ghost before = out@;
        assert(views(parts@.take(i as int + 1)).drop_last() =~= views(parts@.take(i as int)));
        if i > 0 {
            out.push(sep);
        }
        push_all(out, &parts[i]);
        i = i + 1;
        proof {
            let t = views(parts@.take(i as int));
            if i == 1 {
                assert(join(views(parts@.take(0)), seq![sep]) =~= Seq::<char>::empty());
                assert(out@ =~= old(out)@ + join(t, seq![sep]));
            } else {
                assert(t.last() == parts@[i - 1]@);
                assert(out@ =~= old(out)@ + join(t, seq![sep]));
            }
        }
    }
    assert(parts@.take(parts@.len() as int) =~= parts@);
}

// ───────────────────────── searching ─────────────────────────

/// `needle` occurs in `hay` starting at `i`.
pub open spec fn occurs_at(hay: Seq<char>, needle: Seq<char>, i: int) -> bool {
    0 <= i && i + needle.len() <= hay.len() && hay.subrange(i, i + needle.len()) == needle
}

/// `hay.contains(needle)` for a string needle.
pub open spec fn contains(hay: Seq<char>, needle: Seq<char>) -> bool {
    exists|i: int| occurs_at(hay, needle, i)
}

pub open spec fn starts_with(hay: Seq<char>, needle: Seq<char>) -> bool {
    occurs_at(hay, needle, 0)
}

/// The first occurrence of `needle` in `hay`.
pub open spec fn first_occurrence(hay: Seq<char>, needle: Seq<char>) -> Option<int> {
    if contains(hay, needle) {
        Some(choose|i: int| occurs_at(hay, needle, i) && forall|j: int| 0 <= j < i ==> !occurs_at(hay, needle, j))
    } else {
        None
    }
}

fn occurs_at_exec(hay: &Vec<char>, needle: &Vec<char>, i: usize) -> (r: bool)
    requires
        i + needle@.len() <= hay@.len(),
    ensures
        r == occurs_at(hay@, needle@, i as int),
{
    let mut k: usize = 0;
    assert(hay@.len() == hay.len());
    while k < needle.len()
        invariant
            k <= needle@.len(),
            hay@.len() <= usize::MAX,
            i + needle@.len() <= hay@.len(),
            forall|j: int| 0 <= j < k ==> hay@[i + j] == needle@[j],
        decreases needle@.len() - k,
    {
        if hay[i + k] != needle[k] {
            assert(hay@.subrange(i as int, i + needle@.len())[k as int] != needle@[k as int]);
            return false;
        }
        k = k + 1;
    }
    assert(hay@.subrange(i as int, i + needle@.len()) =~= needle@);
    true
}

/// Index of the first occurrence of `needle` in `hay`.
pub fn find_seq(hay: &Vec<char>, needle: &Vec<char>) -> (r: Option<usize>)
    ensures
        r matches Some(i) ==> occurs_at(hay@, needle@, i as int) && forall|j: int|
            0 <= j < i ==> !occurs_at(hay@, needle@, j),
        r is None ==> !contains(hay@, needle@),
        r matches Some(i) ==> first_occurrence(hay@, needle@) == Some(i as int),
        r is None ==> first_occurrence(hay@, needle@) is None,
{
    if needle.len() > hay.len() {
        return None;
    }
    let last = hay.len() - needle.len();
    let mut i: usize = 0;
    loop
        invariant
            last == hay@.len() - needle@.len(),
            i <= last,
            forall|j: int| 0 <= j < i ==> !occurs_at(hay@, needle@, j),
        decreases last - i,
    {
        if occurs_at_exec(hay, needle, i) {
            proof {
                assert(contains(hay@, needle@));
                let c = choose|k: int| occurs_at(hay@, needle@, k) && forall|j: int| 0 <= j < k ==> !occurs_at(hay@, needle@, j);
                assert(occurs_at(hay@, needle@, c) && forall|j: int| 0 <= j < c ==> !occurs_at(hay@, needle@, j));
                if c < i { } else if c > i { assert(!occurs_at(hay@, needle@, i as int)); }
            }
            return Some(i);
        }
        if i == last {
            assert forall|j: int| !occurs_at(hay@, needle@, j) by {
                if 0 <= j <= last {} 
            }
            return None;
        }
        i = i + 1;
    }
}

/// `hay.contains(needle)`.
pub fn contains_str(hay: &str, needle: &str) -> (r: bool)
    ensures
        r == contains(hay@, needle@),
{
    let h = chars_of(hay);
    let n = chars_of(needle);
    find_seq(&h, &n).is_some()
}

/// `hay.starts_with(needle)`.
pub fn starts_with_chars(hay: &Vec<char>, needle: &Vec<char>) -> (r: bool)
    ensures
        r == starts_with(hay@, needle@),
{
    if needle.len() > hay.len() {
        return false;
    }
    occurs_at_exec(hay, needle, 0)
}

/// `hay.starts_with(needle)`.
pub fn starts_with_str(hay: &str, needle: &str) -> (r: bool)
    ensures
        r == starts_with(hay@, needle@),
{
    let h = chars_of(hay);
    let n = chars_of(needle);
    starts_with_chars(&h, &n)
}

// ───────────────────────── ASCII case folding ─────────────────────────

pub open spec fn lower_char(c: char) -> char {
    if 'A' <= c && c <= 'Z' {
        ((c as u32 + 32) as u8) as char
    } else {
        c
    }
}

pub open spec fn upper_char(c: char) -> char {
    if 'a' <= c && c <= 'z' {
        ((c as u32 - 32) as u8) as char
    } else {
        c
    }
}

/// `to_ascii_lowercase`.
pub open spec fn lower(s: Seq<char>) -> Seq<char> {
    s.map_values(|c: char| lower_char(c))
}

/// `to_ascii_uppercase`.
pub open spec fn upper(s: Seq<char>) -> Seq<char> {
    s.map_values(|c: char| upper_char(c))
}

pub fn lower_char_exec(c: char) -> (r: char)
    ensures
        r == lower_char(c),
{
    if 'A' <= c && c <= 'Z' {
        (((c as u32) + 32) as u8) as char
    } else {
        c
    }
}

pub fn upper_char_exec(c: char) -> (r: char)
    ensures
        r == upper_char(c),
{
    if 'a' <= c && c <= 'z' {
        (((c as u32) - 32) as u8) as char
    } else {
        c
    }
}

pub fn lower_chars(s: &Vec<char>) -> (r: Vec<char>)
    ensures
        r@ == lower(s@),
{
    let mut r: Vec<char> = Vec::new();
    let mut i: usize = 0;
    while i < s.len()
        invariant
            i <= s@.len(),
            r@ == lower(s@.take(i as int)),
        decreases s@.len() - i,
    {
        r.push(lower_char_exec(s[i]));
        i = i + 1;
        assert(r@ =~= lower(s@.take(i as int)));
    }
    assert(s@.take(s@.len() as int) =~= s@);
    r
}

pub fn upper_chars(s: &Vec<char>) -> (r: Vec<char>)
    ensures
        r@ == upper(s@),
{
    let mut r: Vec<char> = Vec::new();
    let mut i: usize = 0;
    while i < s.len()
        invariant
            i <= s@.len(),
            r@ == upper(s@.take(i as int)),
        decreases s@.len() - i,
    {
        r.push(upper_char_exec(s[i]));
        i = i + 1;
        assert(r@ =~= upper(s@.take(i as int)));
    }
    assert(s@.take(s@.len() as int) =~= s@);
    r
}

// ───────────────────────── single-character search ─────────────────────────

/// Index of the first `c` in `s`.
pub open spec fn find_char(s: Seq<char>, c: char) -> Option<int>
    decreases s.len(),
{
    if s.len() == 0 {
        None
    } else if s[0] == c {
        Some(0)
    } else {
        match find_char(s.drop_first(), c) {
            Some(k) => Some(k + 1),
            None => None,
        }
    }
}

pub proof fn lemma_find_char(s: Seq<char>, c: char)
    ensures
        find_char(s, c) matches Some(k) ==> 0 <= k < s.len() && s[k] == c && no_char(s.take(k), c),
        find_char(s, c) is None ==> no_char(s, c),
    decreases s.len(),
{
    if s.len() > 0 && s[0] != c {
        lemma_find_char(s.drop_first(), c);
        if let Some(k) = find_char(s.drop_first(), c) {
            assert forall|i: int| 0 <= i < k + 1 implies #[trigger] s.take(k + 1)[i] != c by {
                if i > 0 {
                    assert(s.take(k + 1)[i] == s.drop_first().take(k)[i - 1]);
                }
            }
        } else {
            assert forall|i: int| 0 <= i < s.len() implies #[trigger] s[i] != c by {
                if i > 0 {
                    assert(s[i] == s.drop_first()[i - 1]);
                }
            }
        }
    }
}

pub proof fn lemma_find_char_concat(a: Seq<char>, b: Seq<char>, c: char)
    requires
        no_char(a, c),
        b.len() > 0,
        b[0] == c,
    ensures
        find_char(a + b, c) == Some(a.len() as int),
    decreases a.len(),
{
    if a.len() > 0 {
        assert((a + b).drop_first() =~= a.drop_first() + b);
        lemma_find_char_concat(a.drop_first(), b, c);
    } else {
        assert(a + b =~= b);
    }
}

/// The index of the first `c` in `v`.
pub fn find_char_exec(v: &Vec<char>, c: char) -> (r: Option<usize>)
    ensures
        r matches Some(k) ==> k < v@.len() && v@[k as int] == c,
        r matches Some(k) ==> find_char(v@, c) == Some(k as int),
        r is None ==> find_char(v@, c) is None,
{
    let mut i: usize = 0;
    while i < v.len()
        invariant
            i <= v@.len(),
            no_char(v@.take(i as int), c),
        decreases v@.len() - i,
    {
        if v[i] == c {
            proof {
                lemma_find_char(v@, c);
                if let Some(k) = find_char(v@, c) {
                    if k < i {
                        assert(v@.take(i as int)[k] == c);
                    } else if k > i {
                        assert(v@.take(k)[i as int] == c);
                    }
                }
            }
            return Some(i);
        }
        i = i + 1;
        assert(no_char(v@.take(i as int), c)) by {
            assert forall|j: int| 0 <= j < i implies #[trigger] v@.take(i as int)[j] != c by {
                if j < i - 1 {
                    assert(v@.take(i as int)[j] == v@.take(i - 1)[j]);
                }
            }
        }
    }
    proof {
        lemma_find_char(v@, c);
        assert(v@.take(v@.len() as int) =~= v@);
        if let Some(k) = find_char(v@, c) {
            assert(v@[k] == c);
        }
    }
    None
}

/// The characters `v[from..to]`.
pub fn slice_chars(v: &Vec<char>, from: usize, to: usize) -> (r: Vec<char>)
    requires
        from <= to <= v@.len(),
    ensures
        r@ == v@.subrange(from as int, to as int),
{
    let mut r: Vec<char> = Vec::new();
    let mut i: usize = from;
    while i < to
        invariant
            from <= i <= to,
            to <= v@.len(),
            r@ == v@.subrange(from as int, i as int),
        decreases to - i,
    {
        r.push(v[i]);
        i = i + 1;
        assert(r@ =~= v@.subrange(from as int, i as int));
    }
    r
}

pub proof fn lemma_no_char_join(parts: Seq<Seq<char>>, sep: Seq<char>, c: char)
    requires
        forall|i: int| 0 <= i < parts.len() ==> no_char(#[trigger] parts[i], c),
        no_char(sep, c),
    ensures
        no_char(join(parts, sep), c),
    decreases parts.len(),
{
    if parts.len() > 1 {
        let init = parts.drop_last();
        assert forall|i: int| 0 <= i < init.len() implies no_char(#[trigger] init[i], c) by {
            assert(init[i] == parts[i]);
        }
        lemma_no_char_join(init, sep, c);
        let j = join(init, sep);
        let l = parts.last();
        assert(no_char(l, c));
        assert forall|i: int| 0 <= i < (j + sep + l).len() implies #[trigger] (j + sep + l)[i] != c by {
            if i < j.len() {
                assert((j + sep + l)[i] == j[i]);
            } else if i < j.len() + sep.len() {
                assert((j + sep + l)[i] == sep[i - j.len()]);
            } else {
                assert((j + sep + l)[i] == l[i - j.len() - sep.len()]);
            }
        }
    } else if parts.len() == 1 {
        assert(no_char(parts[0], c));
    }
}

pub proof fn lemma_dec_no_char(n: nat, c: char)
    requires
        !is_digit(c),
    ensures
        no_char(dec(n), c),
{
    lemma_dec_all_digits(n);
    assert forall|i: int| 0 <= i < dec(n).len() implies dec(n)[i] != c by {
        assert(is_digit(dec(n)[i]));
    }
}

pub proof fn lemma_no_char_concat(a: Seq<char>, b: Seq<char>, c: char)
    requires
        no_char(a, c),
        no_char(b, c),
    ensures
        no_char(a + b, c),
{
    assert forall|i: int| 0 <= i < (a + b).len() implies (a + b)[i] != c by {
        if i < a.len() {
            assert((a + b)[i] == a[i]);
        } else {
            assert((a + b)[i] == b[i - a.len()]);
        }
    }
}

// ───────────────────────── trimming ─────────────────────────

/// `char::is_whitespace`: the Unicode `White_Space` property.
pub open spec fn is_ws(c: char) -> bool {
    ('\u{9}' <= c && c <= '\u{d}') || c == ' ' || c == '\u{85}' || c == '\u{a0}' || c == '\u{1680}'
        || ('\u{2000}' <= c && c <= '\u{200a}') || c == '\u{2028}' || c == '\u{2029}'
        || c == '\u{202f}' || c == '\u{205f}' || c == '\u{3000}'
}

pub fn is_ws_exec(c: char) -> (r: bool)
    ensures
        r == is_ws(c),
{
    ('\u{9}' <= c && c <= '\u{d}') || c == ' ' || c == '\u{85}' || c == '\u{a0}' || c == '\u{1680}'
        || ('\u{2000}' <= c && c <= '\u{200a}') || c == '\u{2028}' || c == '\u{2029}'
        || c == '\u{202f}' || c == '\u{205f}' || c == '\u{3000}'
}

/// `s` without leading whitespace.
pub open spec fn trim_start(s: Seq<char>) -> Seq<char>
    decreases s.len(),
{
    if s.len() > 0 && is_ws(s[0]) {
        trim_start(s.drop_first())
    } else {
        s
    }
}

/// `s` without trailing whitespace.
pub open spec fn trim_end(s: Seq<char>) -> Seq<char>
    decreases s.len(),
{
    if s.len() > 0 && is_ws(s.last()) {
        trim_end(s.drop_last())
    } else {
        s
    }
}

/// `str::trim`: `s` without leading and trailing whitespace.
pub open spec fn trim(s: Seq<char>) -> Seq<char> {
    trim_end(trim_start(s))
}

/// The characters of `s.trim()`.
pub fn trim_chars(s: &Vec<char>) -> (r: Vec<char>)
    ensures
        r@ == trim(s@),
{
    let mut a: usize = 0;
    assert(s@.skip(0) =~= s@);
    while a < s.len() && is_ws_exec(s[a])
        invariant
            a <= s@.len(),
            trim_start(s@) == trim_start(s@.skip(a as int)),
        decreases s@.len() - a,
    {
        assert(s@.skip(a as int).drop_first() =~= s@.skip(a + 1));
        a = a + 1;
    }
    proof {
        if a < s@.len() {
            assert(s@.skip(a as int)[0] == s@[a as int]);
        }
    }
    let ghost st = s@.skip(a as int);
    assert(trim_start(s@) == st);
    assert(st =~= s@.subrange(a as int, s@.len() as int));
    let mut b: usize = s.len();
    while b > a && is_ws_exec(s[b - 1])
        invariant
            a <= b <= s@.len(),
            st == s@.skip(a as int),
            trim(s@) == trim_end(s@.subrange(a as int, b as int)),
        decreases b,
    {
        assert(s@.subrange(a as int, b as int).drop_last() =~= s@.subrange(a as int, b - 1));
        b = b - 1;
    }
    slice_chars(s, a, b)
}

// ───────────────────────── searching by substring ─────────────────────────

/// `s.split(needle).next()`: `s` up to the first occurrence of `needle`, or
/// all of `s`.
pub open spec fn before_first(s: Seq<char>, needle: Seq<char>) -> Seq<char> {
    match first_occurrence(s, needle) {
        Some(i) => s.take(i),
        None => s,
    }
}

/// `s.split_once(needle).map(|(_, b)| b)`: what follows the first occurrence
/// of `needle`.
pub open spec fn after_first(s: Seq<char>, needle: Seq<char>) -> Option<Seq<char>> {
    match first_occurrence(s, needle) {
        Some(i) => Some(s.skip(i + needle.len())),
        None => None,
    }
}

/// `s.split(needle).nth(1)` for a non-empty `needle`: the piece between the
/// first and the second occurrence of `needle` (or the end).
pub open spec fn second_piece(s: Seq<char>, needle: Seq<char>) -> Option<Seq<char>> {
    match after_first(s, needle) {
        Some(rest) => Some(before_first(rest, needle)),
        None => None,
    }
}

/// `s.strip_prefix(prefix).unwrap_or(s)`.
pub open spec fn strip_prefix(s: Seq<char>, prefix: Seq<char>) -> Seq<char> {
    if starts_with(s, prefix) {
        s.skip(prefix.len() as int)
    } else {
        s
    }
}

/// `s.split_whitespace().next()`: the first whitespace-separated word.
pub open spec fn first_word(s: Seq<char>) -> Option<Seq<char>> {
    let t = trim_start(s);
    if t.len() == 0 {
        None
    } else {
        Some(t.take(first_ws(t)))
    }
}

/// The index of the first whitespace character of `s` (or its length).
pub open spec fn first_ws(s: Seq<char>) -> int
    decreases s.len(),
{
    if s.len() == 0 {
        0
    } else if is_ws(s[0]) {
        0
    } else {
        1 + first_ws(s.drop_first())
    }
}

pub proof fn lemma_first_ws(s: Seq<char>)
    ensures
        0 <= first_ws(s) <= s.len(),
        forall|j: int| 0 <= j < first_ws(s) ==> !is_ws(#[trigger] s[j]),
        first_ws(s) < s.len() ==> is_ws(s[first_ws(s)]),
    decreases s.len(),
{
    if s.len() > 0 && !is_ws(s[0]) {
        lemma_first_ws(s.drop_first());
        assert forall|j: int| 0 <= j < first_ws(s) implies !is_ws(#[trigger] s[j]) by {
            if j > 0 {
                assert(s[j] == s.drop_first()[j - 1]);
            }
        }
    }
}

pub fn before_first_exec(s: &Vec<char>, needle: &Vec<char>) -> (r: Vec<char>)
    ensures
        r@ == before_first(s@, needle@),
{
    match find_seq(s, needle) {
        Some(i) => slice_chars(s, 0, i),
        None => {
            let mut r: Vec<char> = Vec::new();
            push_all(&mut r, s);
            r
        },
    }
}

pub fn after_first_exec(s: &Vec<char>, needle: &Vec<char>) -> (r: Option<Vec<char>>)
    ensures
        match after_first(s@, needle@) {
            Some(t) => r matches Some(v) && v@ == t,
            None => r is None,
        },
{
    match find_seq(s, needle) {
        Some(i) => {
            assert(occurs_at(s@, needle@, i as int));
            let n = needle.len();
            let total = s.len();
            assert(i + n <= total);
            Some(slice_chars(s, i + n, total))
        },
        None => None,
    }
}

pub fn second_piece_exec(s: &Vec<char>, needle: &Vec<char>) -> (r: Option<Vec<char>>)
    ensures
        match second_piece(s@, needle@) {
            Some(t) => r matches Some(v) && v@ == t,
            None => r is None,
        },
{
    match after_first_exec(s, needle) {
        Some(rest) => Some(before_first_exec(&rest, needle)),
        None => None,
    }
}

pub fn strip_prefix_exec(s: &Vec<char>, prefix: &Vec<char>) -> (r: Vec<char>)
    ensures
        r@ == strip_prefix(s@, prefix@),
{
    if starts_with_chars(s, prefix) {
        slice_chars(s, prefix.len(), s.len())
    } else {
        let mut r: Vec<char> = Vec::new();
        push_all(&mut r, s);
        r
    }
}

pub fn first_word_exec(s: &Vec<char>) -> (r: Option<Vec<char>>)
    ensures
        match first_word(s@) {
            Some(w) => r matches Some(v) && v@ == w,
            None => r is None,
        },
{
    let mut a: usize = 0;
    assert(s@.skip(0) =~= s@);
    while a < s.len() && is_ws_exec(s[a])
        invariant
            a <= s@.len(),
            trim_start(s@) == trim_start(s@.skip(a as int)),
        decreases s@.len() - a,
    {
        assert(s@.skip(a as int).drop_first() =~= s@.skip(a + 1));
        a = a + 1;
    }
    proof {
        if a < s@.len() {
            assert(s@.skip(a as int)[0] == s@[a as int]);
        }
    }
    let ghost t = s@.skip(a as int);
    assert(trim_start(s@) == t);
    if a == s.len() {
        return None;
    }
    let mut b: usize = a;
    while b < s.len() && !is_ws_exec(s[b])
        invariant
            a <= b <= s@.len(),
            t == s@.skip(a as int),
            first_ws(t) == (b - a) + first_ws(s@.skip(b as int)),
        decreases s@.len() - b,
    {
        assert(s@.skip(b as int)[0] == s@[b as int]);
        assert(s@.skip(b as int).drop_first() =~= s@.skip(b + 1));
        b = b + 1;
    }
    proof {
        if b < s@.len() {
            assert(s@.skip(b as int)[0] == s@[b as int]);
        }
        assert(t.take(b - a) =~= s@.subrange(a as int, b as int));
    }
    Some(slice_chars(s, a, b))
}

/// Every character is an ASCII digit (true of the empty string).
pub open spec fn all_ascii_digits(s: Seq<char>) -> bool {
    forall|i: int| 0 <= i < s.len() ==> is_digit(#[trigger] s[i])
}

pub fn all_ascii_digits_exec(s: &Vec<char>) -> (r: bool)
    ensures
        r == all_ascii_digits(s@),
{
    let mut i: usize = 0;
    while i < s.len()
        invariant
            i <= s@.len(),
            forall|j: int| 0 <= j < i ==> is_digit(#[trigger] s@[j]),
        decreases s@.len() - i,
    {
        if !('0' <= s[i] && s[i] <= '9') {
            return false;
        }
        i = i + 1;
    }
    true
}

/// A vector holding the characters of a string literal or slice.
pub fn vchars(s: &str) -> (r: Vec<char>)
    ensures
        r@ == s@,
{
    chars_of(s)
}


/// `needle` occurs as a contiguous block of `hay`.
pub open spec fn has_block(hay: Seq<char>, needle: Seq<char>) -> bool {
    exists|i: int| 0 <= i && i + needle.len() <= hay.len() && #[trigger] hay.subrange(i, i + needle.len()) == needle
}

proof fn lemma_block_in_prefix(a: Seq<char>, b: Seq<char>, needle: Seq<char>)
    requires
        has_block(a, needle),
    ensures
        has_block(a + b, needle),
{
    let i = choose|i: int| 0 <= i && i + needle.len() <= a.len() && #[trigger] a.subrange(i, i + needle.len()) == needle;
    assert((a + b).subrange(i, i + needle.len()) =~= a.subrange(i, i + needle.len()));
}

proof fn lemma_block_at(a: Seq<char>, needle: Seq<char>, b: Seq<char>)
    ensures
        has_block(a + needle + b, needle),
{
    let w = a + needle + b;
    assert(w.subrange(a.len() as int, (a.len() + needle.len()) as int) =~= needle);
}

/// Every piece and every value of a filled template occurs in it as a
/// contiguous block.
pub proof fn lemma_fill_contains(pieces: Seq<Seq<char>>, values: Seq<Seq<char>>)
    requires
        pieces.len() == values.len() + 1,
    ensures
        forall|k: int| 0 <= k < values.len() ==> has_block(fill(pieces, values), #[trigger] values[k]),
        forall|k: int| 0 <= k < pieces.len() ==> has_block(fill(pieces, values), #[trigger] pieces[k]),
    decreases values.len(),
{
    let n = values.len() as int;
    if n == 0 {
        lemma_block_at(Seq::empty(), pieces[0], Seq::empty());
        assert(Seq::<char>::empty() + pieces[0] + Seq::<char>::empty() =~= pieces[0]);
    } else {
        let p0 = pieces.take(n);
        let v0 = values.drop_last();
        lemma_fill_contains(p0, v0);
        let f0 = fill(p0, v0);
        let w = fill(pieces, values);
        assert(w == f0 + values.last() + pieces[n]);
        assert forall|k: int| 0 <= k < values.len() implies has_block(w, #[trigger] values[k]) by {
            if k < n - 1 {
                assert(values[k] == v0[k]);
                lemma_block_in_prefix(f0, values.last() + pieces[n], values[k]);
                assert(f0 + (values.last() + pieces[n]) =~= w);
            } else {
                lemma_block_at(f0, values.last(), pieces[n]);
            }
        }
        assert forall|k: int| 0 <= k < pieces.len() implies has_block(w, #[trigger] pieces[k]) by {
            if k < n {
                assert(pieces[k] == p0[k]);
                lemma_block_in_prefix(f0, values.last() + pieces[n], pieces[k]);
                assert(f0 + (values.last() + pieces[n]) =~= w);
            } else {
                lemma_block_at(f0 + values.last(), pieces[n], Seq::empty());
                assert(f0 + values.last() + pieces[n] + Seq::<char>::empty() =~= w);
            }
        }
    }
}


/// Joining the pieces of a split with the separator gives the text back.
pub proof fn lemma_join_split(t: Seq<char>, sep: char)
    ensures
        join(split(t, sep), seq![sep]) == t,
    decreases t.len(),
{
    if t.len() == 0 {
        assert(split(t, sep) == seq![Seq::<char>::empty()]);
        assert(t =~= Seq::<char>::empty());
    } else {
        let t0 = t.drop_last();
        let x = t.last();
        let p = split(t0, sep);
        lemma_join_split(t0, sep);
        lemma_split_len(t0, sep);
        if x == sep {
            let q = p.push(Seq::<char>::empty());
            assert(q.drop_last() =~= p);
            assert(join(q, seq![sep]) == join(p, seq![sep]) + seq![sep] + Seq::<char>::empty());
            assert(t =~= t0 + seq![sep] + Seq::<char>::empty());
        } else {
            let q = p.update(p.len() - 1, p.last().push(x));
            if p.len() == 1 {
                assert(join(q, seq![sep]) == q[0]);
                assert(join(p, seq![sep]) == p[0]);
                assert(t =~= t0.push(x));
            } else {
                assert(q.drop_last() =~= p.drop_last());
                assert(join(q, seq![sep]) == join(p.drop_last(), seq![sep]) + seq![sep] + p.last().push(x));
                assert(join(p, seq![sep]) == join(p.drop_last(), seq![sep]) + seq![sep] + p.last());
                assert(join(q, seq![sep]) =~= join(p, seq![sep]).push(x));
                assert(t =~= t0.push(x));
            }
        }
    }
}

} // verus!
