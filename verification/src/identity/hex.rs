//! Lowercase hexadecimal, the canonical text of trace and span identifiers.

use vstd::prelude::*;

verus! {

/// The lowercase hex digit of the nibble `v` (for `0 <= v < 16`).
pub open spec fn hex_char(v: int) -> char {
    if v < 10 {
        (v + 48) as char
    } else {
        (v + 87) as char
    }
}

/// A lowercase hex digit: `0-9` or `a-f`.
pub open spec fn is_lower_hex(c: char) -> bool {
    ('0' <= c && c <= '9') || ('a' <= c && c <= 'f')
}

/// An ASCII hex digit of either case: `0-9`, `a-f` or `A-F`.
pub open spec fn is_hex_digit(c: char) -> bool {
    is_lower_hex(c) || ('A' <= c && c <= 'F')
}

/// The value of a lowercase hex digit.
pub open spec fn hex_value(c: char) -> int {
    if '0' <= c && c <= '9' {
        c as int - 48
    } else {
        c as int - 87
    }
}

pub open spec fn all_lower_hex(s: Seq<char>) -> bool {
    forall|i: int| 0 <= i < s.len() ==> is_lower_hex(#[trigger] s[i])
}

pub open spec fn all_hex_digits(s: Seq<char>) -> bool {
    forall|i: int| 0 <= i < s.len() ==> is_hex_digit(#[trigger] s[i])
}

/// `s` is exactly `2 * n` lowercase hex digits.
pub open spec fn is_lower_hex_of_width(s: Seq<char>, n: nat) -> bool {
    s.len() == 2 * n && all_lower_hex(s)
}

/// The canonical lowercase hex text of `bytes`: two digits per byte, high
/// nibble first.
#[verifier::opaque]
pub open spec fn lower_hex(bytes: Seq<u8>) -> Seq<char> {
    Seq::new(
        2 * bytes.len(),
        |i: int|
            if i % 2 == 0 {
                hex_char(bytes[i / 2] as int / 16)
            } else {
                hex_char(bytes[i / 2] as int % 16)
            },
    )
}

/// The bytes that the hex digit pairs of `s` spell.
#[verifier::opaque]
pub open spec fn decode_lower_hex(s: Seq<char>) -> Seq<u8> {
    Seq::new(
        s.len() / 2,
        |i: int| (16 * hex_value(s[2 * i]) + hex_value(s[2 * i + 1])) as u8,
    )
}

pub open spec fn all_zero(bytes: Seq<u8>) -> bool {
    forall|i: int| 0 <= i < bytes.len() ==> bytes[i] == 0
}

/// Decoding the canonical text of `bytes` gives `bytes` back.
pub proof fn lemma_decode_encode(bytes: Seq<u8>)
    ensures
        decode_lower_hex(lower_hex(bytes)) == bytes,
        is_lower_hex_of_width(lower_hex(bytes), bytes.len()),
{
    reveal(lower_hex);
    reveal(decode_lower_hex);
    let h = lower_hex(bytes);
    assert forall|i: int| 0 <= i < h.len() implies is_lower_hex(#[trigger] h[i]) by {
        let b = bytes[i / 2] as int;
        assert(0 <= b / 16 < 16);
    }
    assert forall|i: int| 0 <= i < bytes.len() implies #[trigger] decode_lower_hex(h)[i]
        == bytes[i] by {
        let b = bytes[i] as int;
        assert((2 * i) / 2 == i);
        assert((2 * i + 1) / 2 == i);
        assert((2 * i) % 2 == 0);
        assert((2 * i + 1) % 2 == 1);
        assert(hex_value(h[2 * i]) == b / 16);
        assert(hex_value(h[2 * i + 1]) == b % 16);
    }
    assert(decode_lower_hex(h) =~= bytes);
}

/// Canonical lowercase hex text is the text of the bytes it spells.
pub proof fn lemma_encode_decode(s: Seq<char>, n: nat)
    requires
        is_lower_hex_of_width(s, n),
    ensures
        lower_hex(decode_lower_hex(s)) == s,
        decode_lower_hex(s).len() == n,
{
    reveal(lower_hex);
    reveal(decode_lower_hex);
    let d = decode_lower_hex(s);
    assert forall|i: int| 0 <= i < s.len() implies #[trigger] lower_hex(d)[i] == s[i] by {
        let k = i / 2;
        let hi = hex_value(s[2 * k]);
        let lo = hex_value(s[2 * k + 1]);
        assert(is_lower_hex(s[2 * k]));
        assert(is_lower_hex(s[2 * k + 1]));
        assert(0 <= hi < 16 && 0 <= lo < 16);
        assert(d[k] as int == 16 * hi + lo);
        assert((16 * hi + lo) / 16 == hi) by (nonlinear_arith)
            requires
                0 <= hi < 16,
                0 <= lo < 16,
        ;
        assert((16 * hi + lo) % 16 == lo) by (nonlinear_arith)
            requires
                0 <= hi < 16,
                0 <= lo < 16,
        ;
        if i % 2 == 0 {
            assert(i == 2 * k);
        } else {
            assert(i == 2 * k + 1);
        }
    }
    assert(lower_hex(d) =~= s);
}

/// The lowercase hex digits of nibbles: one character each.
fn hex_digit_text(v: u8) -> (r: &'static str)
    requires
        v < 16,
    ensures
        r@ == seq![hex_char(v as int)],
{
    let digits = "0123456789abcdef";
    proof {
        reveal_strlit("0123456789abcdef");
    }
    let r = digits.substring_char(v as usize, (v + 1) as usize);
    assert(r@ =~= seq![hex_char(v as int)]);
    r
}

/// The canonical lowercase hex text of `bytes`.
pub fn encode_hex(bytes: &Vec<u8>) -> (r: String)
    ensures
        r@ == lower_hex(bytes@),
{
    reveal(lower_hex);
    let mut r = String::new();
    let mut i: usize = 0;
    while i < bytes.len()
        invariant
            i <= bytes@.len(),
            r@ == lower_hex(bytes@.take(i as int)),
        decreases bytes@.len() - i,
    {
        let b = bytes[i];
        r.append(hex_digit_text(b / 16));
        r.append(hex_digit_text(b % 16));
        proof {
            reveal(lower_hex);
            let prev = lower_hex(bytes@.take(i as int));
            let next = lower_hex(bytes@.take(i + 1));
            assert forall|j: int| 0 <= j < next.len() implies #[trigger] next[j] == (prev + seq![
                hex_char(b as int / 16),
                hex_char(b as int % 16),
            ])[j] by {
                if j < 2 * i {
                    assert(bytes@.take(i + 1)[j / 2] == bytes@.take(i as int)[j / 2]);
                } else {
                    assert(j / 2 == i);
                }
            }
            assert(next =~= prev + seq![hex_char(b as int / 16), hex_char(b as int % 16)]);
        }
        i = i + 1;
    }
    assert(bytes@.take(i as int) =~= bytes@);
    r
}

/// The value of one lowercase hex digit.
fn hex_nibble(c: char) -> (v: u8)
    requires
        is_lower_hex(c),
    ensures
        v as int == hex_value(c),
        v < 16,
{
    if '0' <= c && c <= '9' {
        ((c as u32) - 48) as u8
    } else {
        ((c as u32) - 87) as u8
    }
}

/// Whether `c` is a lowercase hex digit.
pub fn lower_hex_char(c: char) -> (r: bool)
    ensures
        r == is_lower_hex(c),
{
    ('0' <= c && c <= '9') || ('a' <= c && c <= 'f')
}

/// Whether `c` is an ASCII hex digit of either case.
pub fn hex_digit_char(c: char) -> (r: bool)
    ensures
        r == is_hex_digit(c),
{
    ('0' <= c && c <= '9') || ('a' <= c && c <= 'f') || ('A' <= c && c <= 'F')
}

/// Whether every character of `s` is an ASCII hex digit of either case.
pub fn all_hex_text(s: &str) -> (r: bool)
    ensures
        r == all_hex_digits(s@),
{
    let n = s.unicode_len();
    let mut i: usize = 0;
    while i < n
        invariant
            n == s@.len(),
            i <= n,
            forall|j: int| 0 <= j < i ==> is_hex_digit(#[trigger] s@[j]),
        decreases n - i,
    {
        if !hex_digit_char(s.get_char(i)) {
            return false;
        }
        i = i + 1;
    }
    true
}

/// The `n` bytes spelled by `s` when `s` is exactly `2 * n` lowercase hex
/// digits, and `None` otherwise.
pub fn decode_hex(s: &str, n: usize) -> (r: Option<Vec<u8>>)
    ensures
        r is Some <==> is_lower_hex_of_width(s@, n as nat),
        r matches Some(v) ==> v@ == decode_lower_hex(s@) && v@.len() == n,
{
    reveal(decode_lower_hex);
    let len = s.unicode_len();
    if n > usize::MAX / 2 || len != 2 * n {
        return None;
    }
    let mut i: usize = 0;
    while i < len
        invariant
            len == s@.len(),
            i <= len,
            forall|j: int| 0 <= j < i ==> is_lower_hex(#[trigger] s@[j]),
        decreases len - i,
    {
        if !lower_hex_char(s.get_char(i)) {
            return None;
        }
        i = i + 1;
    }
    let mut out: Vec<u8> = Vec::new();
    let mut k: usize = 0;
    while k < n
        invariant
            len == s@.len(),
            len == 2 * n,
            all_lower_hex(s@),
            k <= n,
            out@ == decode_lower_hex(s@).take(k as int),
        decreases n - k,
    {
        let hi = hex_nibble(s.get_char(2 * k));
        let lo = hex_nibble(s.get_char(2 * k + 1));
        let b: u8 = hi * 16 + lo;
        out.push(b);
        proof {
            reveal(decode_lower_hex);
            assert(decode_lower_hex(s@)[k as int] == b);
            assert(decode_lower_hex(s@).take(k + 1) =~= decode_lower_hex(s@).take(k as int).push(
                b,
            ));
        }
        k = k + 1;
    }
    assert(decode_lower_hex(s@).take(n as int) =~= decode_lower_hex(s@));
    Some(out)
}

/// Whether every byte is zero.
pub fn is_all_zero(bytes: &Vec<u8>) -> (r: bool)
    ensures
        r == all_zero(bytes@),
{
    let mut i: usize = 0;
    while i < bytes.len()
        invariant
            i <= bytes@.len(),
            forall|j: int| 0 <= j < i ==> bytes@[j] == 0,
        decreases bytes@.len() - i,
    {
        if bytes[i] != 0 {
            return false;
        }
        i = i + 1;
    }
    true
}

} // verus!
