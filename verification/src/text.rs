//! Character-level helpers shared by the identity parsers and the
//! human-readable renderings: separator positions, prefixes, and the
//! decimal form of an integer.

use vstd::prelude::*;

verus! {

/// The positions, in order, at which `sep` occurs in `s`.
pub open spec fn sep_positions(s: Seq<char>, sep: char) -> Seq<int>
    decreases s.len(),
{
    if s.len() == 0 {
        seq![]
    } else {
        let p = sep_positions(s.drop_last(), sep);
        if s.last() == sep {
            p.push(s.len() - 1)
        } else {
            p
        }
    }
}

/// Whether `s` begins with `p`.
pub open spec fn starts_with(s: Seq<char>, p: Seq<char>) -> bool {
    p.len() <= s.len() && s.subrange(0, p.len() as int) == p
}

/// The byte length of the UTF-8 encoding of `s`.
pub open spec fn utf8_len(s: Seq<char>) -> nat {
    vstd::utf8::encode_utf8(s).len()
}

/// A text is at least as many bytes as characters, and at most four bytes
/// per character.
pub proof fn lemma_utf8_len_bounds(s: Seq<char>)
    ensures
        s.len() <= utf8_len(s) <= 4 * s.len(),
    decreases s.len(),
{
    if s.len() > 0 {
        lemma_utf8_len_bounds(s.drop_first());
        let e = vstd::utf8::encode_scalar(s[0] as u32);
        assert(1 <= e.len() <= 4);
    }
}

/// Whether the UTF-8 encoding of `s` is exactly `w` bytes long, for the
/// small field widths the traceparent check compares against. The bound on
/// `w` keeps every byte count that is compared within four bytes a
/// character of at most `w` characters, so `str::len` reports it exactly.
pub(crate) fn utf8_len_is(s: &str, w: usize) -> (r: bool)
    requires
        w <= 64,
    ensures
        r == (utf8_len(s@) == w),
{
    proof {
        lemma_utf8_len_bounds(s@);
    }
    if s.unicode_len() > w {
        return false;
    }
    s.len() == w
}

/// The decimal digit character of `d` (for `d < 10`).
pub open spec fn decimal_digit(d: int) -> char {
    (d + 48) as char
}

/// The shortest decimal rendering of `n`.
pub open spec fn decimal(n: nat) -> Seq<char>
    decreases n,
{
    if n < 10 {
        seq![decimal_digit(n as int)]
    } else {
        decimal(n / 10).push(decimal_digit((n % 10) as int))
    }
}

/// Every entry of `sep_positions` is an index of `s` holding `sep`, and the
/// positions strictly increase.
pub proof fn lemma_sep_positions_facts(s: Seq<char>, sep: char)
    ensures
        forall|k: int|
            0 <= k < sep_positions(s, sep).len() ==> 0 <= #[trigger] sep_positions(s, sep)[k]
                < s.len() && s[sep_positions(s, sep)[k]] == sep,
        forall|k: int, l: int|
            0 <= k < l < sep_positions(s, sep).len() ==> sep_positions(s, sep)[k]
                < sep_positions(s, sep)[l],
        forall|i: int|
            0 <= i < s.len() && s[i] == sep ==> exists|k: int|
                0 <= k < sep_positions(s, sep).len() && #[trigger] sep_positions(s, sep)[k] == i,
    decreases s.len(),
{
    if s.len() > 0 {
        let t = s.drop_last();
        lemma_sep_positions_facts(t, sep);
        let p = sep_positions(t, sep);
        assert forall|i: int| 0 <= i < s.len() && s[i] == sep implies exists|k: int|
            0 <= k < sep_positions(s, sep).len() && #[trigger] sep_positions(s, sep)[k] == i by {
            if i < s.len() - 1 {
                assert(t[i] == sep);
                let k = choose|k: int| 0 <= k < p.len() && #[trigger] p[k] == i;
                assert(sep_positions(s, sep)[k] == i);
            } else {
                assert(sep_positions(s, sep)[p.len() as int] == i);
            }
        }
    }
}

/// The positions in a concatenation are those of the left part followed by
/// those of the right part, shifted by the left part's length.
pub proof fn lemma_sep_positions_concat(a: Seq<char>, b: Seq<char>, sep: char)
    ensures
        sep_positions(a + b, sep) == sep_positions(a, sep) + sep_positions(b, sep).map_values(
            |p: int| p + a.len(),
        ),
    decreases b.len(),
{
    if b.len() == 0 {
        assert(a + b == a);
        assert(sep_positions(b, sep).map_values(|p: int| p + a.len()) =~= seq![]);
        assert(sep_positions(a, sep) + seq![] =~= sep_positions(a, sep));
    } else {
        let bl = b.drop_last();
        lemma_sep_positions_concat(a, bl, sep);
        assert((a + b).drop_last() =~= a + bl);
        assert((a + b).last() == b.last());
        if b.last() == sep {
            assert(sep_positions(b, sep).map_values(|p: int| p + a.len()) =~= sep_positions(
                bl,
                sep,
            ).map_values(|p: int| p + a.len()).push(b.len() - 1 + a.len()));
            assert(sep_positions(a + b, sep) =~= sep_positions(a, sep) + sep_positions(
                b,
                sep,
            ).map_values(|p: int| p + a.len()));
        } else {
            assert(sep_positions(b, sep).map_values(|p: int| p + a.len()) =~= sep_positions(
                bl,
                sep,
            ).map_values(|p: int| p + a.len()));
        }
    }
}

/// A sequence with no `sep` in it has no positions.
pub proof fn lemma_sep_positions_none(s: Seq<char>, sep: char)
    requires
        forall|i: int| 0 <= i < s.len() ==> s[i] != sep,
    ensures
        sep_positions(s, sep) == Seq::<int>::empty(),
    decreases s.len(),
{
    if s.len() > 0 {
        lemma_sep_positions_none(s.drop_last(), sep);
    }
}

/// Positions found in a prefix of `s` are the first positions of `s`.
pub proof fn lemma_sep_positions_prefix(s: Seq<char>, n: int, sep: char)
    requires
        0 <= n <= s.len(),
    ensures
        sep_positions(s.take(n), sep).len() <= sep_positions(s, sep).len(),
        sep_positions(s.take(n), sep) == sep_positions(s, sep).take(
            sep_positions(s.take(n), sep).len() as int,
        ),
{
    lemma_sep_positions_concat(s.take(n), s.skip(n), sep);
    assert(s.take(n) + s.skip(n) =~= s);
    let a = sep_positions(s.take(n), sep);
    let b = sep_positions(s.skip(n), sep).map_values(|p: int| p + n);
    assert((a + b).take(a.len() as int) =~= a);
}

/// Scans `s` for `sep`, stopping once `limit` positions are found: the
/// result is the first `min(limit, all)` positions of `sep` in `s`.
pub fn find_separators(s: &str, sep: char, limit: usize) -> (r: Vec<usize>)
    ensures
        r@.len() <= limit,
        r@.len() == limit || r@.len() == sep_positions(s@, sep).len(),
        r@.len() <= sep_positions(s@, sep).len(),
        forall|k: int| 0 <= k < r@.len() ==> r@[k] as int == #[trigger] sep_positions(s@, sep)[k],
{
    let n = s.unicode_len();
    let mut found: Vec<usize> = Vec::new();
    let mut i: usize = 0;
    while i < n && found.len() < limit
        invariant
            n == s@.len(),
            i <= n,
            found@.len() <= limit,
            found@.len() == sep_positions(s@.take(i as int), sep).len(),
            forall|k: int|
                0 <= k < found@.len() ==> found@[k] as int == #[trigger] sep_positions(
                    s@.take(i as int),
                    sep,
                )[k],
        decreases n - i,
    {
        let c = s.get_char(i);
        proof {
            assert(s@.take(i + 1).drop_last() =~= s@.take(i as int));
            assert(s@.take(i + 1).last() == c);
        }
        if c == sep {
            found.push(i);
        }
        i = i + 1;
    }
    proof {
        lemma_sep_positions_prefix(s@, i as int, sep);
        if i == n {
            assert(s@.take(i as int) =~= s@);
        }
        let all = sep_positions(s@, sep);
        let part = sep_positions(s@.take(i as int), sep);
        assert forall|k: int| 0 <= k < found@.len() implies found@[k] as int == #[trigger] all[k] by {
            assert(part[k] == all.take(part.len() as int)[k]);
        }
    }
    found
}

/// Whether `s` begins with `p`.
pub fn has_prefix(s: &str, p: &str) -> (r: bool)
    ensures
        r == starts_with(s@, p@),
{
    let n = s.unicode_len();
    let m = p.unicode_len();
    if m > n {
        return false;
    }
    let mut i: usize = 0;
    while i < m
        invariant
            n == s@.len(),
            m == p@.len(),
            m <= n,
            i <= m,
            forall|j: int| 0 <= j < i ==> s@[j] == p@[j],
        decreases m - i,
    {
        if s.get_char(i) != p.get_char(i) {
            assert(s@.subrange(0, m as int)[i as int] != p@[i as int]);
            return false;
        }
        i = i + 1;
    }
    assert(s@.subrange(0, m as int) =~= p@);
    true
}

/// Whether the two texts are equal, character by character.
pub fn same_text(a: &str, b: &str) -> (r: bool)
    ensures
        r == (a@ == b@),
{
    let n = a.unicode_len();
    if n != b.unicode_len() {
        return false;
    }
    let mut i: usize = 0;
    while i < n
        invariant
            n == a@.len(),
            n == b@.len(),
            i <= n,
            forall|j: int| 0 <= j < i ==> a@[j] == b@[j],
        decreases n - i,
    {
        if a.get_char(i) != b.get_char(i) {
            return false;
        }
        i = i + 1;
    }
    assert(a@ =~= b@);
    true
}

/// The Debug rendering of a text: quoted, with special characters escaped.
pub uninterp spec fn debug_text(s: Seq<char>) -> Seq<char>;

/// `format!("{s:?}")`: the Debug rendering of `s`.
///
/// Calls std's `Debug` implementation for `str`. The contract only names the
/// result as a function of the text; the quoting and escaping rules are not
/// restated here.
#[verifier::external_body]
pub(crate) fn debug_quote(s: &str) -> (r: String)
    ensures
        r@ == debug_text(s@),
{
    format!("{s:?}")
}

/// The one-character text of the decimal digit `d`.
fn digit_text(d: u64) -> (r: &'static str)
    requires
        d < 10,
    ensures
        r@ == seq![decimal_digit(d as int)],
{
    let digits = "0123456789";
    proof {
        reveal_strlit("0123456789");
    }
    let r = digits.substring_char(d as usize, (d + 1) as usize);
    assert(r@ =~= seq![decimal_digit(d as int)]);
    r
}

/// The decimal rendering of `n`, as `Display` prints an unsigned integer.
pub fn decimal_text(n: u64) -> (r: String)
    ensures
        r@ == decimal(n as nat),
    decreases n,
{
    if n < 10 {
        String::from_str(digit_text(n))
    } else {
        let mut r = decimal_text(n / 10);
        r.append(digit_text(n % 10));
        r
    }
}

} // verus!
