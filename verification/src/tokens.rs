//! The abstract token unit a task tree is budgeted in.
//!
//! What a token buys is the application's business. This crate only counts
//! them: non-negative integers with checked arithmetic, because an amount
//! that cannot be represented is an admission error, never a saturated total.

use core::num::ParseIntError;

use vstd::prelude::*;

use crate::text::{decimal, decimal_text};

verus! {

#[verifier::external_type_specification]
#[verifier::external_body]
pub struct ExParseIntError(ParseIntError);

/// A non-negative count of the application's token unit.
#[derive(Debug, Clone, Copy, PartialEq, Eq, Structural, PartialOrd, Ord, Hash)]
pub struct Tokens(u64);

impl View for Tokens {
    type V = u64;

    closed spec fn view(&self) -> u64 {
        self.0
    }
}

/// The sum of a sequence of amounts, unbounded.
pub open spec fn tokens_total(s: Seq<Tokens>) -> nat
    decreases s.len(),
{
    if s.len() == 0 {
        0
    } else {
        tokens_total(s.drop_last()) + s.last()@ as nat
    }
}

/// Totals only grow as amounts are appended.
pub proof fn lemma_tokens_total_prefix(s: Seq<Tokens>, n: int)
    requires
        0 <= n <= s.len(),
    ensures
        tokens_total(s.take(n)) <= tokens_total(s),
    decreases s.len() - n,
{
    if n < s.len() {
        lemma_tokens_total_prefix(s, n + 1);
        assert(s.take(n + 1).drop_last() =~= s.take(n));
    } else {
        assert(s.take(n) =~= s);
    }
}

/// An ASCII decimal digit.
pub open spec fn is_decimal_digit(c: char) -> bool {
    '0' <= c && c <= '9'
}

/// The value of a run of decimal digits.
pub open spec fn digits_value(s: Seq<char>) -> nat
    decreases s.len(),
{
    if s.len() == 0 {
        0
    } else {
        digits_value(s.drop_last()) * 10 + (s.last() as int - 48) as nat
    }
}

/// The unsigned integer that `s` spells as an optional `+` followed by one
/// or more ASCII decimal digits, and `None` for any other text.
pub open spec fn unsigned_decimal(s: Seq<char>) -> Option<nat> {
    let digits = if s.len() > 0 && s[0] == '+' {
        s.skip(1)
    } else {
        s
    };
    if digits.len() > 0 && (forall|i: int| 0 <= i < digits.len() ==> is_decimal_digit(#[trigger] digits[i])) {
        Some(digits_value(digits))
    } else {
        None
    }
}

/// `text.parse::<u64>()`.
///
/// Calls std's `FromStr` for `u64`, which is documented to accept an
/// optional `+` followed by only ASCII digits and to refuse a value that
/// does not fit: the contract claims `Ok` exactly then, with that value. The
/// content of the error is not stated.
#[verifier::external_body]
fn parse_u64(text: &str) -> (r: Result<u64, ParseIntError>)
    ensures
        r is Ok <==> (unsigned_decimal(text@) matches Some(v) && v <= u64::MAX),
        r matches Ok(v) ==> unsigned_decimal(text@) == Some(v as nat),
{
    text.parse::<u64>()
}

impl Tokens {
    /// The explicit zero amount: a resolved budget of nothing, which is
    /// still a budget.
    pub fn zero() -> (r: Self)
        ensures
            r@ == 0,
    {
        Tokens(0)
    }

    /// An amount of `count` tokens.
    pub fn new(count: u64) -> (r: Self)
        ensures
            r@ == count,
    {
        Tokens(count)
    }

    /// The raw count.
    pub fn get(self) -> (r: u64)
        ensures
            r == self@,
    {
        self.0
    }

    /// Whether this is the zero amount.
    pub fn is_zero(self) -> (r: bool)
        ensures
            r == (self@ == 0),
    {
        self.0 == 0
    }

    /// The sum, or `None` when it cannot be represented.
    pub fn checked_add(self, other: Self) -> (r: Option<Self>)
        ensures
            r is None <==> self@ + other@ > u64::MAX,
            r matches Some(t) ==> t@ == self@ + other@,
    {
        match self.0.checked_add(other.0) {
            Some(sum) => Some(Tokens(sum)),
            None => None,
        }
    }

    /// The difference, or `None` when `other` exceeds this amount.
    pub fn checked_sub(self, other: Self) -> (r: Option<Self>)
        ensures
            r is None <==> other@ > self@,
            r matches Some(t) ==> t@ == self@ - other@,
    {
        match self.0.checked_sub(other.0) {
            Some(difference) => Some(Tokens(difference)),
            None => None,
        }
    }

    /// The sum of every amount, or `None` when it cannot be represented.
    ///
    /// There is deliberately no `Sum` implementation: a summing iterator
    /// that silently wrapped or saturated would hide the overflow this type
    /// exists to surface.
    pub fn checked_sum(amounts: &[Tokens]) -> (r: Option<Self>)
        ensures
            r is None <==> tokens_total(amounts@) > u64::MAX,
            r matches Some(t) ==> t@ == tokens_total(amounts@),
    {
        let mut acc = Tokens(0);
        let mut i: usize = 0;
        while i < amounts.len()
            invariant
                i <= amounts@.len(),
                acc@ == tokens_total(amounts@.take(i as int)),
            decreases amounts@.len() - i,
        {
            proof {
                assert(amounts@.take(i + 1).drop_last() =~= amounts@.take(i as int));
            }
            match acc.checked_add(amounts[i]) {
                Some(next) => acc = next,
                None => {
                    proof {
                        lemma_tokens_total_prefix(amounts@, i + 1);
                    }
                    return None;
                },
            }
            i = i + 1;
        }
        assert(amounts@.take(i as int) =~= amounts@);
        Some(acc)
    }

    /// Parse a decimal amount: an optional `+` and ASCII digits that fit in
    /// 64 bits.
    pub fn parse(text: &str) -> (r: Result<Self, ParseIntError>)
        ensures
            r is Ok <==> (unsigned_decimal(text@) matches Some(v) && v <= u64::MAX),
            r matches Ok(t) ==> unsigned_decimal(text@) == Some(t@ as nat),
    {
        match parse_u64(text) {
            Ok(count) => Ok(Tokens(count)),
            Err(e) => Err(e),
        }
    }

    /// The decimal count (what `Display` prints).
    pub fn to_string(self) -> (r: String)
        ensures
            r@ == decimal(self@ as nat),
    {
        decimal_text(self.0)
    }
}

/// The decimal text of every count parses back to that count: the text
/// form of an amount round-trips.
pub proof fn lemma_decimal_round_trip(n: nat)
    ensures
        unsigned_decimal(decimal(n)) == Some(n),
{
    lemma_decimal_digits(n);
}

proof fn lemma_decimal_digits(n: nat)
    ensures
        decimal(n).len() > 0,
        forall|i: int| 0 <= i < decimal(n).len() ==> is_decimal_digit(#[trigger] decimal(n)[i]),
        digits_value(decimal(n)) == n,
    decreases n,
{
    if n >= 10 {
        lemma_decimal_digits(n / 10);
        let s = decimal(n / 10);
        let t = decimal(n);
        assert(t.drop_last() =~= s);
        assert forall|i: int| 0 <= i < t.len() implies is_decimal_digit(#[trigger] t[i]) by {
            if i < s.len() {
                assert(t[i] == s[i]);
            }
        }
        let d = (n % 10) as int;
        assert(t.last() as int == d + 48);
        assert(digits_value(t) == digits_value(t.drop_last()) * 10 + d);
        assert(digits_value(t) == digits_value(s) * 10 + d);
        assert((n / 10) * 10 + n % 10 == n);
    } else {
        let t = decimal(n);
        assert(t.drop_last() =~= Seq::<char>::empty());
        assert(t.last() as int == n + 48);
        assert(digits_value(t.drop_last()) == 0);
        assert(digits_value(t) == digits_value(t.drop_last()) * 10 + n);
    }
}

impl Default for Tokens {
    fn default() -> (r: Self)
        ensures
            r@ == 0,
    {
        Tokens(0)
    }
}

impl core::str::FromStr for Tokens {
    type Err = ParseIntError;

    fn from_str(text: &str) -> (r: Result<Self, Self::Err>)
        ensures
            r is Ok <==> (unsigned_decimal(text@) matches Some(v) && v <= u64::MAX),
            r matches Ok(t) ==> unsigned_decimal(text@) == Some(t@ as nat),
    {
        Tokens::parse(text)
    }
}

} // verus!
