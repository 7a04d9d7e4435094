//! Decimal numerals: the digits of an integer, and the integer of a string
//! of ASCII digits.

use vstd::prelude::*;
use crate::chars::{ascii_digit, ascii_of, digit_char, is_ascii_digit};

verus! {

/// The decimal numeral of a natural number, without leading zeros.
pub open spec fn decimal(n: nat) -> Seq<char>
    decreases n,
{
    if n < 10 {
        seq![digit_char(n as u8)]
    } else {
        decimal(n / 10).push(digit_char((n % 10) as u8))
    }
}

pub open spec fn all_ascii_digits(s: Seq<char>) -> bool {
    forall|i: int| 0 <= i < s.len() ==> ascii_digit(#[trigger] s[i])
}

/// The number that a string of ASCII digits denotes.
pub open spec fn value_of(s: Seq<char>) -> nat
    decreases s.len(),
{
    if s.len() == 0 {
        0
    } else {
        value_of(s.drop_last()) * 10 + (s.last() as u32 - '0' as u32) as nat
    }
}

/// The number in a non-empty string of ASCII digits, when it is at most `cap`.
pub open spec fn numeral(s: Seq<char>, cap: nat) -> Option<nat> {
    if s.len() > 0 && all_ascii_digits(s) && value_of(s) <= cap {
        Some(value_of(s))
    } else {
        None
    }
}

/// The number of leading `'0'` characters.
pub open spec fn leading_zeros(s: Seq<char>) -> nat
    decreases s.len(),
{
    if s.len() > 0 && s[0] == '0' {
        1 + leading_zeros(s.drop_first())
    } else {
        0
    }
}

pub proof fn lemma_value_monotone(s: Seq<char>, i: int, j: int)
    requires
        0 <= i <= j <= s.len(),
    ensures
        value_of(s.subrange(0, i)) <= value_of(s.subrange(0, j)),
    decreases j - i,
{
    if i < j {
        lemma_value_monotone(s, i, j - 1);
        assert(s.subrange(0, j).drop_last() =~= s.subrange(0, j - 1));
    }
}

pub proof fn lemma_leading_zeros_bound(s: Seq<char>)
    ensures
        leading_zeros(s) <= s.len(),
    decreases s.len(),
{
    if s.len() > 0 && s[0] == '0' {
        lemma_leading_zeros_bound(s.drop_first());
    }
}

/// The decimal numeral of `n`.
pub fn decimal_chars(n: u64) -> (r: Vec<char>)
    ensures
        r@ == decimal(n as nat),
    decreases n,
{
    if n < 10 {
        let mut v: Vec<char> = Vec::new();
        v.push(ascii_of(n as u8));
        v
    } else {
        let mut v = decimal_chars(n / 10);
        v.push(ascii_of((n % 10) as u8));
        v
    }
}

/// The number in a non-empty string of ASCII digits, if it is at most `cap`.
pub fn parse_numeral(s: &[char], cap: u64) -> (r: Option<u64>)
    ensures
        r matches Some(v) ==> numeral(s@, cap as nat) == Some(v as nat),
        r is None ==> numeral(s@, cap as nat) is None,
{
    if s.len() == 0 {
        return None;
    }
    let mut acc: u64 = 0;
    let mut i: usize = 0;
    while i < s.len()
        invariant
            0 <= i <= s@.len(),
            all_ascii_digits(s@.subrange(0, i as int)),
            acc as nat == value_of(s@.subrange(0, i as int)),
            acc <= cap,
        decreases s@.len() - i,
    {
        let c = s[i];
        assert(s@.subrange(0, i + 1).drop_last() =~= s@.subrange(0, i as int));
        if !is_ascii_digit(c) {
            assert(!all_ascii_digits(s@));
            return None;
        }
        let d: u64 = (c as u32 - '0' as u32) as u64;
        let next: u128 = acc as u128 * 10 + d as u128;
        if next > cap as u128 {
            proof {
                lemma_value_monotone(s@, i + 1, s@.len() as int);
                assert(s@.subrange(0, s@.len() as int) =~= s@);
            }
            return None;
        }
        acc = next as u64;
        i = i + 1;
        assert(all_ascii_digits(s@.subrange(0, i as int))) by {
            assert forall|k: int| 0 <= k < i implies ascii_digit(#[trigger] s@.subrange(0, i as int)[k]) by {
                if k < i - 1 {
                    assert(s@.subrange(0, i as int)[k] == s@.subrange(0, i - 1)[k]);
                }
            }
        }
    }
    assert(s@.subrange(0, s@.len() as int) =~= s@);
    Some(acc)
}

/// Ten to the power `k`.
pub open spec fn pow10(k: nat) -> nat
    decreases k,
{
    if k == 0 { 1 } else { 10 * pow10((k - 1) as nat) }
}

/// A leading zero does not change the number.
pub proof fn lemma_value_drop_zero(t: Seq<char>)
    requires
        t.len() > 0,
        t[0] == '0',
    ensures
        value_of(t) == value_of(t.drop_first()),
    decreases t.len(),
{
    if t.len() > 1 {
        lemma_value_drop_zero(t.drop_last());
        assert(t.drop_first().drop_last() =~= t.drop_last().drop_first());
        assert(t.drop_first().last() == t.last());
        assert(value_of(t) == value_of(t.drop_last()) * 10 + (t.last() as u32 - '0' as u32) as nat);
        assert(value_of(t.drop_first()) == value_of(t.drop_first().drop_last()) * 10 + (t.last() as u32 - '0' as u32) as nat);
    } else {
        assert(t.drop_last().len() == 0);
        assert(t.drop_first().len() == 0);
        assert(value_of(t) == value_of(t.drop_last()) * 10 + (t.last() as u32 - '0' as u32) as nat);
    }
}

/// Leading zeros do not change the number.
pub proof fn lemma_value_without_zeros(t: Seq<char>)
    ensures
        leading_zeros(t) <= t.len(),
        value_of(t) == value_of(t.subrange(leading_zeros(t) as int, t.len() as int)),
        leading_zeros(t) < t.len() ==> t[leading_zeros(t) as int] != '0',
    decreases t.len(),
{
    if t.len() > 0 && t[0] == '0' {
        lemma_value_without_zeros(t.drop_first());
        lemma_value_drop_zero(t);
        assert(t.drop_first().subrange(leading_zeros(t.drop_first()) as int, t.drop_first().len() as int)
            =~= t.subrange(leading_zeros(t) as int, t.len() as int));
    } else {
        assert(t.subrange(0, t.len() as int) =~= t);
    }
}

/// A numeral of `k` digits is below ten to the `k`.
pub proof fn lemma_value_upper(t: Seq<char>)
    requires
        all_ascii_digits(t),
    ensures
        value_of(t) < pow10(t.len()),
    decreases t.len(),
{
    if t.len() > 0 {
        assert(all_ascii_digits(t.drop_last())) by {
            assert forall|i: int| 0 <= i < t.drop_last().len() implies ascii_digit(#[trigger] t.drop_last()[i]) by {
                assert(t.drop_last()[i] == t[i]);
            }
        }
        lemma_value_upper(t.drop_last());
        assert(ascii_digit(t[t.len() - 1]));
    }
}

/// A numeral of `k` digits that does not begin with zero is at least ten to the `k - 1`.
pub proof fn lemma_value_lower(t: Seq<char>)
    requires
        all_ascii_digits(t),
        t.len() > 0,
        t[0] != '0',
    ensures
        value_of(t) >= pow10((t.len() - 1) as nat),
    decreases t.len(),
{
    assert(ascii_digit(t[0]));
    if t.len() > 1 {
        assert(all_ascii_digits(t.drop_last())) by {
            assert forall|i: int| 0 <= i < t.drop_last().len() implies ascii_digit(#[trigger] t.drop_last()[i]) by {
                assert(t.drop_last()[i] == t[i]);
            }
        }
        lemma_value_lower(t.drop_last());
    } else {
        assert(t.drop_last().len() == 0);
    }
}

/// A number between ten to the `k - 1` and ten to the `k` has `k` digits.
pub proof fn lemma_decimal_length(v: nat, k: nat)
    requires
        k >= 1,
        pow10((k - 1) as nat) <= v < pow10(k),
    ensures
        decimal(v).len() == k,
    decreases k,
{
    if k > 1 {
        let p = pow10((k - 2) as nat);
        assert(pow10((k - 1) as nat) == 10 * p);
        assert(pow10(k) == 10 * (10 * p));
        assert(p >= 1) by {
            lemma_pow10_positive((k - 2) as nat);
        }
        assert(v >= 10);
        assert(v / 10 >= p && v / 10 < 10 * p) by (nonlinear_arith)
            requires v >= 10 * p, v < 10 * (10 * p);
        lemma_decimal_length(v / 10, (k - 1) as nat);
    } else {
        assert(v < 10);
    }
}

pub proof fn lemma_pow10_positive(k: nat)
    ensures
        pow10(k) >= 1,
    decreases k,
{
    if k > 0 {
        lemma_pow10_positive((k - 1) as nat);
    }
}

/// The number of leading `'0'` characters.
pub fn count_leading_zeros(s: &[char]) -> (r: usize)
    ensures
        r as nat == leading_zeros(s@),
{
    let mut i: usize = 0;
    assert(s@.subrange(0, s@.len() as int) =~= s@);
    while i < s.len() && s[i] == '0'
        invariant
            0 <= i <= s@.len(),
            forall|k: int| 0 <= k < i ==> s@[k] == '0',
            leading_zeros(s@) == i + leading_zeros(s@.subrange(i as int, s@.len() as int)),
        decreases s@.len() - i,
    {
        assert(s@.subrange(i as int, s@.len() as int).drop_first() =~= s@.subrange(i + 1, s@.len() as int));
        i = i + 1;
    }
    i
}

} // verus!
