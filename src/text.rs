//! Decimal digits of integers, and the display of rounded percentage changes.

use vstd::prelude::*;
use crate::decimal::{Dec, pow10, MAX_MANTISSA, MAX_SCALE};

verus! {

/// The character of a decimal digit.
pub open spec fn digit_char(d: nat) -> char {
    if d == 0 {
        '0'
    } else if d == 1 {
        '1'
    } else if d == 2 {
        '2'
    } else if d == 3 {
        '3'
    } else if d == 4 {
        '4'
    } else if d == 5 {
        '5'
    } else if d == 6 {
        '6'
    } else if d == 7 {
        '7'
    } else if d == 8 {
        '8'
    } else {
        '9'
    }
}

pub open spec fn is_digit(c: char) -> bool {
    '0' <= c && c <= '9'
}

/// The decimal digits of `n`, most significant first, without leading zeros.
pub open spec fn digits_of(n: nat) -> Seq<char>
    decreases n,
{
    if n < 10 {
        seq![digit_char(n)]
    } else {
        digits_of(n / 10).push(digit_char(n % 10))
    }
}

pub proof fn lemma_digits_are_digits(n: nat)
    ensures
        digits_of(n).len() >= 1,
        forall|i: int| 0 <= i < digits_of(n).len() ==> is_digit(#[trigger] digits_of(n)[i]),
    decreases n,
{
    if n >= 10 {
        lemma_digits_are_digits(n / 10);
    }
}

/// One digit as a string.
fn digit_text(d: u128) -> (r: &'static str)
    requires
        d < 10,
    ensures
        r@ == seq![digit_char(d as nat)],
{
    if d == 0 {
        proof { reveal_strlit("0"); }
        "0"
    } else if d == 1 {
        proof { reveal_strlit("1"); }
        "1"
    } else if d == 2 {
        proof { reveal_strlit("2"); }
        "2"
    } else if d == 3 {
        proof { reveal_strlit("3"); }
        "3"
    } else if d == 4 {
        proof { reveal_strlit("4"); }
        "4"
    } else if d == 5 {
        proof { reveal_strlit("5"); }
        "5"
    } else if d == 6 {
        proof { reveal_strlit("6"); }
        "6"
    } else if d == 7 {
        proof { reveal_strlit("7"); }
        "7"
    } else if d == 8 {
        proof { reveal_strlit("8"); }
        "8"
    } else {
        proof { reveal_strlit("9"); }
        "9"
    }
}

/// Appends the decimal digits of `n` to `s`.
pub fn push_digits(s: &mut String, n: u128)
    ensures
        final(s)@ == old(s)@ + digits_of(n as nat),
    decreases n,
{
    if n >= 10 {
        push_digits(s, n / 10);
    }
    s.append(digit_text(n % 10));
    proof {
        if n >= 10 {
            assert(final(s)@ =~= old(s)@ + digits_of(n as nat));
        } else {
            assert(final(s)@ =~= old(s)@ + digits_of(n as nat));
        }
    }
}

/// `m / d` rounded to the nearest integer, a half going to the even neighbour.
pub open spec fn half_even_quotient(m: nat, d: nat) -> nat {
    let q = m / d;
    let r = m % d;
    if 2 * r > d || (2 * r == d && q % 2 == 1) {
        q + 1
    } else {
        q
    }
}

/// Relies on `rust_decimal::Decimal::round_dp`: it keeps a number with at most `dp`
/// fractional digits as it is, and otherwise rounds to `dp` fractional digits with
/// halves going to the even neighbour (banker's rounding).
#[verifier::external_body]
fn round_magnitude(mantissa: u128, scale: u32, dp: u32) -> (r: (u128, u32))
    requires
        mantissa <= MAX_MANTISSA,
        scale <= MAX_SCALE,
    ensures
        scale <= dp ==> r == (mantissa, scale),
        scale > dp ==> r.1 == dp && r.0 == half_even_quotient(
            mantissa as nat,
            pow10((scale - dp) as nat),
        ),
{
    let rounded = rust_decimal::Decimal::from_i128_with_scale(mantissa as i128, scale).round_dp(dp);
    (rounded.mantissa() as u128, rounded.scale())
}

/// The magnitude of `d` in tenths, rounded half to even.
pub open spec fn tenths_of(d: Dec) -> nat {
    if d.scale == 0 {
        d.mantissa as nat * 10
    } else {
        half_even_quotient(d.mantissa as nat, pow10((d.scale - 1) as nat))
    }
}

/// `+` for a value of zero or above, `-` below zero.
pub open spec fn sign_char(d: Dec) -> char {
    if d.is_nonneg() {
        '+'
    } else {
        '-'
    }
}

/// A sign, then the magnitude with exactly one fractional digit (`+3.1`, `-0.0`).
pub open spec fn signed_tenths_text(d: Dec) -> Seq<char> {
    seq![sign_char(d)] + digits_of(tenths_of(d) / 10) + seq!['.', digit_char(tenths_of(d) % 10)]
}

/// The magnitude of `d` rounded half to even to tenths.
pub fn tenths(d: &Dec) -> (r: u128)
    requires
        d.wf(),
    ensures
        r == tenths_of(*d),
{
    if d.scale == 0 {
        d.mantissa * 10
    } else {
        let (m, s) = round_magnitude(d.mantissa, d.scale, 1);
        proof {
            if d.scale == 1 {
                assert(pow10(0) == 1);
                assert(half_even_quotient(d.mantissa as nat, 1) == d.mantissa);
            }
        }
        m
    }
}

/// `d` with its sign and one fractional digit, as `signed_tenths_text` says.
pub fn signed_tenths(d: &Dec) -> (r: String)
    requires
        d.wf(),
    ensures
        r@ == signed_tenths_text(*d),
{
    let t = tenths(d);
    let mut s = if !d.negative || d.mantissa == 0 {
        proof { reveal_strlit("+"); }
        String::from_str("+")
    } else {
        proof { reveal_strlit("-"); }
        String::from_str("-")
    };
    push_digits(&mut s, t / 10);
    proof { reveal_strlit("."); }
    s.append(".");
    s.append(digit_text(t % 10));
    proof {
        assert(s@ =~= signed_tenths_text(*d));
    }
    s
}

/// A percentage change reads with a `+` exactly when it is zero or above, and with exactly
/// one digit after its only decimal point.
pub proof fn lemma_percentage_shape(d: Dec)
    ensures
        ({
            let t = signed_tenths_text(d);
            &&& (t[0] == '+') == d.is_nonneg()
            &&& t.len() >= 4
            &&& t[t.len() - 2] == '.'
            &&& is_digit(t[t.len() - 1])
            &&& forall|i: int| 0 <= i < t.len() && i != t.len() - 2 ==> #[trigger] t[i] != '.'
        }),
{
    let t = signed_tenths_text(d);
    let ds = digits_of(tenths_of(d) / 10);
    lemma_digits_are_digits(tenths_of(d) / 10);
    assert(t.len() == ds.len() + 3);
    assert forall|i: int| 0 <= i < t.len() && i != t.len() - 2 implies #[trigger] t[i] != '.' by {
        if 1 <= i < 1 + ds.len() {
            assert(t[i] == ds[i - 1]);
            assert(is_digit(ds[i - 1]));
        }
    }
}

/// `pat` occurs in `s` starting at position `i`.
pub open spec fn occurs_at(s: Seq<char>, pat: Seq<char>, i: int) -> bool {
    0 <= i && i + pat.len() <= s.len() && s.subrange(i, i + pat.len()) == pat
}

/// `pat` occurs somewhere in `s`.
pub open spec fn has_infix(s: Seq<char>, pat: Seq<char>) -> bool {
    exists|i: int| occurs_at(s, pat, i)
}

/// Whether `pat` occurs in `s` at `i`, comparing character by character.
fn matches_at(s: &str, slen: usize, pat: &str, plen: usize, i: usize) -> (r: bool)
    requires
        slen == s@.len(),
        plen == pat@.len(),
        i + plen <= slen,
    ensures
        r == occurs_at(s@, pat@, i as int),
{
    let mut j: usize = 0;
    while j < plen
        invariant
            slen == s@.len(),
            plen == pat@.len(),
            i + plen <= slen,
            j <= plen,
            forall|k: int| 0 <= k < j ==> s@[i + k] == pat@[k],
        decreases plen - j,
    {
        if s.get_char(i + j) != pat.get_char(j) {
            proof {
                assert(s@.subrange(i as int, i + plen)[j as int] != pat@[j as int]);
            }
            return false;
        }
        j = j + 1;
    }
    assert(s@.subrange(i as int, i + plen) =~= pat@);
    true
}

/// The first position at which `pat` occurs in `s`.
pub fn find_text(s: &str, pat: &str) -> (r: Option<usize>)
    ensures
        r is Some ==> occurs_at(s@, pat@, r->0 as int),
        r is Some ==> forall|j: int| 0 <= j < r->0 ==> !occurs_at(s@, pat@, j),
        r is None ==> !has_infix(s@, pat@),
{
    let slen = s.unicode_len();
    let plen = pat.unicode_len();
    if plen > slen {
        return None;
    }
    if plen == 0 {
        assert(s@.subrange(0, 0) =~= pat@);
        return Some(0);
    }
    let mut i: usize = 0;
    let last: usize = slen - plen;
    while i <= last
        invariant
            last == slen - plen,
            slen == s@.len(),
            plen == pat@.len(),
            1 <= plen <= slen,
            i <= slen - plen + 1,
            forall|j: int| 0 <= j < i ==> !occurs_at(s@, pat@, j),
        decreases last + 1 - i,
    {
        if matches_at(s, slen, pat, plen, i) {
            return Some(i);
        }
        i = i + 1;
    }
    None
}

} // verus!
