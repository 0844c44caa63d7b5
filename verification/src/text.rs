//! The text shown on the display: "Roar " followed by the counter in decimal.

use vstd::prelude::*;

verus! {

/// The character of a single decimal digit.
pub open spec fn digit_char(d: nat) -> char {
    if d == 0 {
        '0'
    } else if d == 1 {
        '1'
    } else if d == 2 {
        '2'
    } else if d == 3 {
        '3'
    } else if d == 4 {
        '4'
    } else if d == 5 {
        '5'
    } else if d == 6 {
        '6'
    } else if d == 7 {
        '7'
    } else if d == 8 {
        '8'
    } else {
        '9'
    }
}

/// The decimal digits of `n`, most significant first, without sign, padding or
/// separators; zero is the single digit '0'.
pub open spec fn dec_digits(n: nat) -> Seq<char>
    decreases n,
{
    if n < 10 {
        seq![digit_char(n)]
    } else {
        dec_digits(n / 10) + seq![digit_char(n % 10)]
    }
}

/// The label drawn for a count: "Roar " followed by the decimal digits.
pub open spec fn roar_text(n: u64) -> Seq<char> {
    seq!['R', 'o', 'a', 'r', ' '] + dec_digits(n as nat)
}

/// Powers of ten.
pub open spec fn pow10(k: nat) -> nat
    decreases k,
{
    if k == 0 {
        1nat
    } else {
        10 * pow10((k - 1) as nat)
    }
}

/// A number below 10^k prints as at most k decimal digits.
pub proof fn lemma_dec_digits_len(n: nat, k: nat)
    requires
        k >= 1,
        n < pow10(k),
    ensures
        1 <= dec_digits(n).len() <= k,
    decreases n,
{
    if n < 10 {
    } else {
        reveal_with_fuel(pow10, 3);
        assert(pow10(1) == 10);
        assert(k >= 2);
        assert(pow10(k) == 10 * pow10((k - 1) as nat));
        vstd::arithmetic::div_mod::lemma_fundamental_div_mod(n as int, 10);
        vstd::arithmetic::div_mod::lemma_mod_bound(n as int, 10);
        assert(10 * (n / 10) < 10 * pow10((k - 1) as nat));
        lemma_dec_digits_len(n / 10, (k - 1) as nat);
    }
}

/// The label for any `u64` count is at most 25 characters: the 5-character
/// prefix and at most 20 decimal digits.
pub proof fn lemma_roar_text_len(n: u64)
    ensures
        6 <= roar_text(n).len() <= 25,
{
    reveal_with_fuel(pow10, 21);
    assert(pow10(20) == 100000000000000000000);
    lemma_dec_digits_len(n as nat, 20);
}

/// Relies on std's `format!` (`Display` for `u64`): it renders the value as
/// its decimal digits, most significant first, without sign, padding or
/// separators, after the literal prefix.
#[verifier::external_body]
pub(crate) fn roar_label(count: u64) -> (r: String)
    ensures
        r@ == roar_text(count),
{
    format!("Roar {}", count)
}

} // verus!
