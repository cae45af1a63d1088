use vstd::prelude::*;
use crate::digits::{chars_of, decimal_digit, digit_value, is_digit};

verus! {

/// The character of `s` at distance `k` from its right end (the last character is at 0).
pub open spec fn from_right(s: Seq<char>, k: int) -> char {
    s[s.len() - 1 - k]
}

/// Sum of the two decimal digits of a number below one hundred.
pub open spec fn sum_of_two_digits(n: nat) -> nat {
    n / 10 + n % 10
}

/// What a digit at an odd distance from the right contributes: its value doubled,
/// with the digits of the doubled value added up.
pub open spec fn doubled_contribution(c: char) -> nat {
    sum_of_two_digits(2 * digit_value(c))
}

/// Doubled-position sum over the `k` characters nearest the right end of `s`.
pub open spec fn doubled_sum_upto(s: Seq<char>, k: int) -> nat
    decreases k,
{
    if k <= 0 {
        0
    } else {
        doubled_sum_upto(s, k - 1) + if (k - 1) % 2 == 1 {
            doubled_contribution(from_right(s, k - 1))
        } else {
            0
        }
    }
}

/// Untouched-position sum over the `k` characters nearest the right end of `s`.
pub open spec fn untouched_sum_upto(s: Seq<char>, k: int) -> nat
    decreases k,
{
    if k <= 0 {
        0
    } else {
        untouched_sum_upto(s, k - 1) + if (k - 1) % 2 == 0 {
            digit_value(from_right(s, k - 1))
        } else {
            0
        }
    }
}

/// The doubled-position sum of `s`: over the characters at odd distance from the right.
pub open spec fn doubled_sum(s: Seq<char>) -> nat {
    doubled_sum_upto(s, s.len() as int)
}

/// The untouched-position sum of `s`: over the characters at even distance from the right.
pub open spec fn untouched_sum(s: Seq<char>) -> nat {
    untouched_sum_upto(s, s.len() as int)
}

/// The Luhn checksum of `s`.
pub open spec fn luhn_sum(s: Seq<char>) -> nat {
    doubled_sum(s) + untouched_sum(s)
}

/// A string passes the Luhn check when its checksum is a multiple of ten.
pub open spec fn luhn_valid(s: Seq<char>) -> bool {
    luhn_sum(s) % 10 == 0
}

/// A doubled digit contributes at most nine, and exactly the doubled value less
/// nine when doubling gives two digits.
pub proof fn lemma_doubled_contribution(c: char)
    ensures
        doubled_contribution(c) <= 9,
        doubled_contribution(c) == (if 2 * digit_value(c) > 9 {
            (2 * digit_value(c) - 9) as nat
        } else {
            2 * digit_value(c)
        }),
{
}

/// Together the two partial sums grow by at most nine per character.
pub proof fn lemma_partial_sums_bound(s: Seq<char>, k: int)
    requires
        0 <= k <= s.len(),
    ensures
        doubled_sum_upto(s, k) + untouched_sum_upto(s, k) <= 9 * k,
    decreases k,
{
    if k > 0 {
        lemma_partial_sums_bound(s, k - 1);
        lemma_doubled_contribution(from_right(s, k - 1));
    }
}

/// The empty string has checksum zero.
pub proof fn lemma_checksum_of_empty()
    ensures
        luhn_sum(Seq::<char>::empty()) == 0,
{
}

/// Characters that are no digits contribute nothing to the checksum: a string
/// without digits has checksum zero.
pub proof fn lemma_checksum_without_digits(s: Seq<char>)
    requires
        forall|i: int| 0 <= i < s.len() ==> !is_digit(#[trigger] s[i]),
    ensures
        luhn_sum(s) == 0,
{
    lemma_partial_sums_without_digits(s, s.len() as int);
}

proof fn lemma_partial_sums_without_digits(s: Seq<char>, k: int)
    requires
        0 <= k <= s.len(),
        forall|i: int| 0 <= i < s.len() ==> !is_digit(#[trigger] s[i]),
    ensures
        doubled_sum_upto(s, k) == 0,
        untouched_sum_upto(s, k) == 0,
    decreases k,
{
    if k > 0 {
        lemma_partial_sums_without_digits(s, k - 1);
        assert(!is_digit(s[s.len() - 1 - (k - 1)]));
    }
}

/// `s` with every character that is no digit replaced by `'0'`.
pub open spec fn non_digits_as_zero(s: Seq<char>) -> Seq<char> {
    s.map_values(|c: char| if is_digit(c) { c } else { '0' })
}

/// A character that is no digit contributes exactly what a zero would: it adds
/// nothing, yet keeps its position.
pub proof fn lemma_non_digits_count_as_zero(s: Seq<char>)
    ensures
        luhn_sum(s) == luhn_sum(non_digits_as_zero(s)),
{
    lemma_partial_sums_non_digits_as_zero(s, s.len() as int);
}

proof fn lemma_partial_sums_non_digits_as_zero(s: Seq<char>, k: int)
    requires
        0 <= k <= s.len(),
    ensures
        doubled_sum_upto(s, k) == doubled_sum_upto(non_digits_as_zero(s), k),
        untouched_sum_upto(s, k) == untouched_sum_upto(non_digits_as_zero(s), k),
    decreases k,
{
    if k > 0 {
        lemma_partial_sums_non_digits_as_zero(s, k - 1);
    }
}

/// Doubles every second digit from the right, adds up the digits of each doubled
/// value, and returns the total. Characters that are no digits contribute nothing
/// but still take a position.
pub fn get_patterned_sum(card_number: &str) -> (r: u32)
    requires
        9 * card_number@.len() <= u32::MAX,
    ensures
        r == doubled_sum(card_number@),
{
    let chars = chars_of(card_number);
    let n = chars.len();
    let mut index: usize = 0;
    let mut overall_sum: u32 = 0;
    while index < n
        invariant
            chars@ == card_number@,
            n == chars@.len(),
            index <= n,
            9 * n <= u32::MAX,
            overall_sum == doubled_sum_upto(card_number@, index as int),
        decreases n - index,
    {
        proof {
            lemma_partial_sums_bound(card_number@, index as int);
            lemma_doubled_contribution(from_right(card_number@, index as int));
        }
        if index % 2 == 1 {
            if let Some(char_value) = decimal_digit(chars[n - 1 - index]) {
                let doubled = char_value * 2;
                let contribution = if doubled > 9 {
                    doubled - 9
                } else {
                    doubled
                };
                overall_sum = overall_sum + contribution;
            }
        }
        index = index + 1;
    }
    overall_sum
}

/// Adds up every digit at an even distance from the right (the last, third to last,
/// and so on). Characters that are no digits contribute nothing but still take a
/// position.
pub fn get_unused_digit_sum(card_number: &str) -> (r: u32)
    requires
        9 * card_number@.len() <= u32::MAX,
    ensures
        r == untouched_sum(card_number@),
{
    let chars = chars_of(card_number);
    let n = chars.len();
    let mut index: usize = 0;
    let mut sum: u32 = 0;
    while index < n
        invariant
            chars@ == card_number@,
            n == chars@.len(),
            index <= n,
            9 * n <= u32::MAX,
            sum == untouched_sum_upto(card_number@, index as int),
        decreases n - index,
    {
        proof {
            lemma_partial_sums_bound(card_number@, index as int);
        }
        if index % 2 == 0 {
            if let Some(char_value) = decimal_digit(chars[n - 1 - index]) {
                sum = sum + char_value;
            }
        }
        index = index + 1;
    }
    sum
}

/// The Luhn checksum of `card_number`: the doubled-position sum plus the
/// untouched-position sum.
pub fn checksum(card_number: &str) -> (r: u32)
    requires
        9 * card_number@.len() <= u32::MAX,
    ensures
        r == luhn_sum(card_number@),
{
    let patterned_sum = get_patterned_sum(card_number);
    let unused_digit_sum = get_unused_digit_sum(card_number);
    proof {
        lemma_partial_sums_bound(card_number@, card_number@.len() as int);
    }
    patterned_sum + unused_digit_sum
}

} // verus!
