use vstd::prelude::*;

verus! {

/// Whether `c` is an ASCII decimal digit.
pub open spec fn is_digit(c: char) -> bool {
    '0' <= c && c <= '9'
}

/// The numeric value of an ASCII decimal digit; any other character counts as zero.
pub open spec fn digit_value(c: char) -> nat {
    if is_digit(c) {
        (c as nat - '0' as nat) as nat
    } else {
        0
    }
}

/// Sum of the digit values of the first `n` characters of `s`.
pub open spec fn digit_total_upto(s: Seq<char>, n: int) -> nat
    decreases n,
{
    if n <= 0 {
        0
    } else {
        digit_total_upto(s, n - 1) + digit_value(s[n - 1])
    }
}

/// Sum of the digit values of all characters of `s`; non-digits contribute nothing.
pub open spec fn digit_total(s: Seq<char>) -> nat {
    digit_total_upto(s, s.len() as int)
}

/// The value of `c` as a decimal digit, or `None` where `c` is no ASCII digit.
pub fn decimal_digit(c: char) -> (r: Option<u32>)
    ensures
        r == (if is_digit(c) {
            Some(digit_value(c) as u32)
        } else {
            None::<u32>
        }),
        r is Some ==> r->0 <= 9,
{
    if '0' <= c && c <= '9' {
        Some((c as u32) - ('0' as u32))
    } else {
        None
    }
}

/// The characters of `s`, in order.
pub fn chars_of(s: &str) -> (r: Vec<char>)
    ensures
        r@ == s@,
{
    let mut r: Vec<char> = Vec::new();
    for c in it: s.chars()
        invariant
            it.seq() == s@,
            r@ == it.seq().take(it.index() as int),
    {
        r.push(c);
    }
    r
}

/// Each prefix sum of digit values is at most nine per character.
pub proof fn lemma_digit_total_bound(s: Seq<char>, n: int)
    requires
        0 <= n <= s.len(),
    ensures
        digit_total_upto(s, n) <= 9 * n,
    decreases n,
{
    if n > 0 {
        lemma_digit_total_bound(s, n - 1);
    }
}

/// Adds up the values of the decimal digits in `s`, skipping every other character.
pub fn add_up_digits_in_string(s: &String) -> (r: u32)
    requires
        9 * s@.len() <= u32::MAX,
    ensures
        r == digit_total(s@),
{
    let chars = chars_of(s.as_str());
    let n = chars.len();
    let mut sum: u32 = 0;
    let mut i: usize = 0;
    while i < n
        invariant
            chars@ == s@,
            n == chars@.len(),
            i <= n,
            9 * n <= u32::MAX,
            sum == digit_total_upto(s@, i as int),
        decreases n - i,
    {
        proof {
            lemma_digit_total_bound(s@, i as int);
        }
        if let Some(digit) = decimal_digit(chars[i]) {
            sum = sum + digit;
        }
        i = i + 1;
    }
    sum
}

} // verus!
