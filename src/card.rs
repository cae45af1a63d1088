use vstd::prelude::*;
use crate::digits::{chars_of, is_digit};
use crate::luhn::{checksum, luhn_sum, luhn_valid};

verus! {

/// The card networks told apart by number length and leading digits.
#[derive(Debug, Clone, Copy, PartialEq, Eq, Structural)]
pub enum CardType {
    AmericanExpress,
    MasterCard,
    Visa,
    Unrecognized,
}

/// Whether every character of `s` is an ASCII decimal digit.
pub open spec fn all_digits(s: Seq<char>) -> bool {
    forall|i: int| 0 <= i < s.len() ==> is_digit(#[trigger] s[i])
}

/// American Express: fifteen digits, starting with 34 or 37.
pub open spec fn is_amex_number(s: Seq<char>) -> bool {
    &&& s.len() == 15
    &&& all_digits(s)
    &&& s[0] == '3'
    &&& (s[1] == '4' || s[1] == '7')
}

/// MasterCard: sixteen digits, starting with 51, 52, 53, 54 or 55.
pub open spec fn is_mastercard_number(s: Seq<char>) -> bool {
    &&& s.len() == 16
    &&& all_digits(s)
    &&& s[0] == '5'
    &&& '1' <= s[1] <= '5'
}

/// Visa: fourteen to sixteen digits, starting with 4.
pub open spec fn is_visa_number(s: Seq<char>) -> bool {
    &&& 14 <= s.len() <= 16
    &&& all_digits(s)
    &&& s[0] == '4'
}

/// The network of `s`: the first rule that matches, in the order American
/// Express, MasterCard, Visa; `Unrecognized` where none does.
pub open spec fn card_type_of(s: Seq<char>) -> CardType {
    if is_amex_number(s) {
        CardType::AmericanExpress
    } else if is_mastercard_number(s) {
        CardType::MasterCard
    } else if is_visa_number(s) {
        CardType::Visa
    } else {
        CardType::Unrecognized
    }
}

/// The outcome of validating `s`: its network where it has one and passes the
/// Luhn check, otherwise nothing.
pub open spec fn verdict_of(s: Seq<char>) -> Option<CardType> {
    if card_type_of(s) != CardType::Unrecognized && luhn_valid(s) {
        Some(card_type_of(s))
    } else {
        None
    }
}

/// Every rule asks for fourteen to sixteen characters, so a string of any other
/// length is `Unrecognized`.
pub proof fn lemma_unrecognized_outside_lengths(s: Seq<char>)
    requires
        s.len() < 14 || s.len() > 16,
    ensures
        card_type_of(s) == CardType::Unrecognized,
{
}

/// Classification and the checksum depend on the characters alone: equal inputs
/// give equal networks, checksums and verdicts.
pub proof fn lemma_same_input_same_result(s: Seq<char>, t: Seq<char>)
    requires
        s == t,
    ensures
        card_type_of(s) == card_type_of(t),
        luhn_sum(s) == luhn_sum(t),
        verdict_of(s) == verdict_of(t),
{
}

/// Whether every character of `chars` is an ASCII decimal digit.
fn all_ascii_digits(chars: &Vec<char>) -> (r: bool)
    ensures
        r == all_digits(chars@),
{
    let mut i: usize = 0;
    while i < chars.len()
        invariant
            i <= chars@.len(),
            forall|j: int| 0 <= j < i ==> is_digit(#[trigger] chars@[j]),
        decreases chars.len() - i,
    {
        let c = chars[i];
        if !('0' <= c && c <= '9') {
            return false;
        }
        i = i + 1;
    }
    true
}

/// Tells the network of `card_number` from its length and leading digits.
/// Total: anything that matches no rule is `Unrecognized`.
pub fn get_possible_card_type(card_number: &String) -> (r: CardType)
    ensures
        r == card_type_of(card_number@),
{
    let chars = chars_of(card_number.as_str());
    let n = chars.len();
    if n < 14 || n > 16 || !all_ascii_digits(&chars) {
        return CardType::Unrecognized;
    }
    let first = chars[0];
    let second = chars[1];
    if n == 15 && first == '3' && (second == '4' || second == '7') {
        return CardType::AmericanExpress;
    }
    if n == 16 && first == '5' && '1' <= second && second <= '5' {
        return CardType::MasterCard;
    }
    if first == '4' {
        return CardType::Visa;
    }
    CardType::Unrecognized
}

/// Validates `card_number`: its network where it is recognized and its Luhn
/// checksum is a multiple of ten, `None` otherwise.
pub fn validate(card_number: &String) -> (r: Option<CardType>)
    ensures
        r == verdict_of(card_number@),
        r matches Some(t) ==> t != CardType::Unrecognized,
{
    let card_type = get_possible_card_type(card_number);
    if card_type == CardType::Unrecognized {
        return None;
    }
    if checksum(card_number.as_str()) % 10 == 0 {
        Some(card_type)
    } else {
        None
    }
}

impl CardType {
    /// The network's name as shown to a person.
    pub fn display_name(&self) -> (r: &'static str)
        ensures
            *self == CardType::AmericanExpress ==> r@ == "American Express"@,
            *self == CardType::MasterCard ==> r@ == "MasterCard"@,
            *self == CardType::Visa ==> r@ == "Visa"@,
            *self == CardType::Unrecognized ==> r@ == "Unrecognized"@,
    {
        match self {
            CardType::AmericanExpress => "American Express",
            CardType::MasterCard => "MasterCard",
            CardType::Visa => "Visa",
            CardType::Unrecognized => "Unrecognized",
        }
    }
}

} // verus!
