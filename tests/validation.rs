use card_validator::card::{get_possible_card_type, validate, CardType};
use card_validator::digits::{add_up_digits_in_string, chars_of, decimal_digit};
use card_validator::luhn::{checksum, get_patterned_sum, get_unused_digit_sum};

fn classify(s: &str) -> CardType {
    get_possible_card_type(&String::from(s))
}

#[test]
fn classifies_known_numbers() {
    assert_eq!(classify("378282246310005"), CardType::AmericanExpress);
    assert_eq!(classify("5105105105105100"), CardType::MasterCard);
    assert_eq!(classify("4111111111111111"), CardType::Visa);
    assert_eq!(classify("0000000000000000"), CardType::Unrecognized);
}

#[test]
fn amex_prefixes_and_length() {
    assert_eq!(classify("341111111111111"), CardType::AmericanExpress);
    assert_eq!(classify("371111111111111"), CardType::AmericanExpress);
    assert_eq!(classify("351111111111111"), CardType::Unrecognized);
    assert_eq!(classify("3711111111111111"), CardType::Unrecognized);
    assert_eq!(classify("37111111111111"), CardType::Unrecognized);
}

#[test]
fn mastercard_prefixes_are_51_to_55() {
    for p in ["51", "52", "53", "54", "55"] {
        let s = format!("{}11111111111111", p);
        assert_eq!(classify(&s), CardType::MasterCard);
    }
    assert_eq!(classify("5011111111111111"), CardType::Unrecognized);
    assert_eq!(classify("5611111111111111"), CardType::Unrecognized);
    assert_eq!(classify("5,11111111111111"), CardType::Unrecognized);
    assert_eq!(classify("511111111111111"), CardType::Unrecognized);
}

#[test]
fn visa_lengths_fourteen_to_sixteen() {
    assert_eq!(classify("4111111111111"), CardType::Unrecognized);
    assert_eq!(classify("41111111111111"), CardType::Visa);
    assert_eq!(classify("411111111111111"), CardType::Visa);
    assert_eq!(classify("4111111111111111"), CardType::Visa);
    assert_eq!(classify("41111111111111111"), CardType::Unrecognized);
}

#[test]
fn classification_is_total() {
    assert_eq!(classify(""), CardType::Unrecognized);
    assert_eq!(classify("4"), CardType::Unrecognized);
    assert_eq!(classify("41111111111111a1"), CardType::Unrecognized);
    assert_eq!(classify("4111 1111 1111 1111"), CardType::Unrecognized);
    assert_eq!(classify("4111111111111１11"), CardType::Unrecognized);
}

#[test]
fn other_lengths_are_unrecognized() {
    for n in [0usize, 1, 2, 12, 13, 17, 18, 19, 40] {
        let s = "4".repeat(n);
        assert_eq!(classify(&s), CardType::Unrecognized);
        let s = format!("34{}", "0".repeat(n.saturating_sub(2)));
        assert_eq!(classify(&s), CardType::Unrecognized);
    }
}

#[test]
fn luhn_known_valid() {
    assert_eq!(checksum("79927398713"), 70);
    assert_eq!(checksum("79927398713") % 10, 0);
}

#[test]
fn luhn_known_invalid() {
    assert_eq!(checksum("79927398710"), 67);
    assert_ne!(checksum("79927398710") % 10, 0);
}

#[test]
fn partial_sums_exact() {
    assert_eq!(get_patterned_sum("378282246310005"), 27);
    assert_eq!(get_unused_digit_sum("378282246310005"), 33);
    assert_eq!(get_patterned_sum("79927398713"), 28);
    assert_eq!(get_unused_digit_sum("79927398713"), 42);
    assert_eq!(get_patterned_sum("18"), 2);
    assert_eq!(get_unused_digit_sum("18"), 8);
}

#[test]
fn doubled_digits_over_nine_are_reduced() {
    // 9 doubled is 18, whose digits add up to 9; 5 doubled is 10, giving 1
    assert_eq!(get_patterned_sum("90"), 9);
    assert_eq!(get_patterned_sum("50"), 1);
    assert_eq!(get_patterned_sum("40"), 8);
}

#[test]
fn checksum_is_total() {
    assert_eq!(checksum(""), 0);
    assert_eq!(checksum("ab"), 0);
    assert_eq!(checksum("7a9"), 16);
    assert_eq!(get_patterned_sum(""), 0);
    assert_eq!(get_unused_digit_sum(""), 0);
}

#[test]
fn repeated_calls_agree() {
    let s = String::from("5105105105105100");
    assert_eq!(get_possible_card_type(&s), get_possible_card_type(&s));
    assert_eq!(checksum(&s), checksum(&s));
    assert_eq!(validate(&s), validate(&s));
}

#[test]
fn end_to_end_valid_amex() {
    let s = String::from("378282246310005");
    assert_eq!(get_possible_card_type(&s), CardType::AmericanExpress);
    assert_eq!(checksum(&s) % 10, 0);
    let verdict = validate(&s);
    assert_eq!(verdict, Some(CardType::AmericanExpress));
    assert_eq!(verdict.unwrap().display_name(), "American Express");
}

#[test]
fn end_to_end_invalid_visa() {
    let s = String::from("4111111111111112");
    assert_eq!(get_possible_card_type(&s), CardType::Visa);
    assert_ne!(checksum(&s) % 10, 0);
    assert_eq!(validate(&s), None);
}

#[test]
fn unrecognized_never_validates() {
    // passes the Luhn check but has no network
    assert_eq!(checksum("79927398713") % 10, 0);
    assert_eq!(validate(&String::from("79927398713")), None);
    assert_eq!(validate(&String::from("0000000000000000")), None);
}

#[test]
fn validates_other_networks() {
    assert_eq!(validate(&String::from("5105105105105100")), Some(CardType::MasterCard));
    assert_eq!(validate(&String::from("4111111111111111")), Some(CardType::Visa));
}

#[test]
fn display_names() {
    assert_eq!(CardType::AmericanExpress.display_name(), "American Express");
    assert_eq!(CardType::MasterCard.display_name(), "MasterCard");
    assert_eq!(CardType::Visa.display_name(), "Visa");
    assert_eq!(CardType::Unrecognized.display_name(), "Unrecognized");
}

#[test]
fn digit_helpers() {
    assert_eq!(add_up_digits_in_string(&String::from("1234")), 10);
    assert_eq!(add_up_digits_in_string(&String::from("18")), 9);
    assert_eq!(add_up_digits_in_string(&String::from("a1b2")), 3);
    assert_eq!(add_up_digits_in_string(&String::new()), 0);
    assert_eq!(decimal_digit('7'), Some(7));
    assert_eq!(decimal_digit('x'), None);
    assert_eq!(chars_of("aé1"), vec!['a', 'é', '1']);
}
