//! Payment card number validation: network classification by length and
//! prefix, and the Luhn checksum.

pub mod digits;
pub mod luhn;
pub mod card;
