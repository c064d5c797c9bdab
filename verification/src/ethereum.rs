//! Addresses and wide integers of the Ethereum client library.

use std::str::FromStr;

use ethers::types::{H160, U256};
use rustc_hex::FromHexError;
use vstd::prelude::*;

verus! {

/// Why a text is not the address of an account.
#[derive(Clone, Copy, Debug, PartialEq, Eq, Structural)]
pub enum AddressError {
    /// The text holds this character, at this index behind the prefix, which is no hexadecimal
    /// digit.
    InvalidHexCharacter(char, usize),
    /// The text does not hold forty digits.
    InvalidHexLength,
}

/// The number of digits in the address of an account.
pub const ADDRESS_DIGITS: usize = 40;

pub open spec fn is_hex_digit(c: char) -> bool {
    '0' <= c <= '9' || 'a' <= c <= 'f' || 'A' <= c <= 'F'
}

pub open spec fn is_blank(c: char) -> bool {
    c == ' ' || c == '\r' || c == '\n' || c == '\t'
}

/// The value of a hexadecimal digit.
pub open spec fn hex_value(c: char) -> int {
    if c <= '9' {
        c as int - '0' as int
    } else if c <= 'F' {
        c as int - 'A' as int + 10
    } else {
        c as int - 'a' as int + 10
    }
}

/// The text without the prefix `0x`, if it has that.
pub open spec fn without_prefix(text: Seq<char>) -> Seq<char> {
    if text.len() >= 2 && text[0] == '0' && text[1] == 'x' {
        text.skip(2)
    } else {
        text
    }
}

/// The index of the first character that is neither a digit nor blank, or the length of the text
/// where there is none.
pub open spec fn first_foreign(text: Seq<char>) -> int
    decreases text.len(),
{
    if text.len() == 0 || !(is_hex_digit(text[0]) || is_blank(text[0])) {
        0
    } else {
        1 + first_foreign(text.skip(1))
    }
}

/// The hexadecimal digits of a text.
pub open spec fn hex_digits(text: Seq<char>) -> Seq<char> {
    text.filter(|c: char| is_hex_digit(c))
}

/// The address that a text denotes: forty hexadecimal digits, two for each byte, the more
/// significant one first. A prefix `0x` and blanks are passed over.
pub open spec fn address_of(text: Seq<char>) -> Result<Seq<u8>, AddressError> {
    let body = without_prefix(text);
    let foreign = first_foreign(body);
    let digits = hex_digits(body.take(foreign));
    if foreign < body.len() && digits.len() < ADDRESS_DIGITS {
        Err(AddressError::InvalidHexCharacter(body[foreign], foreign as usize))
    } else if foreign < body.len() || digits.len() != ADDRESS_DIGITS {
        Err(AddressError::InvalidHexLength)
    } else {
        Ok(Seq::new(20, |i: int| (16 * hex_value(digits[2 * i]) + hex_value(digits[2 * i + 1])) as u8))
    }
}

/// The bytes of a parsed address.
pub open spec fn address_bytes(parsed: Result<[u8; 20], AddressError>) -> Result<
    Seq<u8>,
    AddressError,
> {
    match parsed {
        Ok(address) => Ok(address@),
        Err(error) => Err(error),
    }
}

/// Calls `H160::from_str`. Trusted: it strips one prefix `0x`, passes over blanks, and accepts
/// exactly those texts that hold forty hexadecimal digits and nothing else; a character that is
/// neither, before the last of the forty digits, is reported with its index, and anything else
/// that is wrong is reported as a wrong length.
#[verifier::external_body]
pub(crate) fn parse_address(text: &str) -> (parsed: Result<[u8; 20], AddressError>)
    ensures
        address_bytes(parsed) == address_of(text@),
{
    match H160::from_str(text) {
        Ok(address) => Ok(address.0),
        Err(FromHexError::InvalidHexCharacter(c, i)) => Err(AddressError::InvalidHexCharacter(c, i)),
        Err(FromHexError::InvalidHexLength) => Err(AddressError::InvalidHexLength),
    }
}

/// An unsigned integer of 256 bits, as its four words, the least significant one first.
#[derive(Clone, Copy, Debug, PartialEq, Eq)]
pub struct Uint256 {
    pub words: [u64; 4],
}

impl Uint256 {
    /// The number that the words stand for.
    pub open spec fn value(self) -> int {
        self.words[0] + 0x1_0000_0000_0000_0000 * (self.words[1] + 0x1_0000_0000_0000_0000 * (
        self.words[2] + 0x1_0000_0000_0000_0000 * self.words[3]))
    }

    /// Whether the number is one that a `u64` can hold.
    pub fn fits_u64(&self) -> (fits: bool)
        ensures
            fits == (self.value() <= u64::MAX),
            fits <==> self.words[1] == 0 && self.words[2] == 0 && self.words[3] == 0,
    {
        self.words[1] == 0 && self.words[2] == 0 && self.words[3] == 0
    }

    /// The number as a `u64`.
    pub fn as_u64(&self) -> (number: u64)
        requires
            self.value() <= u64::MAX,
        ensures
            number == self.value(),
            number == self.words[0],
    {
        low_word(self.words)
    }
}

/// Calls `U256::as_u64`. Trusted: where the three higher words are zero, which `U256::as_u64`
/// insists on, it returns the lowest word.
#[verifier::external_body]
fn low_word(words: [u64; 4]) -> (word: u64)
    requires
        words[1] == 0,
        words[2] == 0,
        words[3] == 0,
    ensures
        word == words[0],
{
    U256(words).as_u64()
}

} // verus!
