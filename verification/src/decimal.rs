//! Decimal numerals.

use std::num::IntErrorKind;

use vstd::prelude::*;

verus! {

/// Why a text is not the numeral of a `u64`.
#[derive(Clone, Copy, Debug, PartialEq, Eq, Structural)]
pub enum NumeralError {
    /// The text is empty.
    Empty,
    /// The text holds something that is not a digit.
    InvalidDigit,
    /// The number is too large.
    PosOverflow,
    /// Any other error.
    Other,
}

pub open spec fn is_digit(c: char) -> bool {
    '0' <= c <= '9'
}

/// The digit that stands for `n`.
pub open spec fn digit(n: int) -> char {
    ('0' as int + n) as char
}

/// The numeral of `n`, without leading zeros.
pub open spec fn numeral(n: nat) -> Seq<char>
    decreases n,
{
    if n < 10 {
        seq![digit(n as int)]
    } else {
        numeral(n / 10).push(digit((n % 10) as int))
    }
}

/// The number that a sequence of digits stands for.
pub open spec fn digits_value(digits: Seq<char>) -> nat
    decreases digits.len(),
{
    if digits.len() == 0 {
        0
    } else {
        10 * digits_value(digits.drop_last()) + (digits.last() as int - '0' as int) as nat
    }
}

/// The digits of a numeral: a sign `+` in front of them may be there and says nothing.
pub open spec fn unsigned_part(text: Seq<char>) -> Seq<char> {
    if text.len() > 0 && text[0] == '+' {
        text.skip(1)
    } else {
        text
    }
}

/// The number that a text denotes, if the text is a numeral: one digit or more, and nothing but
/// digits, behind an optional sign.
pub open spec fn denoted(text: Seq<char>) -> Option<nat> {
    let digits = unsigned_part(text);
    if digits.len() > 0 && (forall|i: int| 0 <= i < digits.len() ==> is_digit(#[trigger] digits[i])) {
        Some(digits_value(digits))
    } else {
        None
    }
}

/// What parsing a text gives: the number that the text denotes, if a `u64` can hold it. An empty
/// text is reported as empty, and the numeral of a larger number as too large. A text of fewer
/// than twenty characters, which holds no number that is too large, is otherwise reported as
/// holding an invalid digit. A longer text that is no numeral may be reported as either; see
/// [`numeral_error`].
pub open spec fn parses_as(text: Seq<char>, parsed: Result<u64, NumeralError>) -> bool {
    match parsed {
        Ok(number) => denoted(text) == Some(number as nat),
        Err(error) => {
            &&& denoted(text) matches Some(number) ==> number > u64::MAX && error
                == NumeralError::PosOverflow
            &&& error == NumeralError::Empty <==> text.len() == 0
            &&& denoted(text) is None && 0 < text.len() < 20 ==> error
                == NumeralError::InvalidDigit
        },
    }
}

/// The error with which parsing rejects a text that is not the numeral of a `u64`. It depends on the
/// text alone.
pub uninterp spec fn numeral_error(text: Seq<char>) -> NumeralError;

/// The numeral of a number denotes that number.
pub proof fn law_numeral_denotes_its_number(n: nat)
    ensures
        denoted(numeral(n)) == Some(n),
{
    lemma_numeral_digits(n);
    assert(is_digit(numeral(n)[0]));
    assert(unsigned_part(numeral(n)) == numeral(n));
}

/// A numeral is made of digits alone, has no leading zero but for the numeral of zero itself, and its
/// digits stand for its number.
pub proof fn law_numeral_is_plain(n: nat)
    ensures
        numeral(n).len() > 0,
        forall|i: int| 0 <= i < numeral(n).len() ==> '0' <= #[trigger] numeral(n)[i] <= '9',
        n > 0 ==> numeral(n)[0] != '0',
        numeral(n).len() > 1 ==> n > 0,
        digits_value(numeral(n)) == n,
    decreases n,
{
    lemma_numeral_digits(n);
    assert forall|i: int| 0 <= i < numeral(n).len() implies '0' <= #[trigger] numeral(n)[i]
        <= '9' by {
        assert(is_digit(numeral(n)[i]));
    }
    if n >= 10 {
        law_numeral_is_plain(n / 10);
        assert(numeral(n)[0] == numeral(n / 10)[0]);
    }
}

/// A digit alone denotes its value, and a digit behind a numeral makes it denote ten times as much,
/// and the value of the digit.
pub proof fn law_digits_count_by_tens(text: Seq<char>, digit: char)
    requires
        '0' <= digit <= '9',
    ensures
        denoted(seq![digit]) == Some((digit as int - '0' as int) as nat),
        denoted(text) matches Some(n) ==> denoted(text.push(digit)) == Some(
            (10 * n + (digit as int - '0' as int)) as nat,
        ),
{
    reveal_with_fuel(digits_value, 2);
    let one = seq![digit];
    assert(unsigned_part(one) =~= one);
    assert(one.drop_last() =~= Seq::<char>::empty());
    if denoted(text) is Some {
        let digits = unsigned_part(text);
        let longer = unsigned_part(text.push(digit));
        assert(longer =~= digits.push(digit));
        assert(longer.drop_last() =~= digits);
        assert forall|i: int| 0 <= i < longer.len() implies is_digit(#[trigger] longer[i]) by {
            if i < digits.len() {
                assert(is_digit(digits[i]));
            }
        }
    }
}

/// A sign `+` in front of a text that has none says nothing.
pub proof fn law_sign_says_nothing(text: Seq<char>)
    requires
        text.len() == 0 || text[0] != '+',
    ensures
        denoted(seq!['+'] + text) == denoted(text),
{
    assert((seq!['+'] + text).skip(1) =~= text);
}

/// A text that holds no digit, or anything but digits behind an optional sign `+`, denotes nothing.
pub proof fn law_other_texts_denote_nothing(text: Seq<char>, i: int)
    ensures
        text.len() == 0 ==> denoted(text) is None,
        text == seq!['+'] ==> denoted(text) is None,
        0 <= i < text.len() && !('0' <= text[i] <= '9') && !(i == 0 && text[i] == '+') ==> denoted(
            text,
        ) is None,
{
    if 0 <= i < text.len() && !('0' <= text[i] <= '9') && !(i == 0 && text[i] == '+') {
        let digits = unsigned_part(text);
        if text[0] == '+' {
            assert(!is_digit(digits[i - 1]));
        } else {
            assert(!is_digit(digits[i]));
        }
    }
}

/// What parsing a text can give: its number, if it denotes one that a `u64` can hold, and nothing
/// else; a larger number is reported as too large, an empty text as empty.
pub proof fn law_parsing_gives_the_number(text: Seq<char>, parsed: Result<u64, NumeralError>)
    requires
        parses_as(text, parsed),
    ensures
        parsed matches Ok(number) ==> denoted(text) == Some(number as nat),
        denoted(text) matches Some(number) ==> if number <= u64::MAX {
            parsed is Ok && parsed->Ok_0 == number
        } else {
            parsed is Err && parsed->Err_0 == NumeralError::PosOverflow
        },
        denoted(text) is None ==> parsed is Err,
        text.len() == 0 <==> parsed is Err && parsed->Err_0 == NumeralError::Empty,
        denoted(text) is None && 0 < text.len() < 20 ==> parsed->Err_0
            == NumeralError::InvalidDigit,
{
    if text.len() == 0 {
        assert(denoted(text) is None);
    }
}

/// What was written as a numeral is parsed to the number that was written.
pub proof fn law_parsing_undoes_writing(number: u64, parsed: Result<u64, NumeralError>)
    requires
        parses_as(numeral(number as nat), parsed),
    ensures
        parsed is Ok && parsed->Ok_0 == number,
{
    law_numeral_denotes_its_number(number as nat);
}

proof fn lemma_numeral_digits(n: nat)
    ensures
        numeral(n).len() > 0,
        forall|i: int| 0 <= i < numeral(n).len() ==> is_digit(#[trigger] numeral(n)[i]),
        digits_value(numeral(n)) == n,
    decreases n,
{
    reveal_with_fuel(digits_value, 2);
    if n < 10 {
        assert(numeral(n).drop_last() =~= Seq::<char>::empty());
    } else {
        lemma_numeral_digits(n / 10);
        assert(numeral(n).drop_last() =~= numeral(n / 10));
    }
}

/// Calls `u64::to_string`. Trusted: it gives the decimal numeral, without sign and without
/// leading zeros.
#[verifier::external_body]
pub(crate) fn u64_to_string(number: u64) -> (text: String)
    ensures
        text@ == numeral(number as nat),
{
    number.to_string()
}

/// Calls `str::parse::<u64>`. Trusted: it accepts exactly the decimal numerals, with an optional
/// sign `+`, of the numbers that a `u64` can hold, and reports an empty text, an invalid digit and
/// a number that is too large as such. The error depends on the text alone. Of a malformed text of
/// twenty characters or more, whose digits may also be too large, no more is stated than that.
#[verifier::external_body]
pub(crate) fn parse_u64(text: &str) -> (parsed: Result<u64, NumeralError>)
    ensures
        parses_as(text@, parsed),
        parsed matches Err(error) ==> error == numeral_error(text@),
{
    match text.parse::<u64>().map_err(|error| error.kind().clone()) {
        Ok(number) => Ok(number),
        Err(IntErrorKind::Empty) => Err(NumeralError::Empty),
        Err(IntErrorKind::InvalidDigit) => Err(NumeralError::InvalidDigit),
        Err(IntErrorKind::PosOverflow) => Err(NumeralError::PosOverflow),
        Err(_) => Err(NumeralError::Other),
    }
}

} // verus!
