//! What holds of the texts that denote the address of an account.

use vstd::prelude::*;

use crate::ethereum;
use crate::ethereum::AddressError;

verus! {

/// A character that may stand in the text of an address: a hexadecimal digit or a blank.
pub open spec fn is_allowed(c: char) -> bool {
    ethereum::is_hex_digit(c) || ethereum::is_blank(c)
}

/// The text begins with the prefix `0x`.
pub open spec fn has_prefix(text: Seq<char>) -> bool {
    text.len() >= 2 && text[0] == '0' && text[1] == 'x'
}

/// The value of a hexadecimal digit is its place in the sequence of the digits, whichever the case of
/// its letter.
pub proof fn law_hex_digits_count_to_fifteen(c: char)
    ensures
        '0' <= c <= '9' ==> ethereum::is_hex_digit(c) && ethereum::hex_value(c) == c as int - 48,
        'a' <= c <= 'f' ==> ethereum::is_hex_digit(c) && ethereum::hex_value(c) == c as int - 87,
        'A' <= c <= 'F' ==> ethereum::is_hex_digit(c) && ethereum::hex_value(c) == c as int - 55,
        ethereum::is_hex_digit(c) ==> 0 <= ethereum::hex_value(c) < 16 && !ethereum::is_blank(c),
        ethereum::is_hex_digit(c) <==> ('0' <= c <= '9' || 'a' <= c <= 'f' || 'A' <= c <= 'F'),
        ethereum::is_blank(c) <==> (c == ' ' || c == '\t' || c == '\n' || c == '\r'),
{
}

/// Forty hexadecimal digits denote an address: each byte is made of two of them, the more significant
/// one first.
pub proof fn law_forty_digits_make_an_address(text: Seq<char>, i: int)
    requires
        text.len() == 40,
        forall|j: int| 0 <= j < text.len() ==> ethereum::is_hex_digit(#[trigger] text[j]),
        0 <= i < 20,
    ensures
        ethereum::address_of(text) is Ok,
        ethereum::address_of(text)->Ok_0.len() == 20,
        ethereum::address_of(text)->Ok_0[i] / 16 == ethereum::hex_value(text[2 * i]),
        ethereum::address_of(text)->Ok_0[i] % 16 == ethereum::hex_value(text[2 * i + 1]),
{
    assert(ethereum::is_hex_digit(text[1]));
    lemma_first_foreign(text);
    assert(text.take(40) =~= text);
    lemma_digits_of_digits(text);
    assert(ethereum::is_hex_digit(text[2 * i]));
    assert(ethereum::is_hex_digit(text[2 * i + 1]));
}

/// A text of hexadecimal digits that are not forty is refused for its length.
pub proof fn law_other_numbers_of_digits_are_refused(text: Seq<char>)
    requires
        text.len() != 40,
        forall|j: int| 0 <= j < text.len() ==> ethereum::is_hex_digit(#[trigger] text[j]),
    ensures
        ethereum::address_of(text) == Err::<Seq<u8>, _>(AddressError::InvalidHexLength),
{
    if text.len() > 1 {
        assert(ethereum::is_hex_digit(text[1]));
    }
    lemma_first_foreign(text);
    assert(text.take(text.len() as int) =~= text);
    lemma_digits_of_digits(text);
}

/// A prefix `0x` is passed over, once.
pub proof fn law_prefix_is_passed_over(text: Seq<char>)
    requires
        !has_prefix(text),
    ensures
        ethereum::address_of(seq!['0', 'x'] + text) == ethereum::address_of(text),
{
    assert((seq!['0', 'x'] + text).skip(2) =~= text);
}

/// The first character that is neither a digit nor blank is reported, with its index behind the
/// prefix, if fewer than forty characters stand in front of it.
pub proof fn law_foreign_character_is_reported(text: Seq<char>, i: int)
    requires
        !has_prefix(text),
        0 <= i < text.len(),
        i < 40,
        forall|j: int| 0 <= j < i ==> is_allowed(#[trigger] text[j]),
        !is_allowed(text[i]),
    ensures
        ethereum::address_of(text) == Err::<Seq<u8>, _>(
            AddressError::InvalidHexCharacter(text[i], i as usize),
        ),
{
    lemma_first_foreign(text);
    let foreign = ethereum::first_foreign(text);
    if foreign < i {
        assert(is_allowed(text[foreign]));
    } else if i < foreign {
        assert(is_allowed(text[i]));
    }
    text.take(i).lemma_filter_len(|c: char| ethereum::is_hex_digit(c));
}

/// A text with a character that is neither a digit nor blank, behind the prefix if there is one, denotes
/// no address.
pub proof fn law_foreign_character_is_refused(text: Seq<char>, i: int)
    requires
        0 <= i < text.len(),
        !is_allowed(text[i]),
        !(has_prefix(text) && i == 1),
    ensures
        ethereum::address_of(text) is Err,
{
    let body = ethereum::without_prefix(text);
    let k = if has_prefix(text) {
        i - 2
    } else {
        i
    };
    lemma_first_foreign(body);
    assert(k >= 0 ==> body[k] == text[i]);
    if k >= 0 && ethereum::first_foreign(body) == body.len() {
        assert(is_allowed(body[k]));
    }
}

/// Behind forty digits nothing but blanks may follow: anything else is refused as a wrong length.
pub proof fn law_more_than_an_address_is_refused(text: Seq<char>, k: int)
    requires
        40 <= k < text.len(),
        forall|j: int| 0 <= j < 40 ==> ethereum::is_hex_digit(#[trigger] text[j]),
        !ethereum::is_blank(text[k]),
    ensures
        ethereum::address_of(text) == Err::<Seq<u8>, _>(AddressError::InvalidHexLength),
{
    assert(ethereum::is_hex_digit(text[1]));
    lemma_first_foreign(text);
    let foreign = ethereum::first_foreign(text);
    if foreign < 40 {
        assert(ethereum::is_hex_digit(text[foreign]));
    }
    let pred = |c: char| ethereum::is_hex_digit(c);
    let front = text.take(40);
    let back = text.subrange(40, foreign);
    assert(text.take(foreign) =~= front + back);
    Seq::filter_distributes_over_add(front, back, pred);
    lemma_digits_of_digits(front);
    if foreign == text.len() {
        assert(is_allowed(text[k]));
        let middle = text.subrange(40, k);
        let last = text.subrange(k + 1, foreign);
        assert(back =~= middle + seq![text[k]] + last);
        Seq::filter_distributes_over_add(middle, seq![text[k]], pred);
        Seq::filter_distributes_over_add(middle + seq![text[k]], last, pred);
        reveal_with_fuel(Seq::filter, 2);
        assert(seq![text[k]].filter(pred) =~= seq![text[k]]);
    }
}

/// A blank is passed over, wherever behind the prefix it stands.
pub proof fn law_blank_is_passed_over(front: Seq<char>, blank: char, back: Seq<char>)
    requires
        ethereum::is_blank(blank),
        front.len() >= 2,
        ethereum::address_of(front + back) is Ok,
    ensures
        ethereum::address_of(front.push(blank) + back) == ethereum::address_of(front + back),
{
    let text = front + back;
    let spaced = front.push(blank) + back;
    let body = ethereum::without_prefix(text);
    let spaced_body = ethereum::without_prefix(spaced);
    let head = ethereum::without_prefix(front);
    assert(body =~= head + back);
    assert(spaced_body =~= head + seq![blank] + back);
    lemma_first_foreign(body);
    lemma_first_foreign(spaced_body);
    let foreign = ethereum::first_foreign(spaced_body);
    assert(ethereum::first_foreign(body) == body.len());
    if foreign < spaced_body.len() {
        if foreign < head.len() {
            assert(is_allowed(body[foreign]));
        } else if foreign > head.len() {
            assert(is_allowed(body[foreign - 1]));
        }
    }
    let pred = |c: char| ethereum::is_hex_digit(c);
    Seq::filter_distributes_over_add(head, back, pred);
    Seq::filter_distributes_over_add(head, seq![blank], pred);
    Seq::filter_distributes_over_add(head + seq![blank], back, pred);
    reveal_with_fuel(Seq::filter, 2);
    assert(seq![blank].filter(pred) =~= Seq::<char>::empty());
    assert(body.take(body.len() as int) =~= body);
    assert(spaced_body.take(spaced_body.len() as int) =~= spaced_body);
    assert(ethereum::hex_digits(spaced_body) =~= ethereum::hex_digits(body));
}

proof fn lemma_first_foreign(text: Seq<char>)
    ensures
        0 <= ethereum::first_foreign(text) <= text.len(),
        forall|j: int|
            0 <= j < ethereum::first_foreign(text) ==> is_allowed(#[trigger] text[j]),
        ethereum::first_foreign(text) < text.len() ==> !is_allowed(
            text[ethereum::first_foreign(text)],
        ),
    decreases text.len(),
{
    if text.len() > 0 && is_allowed(text[0]) {
        let rest = text.skip(1);
        lemma_first_foreign(rest);
        assert forall|j: int| 0 <= j < ethereum::first_foreign(text) implies is_allowed(
            #[trigger] text[j],
        ) by {
            if j > 0 {
                assert(is_allowed(rest[j - 1]));
            }
        }
    }
}

proof fn lemma_digits_of_digits(text: Seq<char>)
    requires
        forall|j: int| 0 <= j < text.len() ==> ethereum::is_hex_digit(#[trigger] text[j]),
    ensures
        ethereum::hex_digits(text) == text,
    decreases text.len(),
{
    reveal(Seq::filter);
    if text.len() > 0 {
        lemma_digits_of_digits(text.drop_last());
        assert(text.drop_last().push(text.last()) =~= text);
    }
}

} // verus!
