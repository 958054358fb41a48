//! Text as sequences of characters: the conversions between `str`, `String`
//! and `Vec<char>` that the rest of the library needs, and decimal numerals.

use vstd::prelude::*;

verus! {

/// `String::from_iter` over the characters of a vector, through `collect`.
/// Believed: the string holds exactly those characters, in order.
#[verifier::external_body]
pub(crate) fn string_of_chars(chars: &Vec<char>) -> (text: String)
    ensures
        text@ == chars@,
{
    chars.iter().collect()
}

/// The characters of `text`, one by one.
pub fn chars_of(text: &str) -> (chars: Vec<char>)
    ensures
        chars@ == text@,
{
    let length = text.unicode_len();
    let mut chars: Vec<char> = Vec::new();
    let mut index: usize = 0;
    while index < length
        invariant
            length == text@.len(),
            index <= length,
            chars@ == text@.subrange(0, index as int),
        decreases length - index,
    {
        chars.push(text.get_char(index));
        assert(chars@ =~= text@.subrange(0, index + 1));
        index += 1;
    }
    assert(text@.subrange(0, length as int) =~= text@);
    chars
}

/// The character that writes the digit `digit`.
pub open spec fn digit_char(digit: int) -> char
    recommends
        0 <= digit <= 9,
{
    if digit == 0 {
        '0'
    } else if digit == 1 {
        '1'
    } else if digit == 2 {
        '2'
    } else if digit == 3 {
        '3'
    } else if digit == 4 {
        '4'
    } else if digit == 5 {
        '5'
    } else if digit == 6 {
        '6'
    } else if digit == 7 {
        '7'
    } else if digit == 8 {
        '8'
    } else {
        '9'
    }
}

/// The decimal numeral of `number`, without leading zeros.
pub open spec fn decimal(number: nat) -> Seq<char>
    decreases number,
{
    if number < 10 {
        seq![digit_char(number as int)]
    } else {
        decimal(number / 10).push(digit_char((number % 10) as int))
    }
}

fn digit_of(digit: usize) -> (c: char)
    requires
        digit <= 9,
    ensures
        c == digit_char(digit as int),
{
    if digit == 0 {
        '0'
    } else if digit == 1 {
        '1'
    } else if digit == 2 {
        '2'
    } else if digit == 3 {
        '3'
    } else if digit == 4 {
        '4'
    } else if digit == 5 {
        '5'
    } else if digit == 6 {
        '6'
    } else if digit == 7 {
        '7'
    } else if digit == 8 {
        '8'
    } else {
        '9'
    }
}

/// Writes `number` in decimal.
pub fn decimal_chars(number: usize) -> (chars: Vec<char>)
    ensures
        chars@ == decimal(number as nat),
    decreases number,
{
    if number < 10 {
        let mut chars: Vec<char> = Vec::new();
        chars.push(digit_of(number));
        assert(chars@ =~= seq![digit_char(number as int)]);
        chars
    } else {
        let mut chars = decimal_chars(number / 10);
        chars.push(digit_of(number % 10));
        chars
    }
}

/// Appends the characters of `more` to `chars`.
pub fn extend_chars(chars: &mut Vec<char>, more: &Vec<char>)
    ensures
        final(chars)@ == old(chars)@ + more@,
{
    let mut index: usize = 0;
    while index < more.len()
        invariant
            index <= more.len(),
            chars@ == old(chars)@ + more@.subrange(0, index as int),
        decreases more.len() - index,
    {
        chars.push(more[index]);
        assert(chars@ =~= old(chars)@ + more@.subrange(0, index + 1));
        index += 1;
    }
    assert(more@.subrange(0, more.len() as int) =~= more@);
}

} // verus!
