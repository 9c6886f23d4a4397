use crate::bits::{high, high_byte, low, low_byte};
use vstd::prelude::*;
use vstd::string::StrSliceExecFns;

verus! {

/// The upper-case hexadecimal digit for a value from 0 to 15.
pub open spec fn hex_digit(value: int) -> char {
    if value == 0 {
        '0'
    } else if value == 1 {
        '1'
    } else if value == 2 {
        '2'
    } else if value == 3 {
        '3'
    } else if value == 4 {
        '4'
    } else if value == 5 {
        '5'
    } else if value == 6 {
        '6'
    } else if value == 7 {
        '7'
    } else if value == 8 {
        '8'
    } else if value == 9 {
        '9'
    } else if value == 10 {
        'A'
    } else if value == 11 {
        'B'
    } else if value == 12 {
        'C'
    } else if value == 13 {
        'D'
    } else if value == 14 {
        'E'
    } else {
        'F'
    }
}

/// `text` followed by the two hexadecimal digits of a byte.
pub open spec fn put_hex_byte(text: Seq<char>, value: u8) -> Seq<char> {
    text.push(hex_digit(value as int / 16)).push(hex_digit(value as int % 16))
}

/// `text` followed by the four hexadecimal digits of a word.
pub open spec fn put_hex_word(text: Seq<char>, value: u16) -> Seq<char> {
    put_hex_byte(put_hex_byte(text, high_byte(value)), low_byte(value))
}

/// `text` followed by a number in decimal digits.
pub open spec fn put_decimal(text: Seq<char>, value: nat) -> Seq<char>
    decreases value,
{
    if value < 10 {
        text.push(hex_digit(value as int))
    } else {
        put_decimal(text, value / 10).push(hex_digit(value as int % 10))
    }
}

/// `text` followed by a number in decimal digits that is pushed to the
/// right of a field three columns wide.
pub open spec fn put_aligned(text: Seq<char>, value: nat) -> Seq<char> {
    if value < 10 {
        put_decimal(text.push(' ').push(' '), value)
    } else if value < 100 {
        put_decimal(text.push(' '), value)
    } else {
        put_decimal(text, value)
    }
}

/// `text` filled up with spaces to `width` columns; a longer text is kept
/// as it is.
pub open spec fn pad_to(text: Seq<char>, width: nat) -> Seq<char>
    decreases width - text.len(),
{
    if text.len() >= width {
        text
    } else {
        pad_to(text.push(' '), width)
    }
}

pub fn digit(value: u8) -> (symbol: char)
    requires
        value < 16,
    ensures
        symbol == hex_digit(value as int),
{
    match value {
        0 => '0',
        1 => '1',
        2 => '2',
        3 => '3',
        4 => '4',
        5 => '5',
        6 => '6',
        7 => '7',
        8 => '8',
        9 => '9',
        10 => 'A',
        11 => 'B',
        12 => 'C',
        13 => 'D',
        14 => 'E',
        _ => 'F',
    }
}

pub fn push_hex_byte(text: &mut Vec<char>, value: u8)
    ensures
        final(text)@ == put_hex_byte(old(text)@, value),
{
    text.push(digit(value / 16));
    text.push(digit(value % 16));
}

pub fn push_hex_word(text: &mut Vec<char>, value: u16)
    ensures
        final(text)@ == put_hex_word(old(text)@, value),
{
    push_hex_byte(text, high(value));
    push_hex_byte(text, low(value));
}

pub fn push_decimal(text: &mut Vec<char>, value: u64)
    ensures
        final(text)@ == put_decimal(old(text)@, value as nat),
    decreases value,
{
    if value >= 10 {
        push_decimal(text, value / 10);
    }
    text.push(digit((value % 10) as u8));
}

pub fn push_aligned(text: &mut Vec<char>, value: u16)
    ensures
        final(text)@ == put_aligned(old(text)@, value as nat),
{
    if value < 10 {
        text.push(' ');
        text.push(' ');
    } else if value < 100 {
        text.push(' ');
    }
    push_decimal(text, value as u64);
}

pub fn push_padding(text: &mut Vec<char>, width: usize)
    ensures
        final(text)@ == pad_to(old(text)@, width as nat),
{
    while text.len() < width
        invariant
            pad_to(old(text)@, width as nat) == pad_to(text@, width as nat),
        decreases width - text.len(),
    {
        text.push(' ');
    }
}

/// Appends the characters of `literal`.
pub fn push_text(text: &mut Vec<char>, literal: &str)
    ensures
        final(text)@ == old(text)@ + literal@,
{
    let length = literal.unicode_len();
    let mut position: usize = 0;
    while position < length
        invariant
            position <= length,
            length == literal@.len(),
            text@ == old(text)@ + literal@.subrange(0, position as int),
        decreases length - position,
    {
        text.push(literal.get_char(position));
        position += 1;
        assert(text@ =~= old(text)@ + literal@.subrange(0, position as int));
    }
    assert(literal@.subrange(0, length as int) =~= literal@);
}

/// Turns a list of characters into a `String` with `String::from_iter`,
/// which starts from an empty string and appends every character in
/// turn: the result holds exactly the characters of the list, in their
/// order.
#[verifier::external_body]
pub(crate) fn collect_string(text: Vec<char>) -> (line: String)
    ensures
        line@ == text@,
{
    String::from_iter(text)
}

} // verus!
