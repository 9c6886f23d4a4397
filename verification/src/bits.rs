use vstd::prelude::*;

verus! {

/// Whether bit `index` (0 is the least significant) of `value` is 1.
/// Indices above 7 name no bit and give `false`.
pub open spec fn bit_is_set(value: u8, index: int) -> bool {
    if index == 0 {
        value % 2 == 1
    } else if index == 1 {
        (value / 2) % 2 == 1
    } else if index == 2 {
        (value / 4) % 2 == 1
    } else if index == 3 {
        (value / 8) % 2 == 1
    } else if index == 4 {
        (value / 16) % 2 == 1
    } else if index == 5 {
        (value / 32) % 2 == 1
    } else if index == 6 {
        (value / 64) % 2 == 1
    } else if index == 7 {
        value / 128 == 1
    } else {
        false
    }
}

/// The weight that bit `index` contributes to a byte when `on`.
pub open spec fn bit_weight(index: int, on: bool) -> int {
    if !on {
        0
    } else if index == 0 {
        1
    } else if index == 1 {
        2
    } else if index == 2 {
        4
    } else if index == 3 {
        8
    } else if index == 4 {
        16
    } else if index == 5 {
        32
    } else if index == 6 {
        64
    } else if index == 7 {
        128
    } else {
        0
    }
}

/// The little-endian word made of a low and a high byte.
pub open spec fn word_of(lo: u8, hi: u8) -> u16 {
    (hi as int * 256 + lo as int) as u16
}

/// The low byte of a word.
pub open spec fn low_byte(word: u16) -> u8 {
    (word % 256) as u8
}

/// The high byte of a word.
pub open spec fn high_byte(word: u16) -> u8 {
    (word / 256) as u8
}

/// `value + delta` reduced to a byte.
pub open spec fn wrap8(value: int) -> u8 {
    (value % 256) as u8
}

/// `value` reduced to a 16-bit word.
pub open spec fn wrap16(value: int) -> u16 {
    (value % 65536) as u16
}

pub fn test_bit(value: u8, index: u8) -> (set: bool)
    ensures
        set == bit_is_set(value, index as int),
{
    match index {
        0 => value % 2 == 1,
        1 => (value / 2) % 2 == 1,
        2 => (value / 4) % 2 == 1,
        3 => (value / 8) % 2 == 1,
        4 => (value / 16) % 2 == 1,
        5 => (value / 32) % 2 == 1,
        6 => (value / 64) % 2 == 1,
        7 => value / 128 == 1,
        _ => false,
    }
}

pub fn make_word(lo: u8, hi: u8) -> (word: u16)
    ensures
        word == word_of(lo, hi),
        low_byte(word) == lo,
        high_byte(word) == hi,
{
    let wide_hi: u16 = hi as u16;
    let wide_lo: u16 = lo as u16;
    wide_hi * 256 + wide_lo
}

pub fn low(word: u16) -> (byte: u8)
    ensures
        byte == low_byte(word),
{
    (word % 256) as u8
}

pub fn high(word: u16) -> (byte: u8)
    ensures
        byte == high_byte(word),
{
    (word / 256) as u8
}

/// The sum of two bytes, reduced to a byte.
pub fn add_byte(value: u8, delta: u8) -> (sum: u8)
    ensures
        sum == wrap8(value + delta),
{
    value.wrapping_add(delta)
}

/// The difference of two bytes, reduced to a byte.
pub fn sub_byte(value: u8, delta: u8) -> (difference: u8)
    ensures
        difference == wrap8(value - delta),
{
    value.wrapping_sub(delta)
}

/// The sum of a word and a byte, reduced to a word.
pub fn add_word(value: u16, delta: u8) -> (sum: u16)
    ensures
        sum == wrap16(value + delta),
{
    value.wrapping_add(delta as u16)
}

/// A byte shifted left by one bit, with `carry` (0 or 1) as its new bit 0.
pub fn shift_left(value: u8, carry: u8) -> (shifted: u8)
    requires
        carry <= 1,
    ensures
        shifted == wrap8(value * 2 + carry),
{
    if value < 128 {
        value * 2 + carry
    } else {
        (value - 128) * 2 + carry
    }
}

/// A byte shifted right by one bit, with `carry` (0 or 1) as its new bit 7.
pub fn shift_right(value: u8, carry: u8) -> (shifted: u8)
    requires
        carry <= 1,
    ensures
        shifted == value / 2 + bit_weight(7, carry == 1),
{
    value / 2 + carry * 128
}

/// What the address masks of the CPU memory map do, in arithmetic.
pub proof fn lemma_address_masks(address: u16)
    by (bit_vector)
    ensures
        address & 0x07FF == address % 0x0800,
        address & 0x3FFF == address % 0x4000,
        0x2000 <= address < 0x4000 ==> address & 0x2007 == 0x2000 + address % 8,
        (address & 0x2007) & 0x2007 == address & 0x2007,
        (address & 0x07FF) & 0x07FF == address & 0x07FF,
{
}

/// A bit is set exactly where the byte has a bit in common with the
/// mask of that bit.
pub proof fn lemma_bit_masks(value: u8)
    by (bit_vector)
    ensures
        (value & 0x01 != 0) == (value % 2 == 1),
        (value & 0x02 != 0) == ((value / 2) % 2 == 1),
        (value & 0x04 != 0) == ((value / 4) % 2 == 1),
        (value & 0x08 != 0) == ((value / 8) % 2 == 1),
        (value & 0x10 != 0) == ((value / 16) % 2 == 1),
        (value & 0x20 != 0) == ((value / 32) % 2 == 1),
        (value & 0x40 != 0) == ((value / 64) % 2 == 1),
        (value & 0x80 != 0) == (value / 128 == 1),
        (value & 0x80 != 0) == (value >= 128),
{
}

} // verus!
