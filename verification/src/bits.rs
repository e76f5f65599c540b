//! Bytes, words and pages: the machine-level operations that the engine uses,
//! each tied to its arithmetic meaning.

use crate::semantics::{negative, page, wrap16, wrap8};
use crate::status_flags::digit;
use vstd::prelude::*;

verus! {

/// The sum of two bytes, reduced to eight bits.
pub fn add8(left: u8, right: u8) -> (sum: u8)
    ensures
        sum == wrap8(left + right),
{
    proof {
        reveal(wrap8);
    }
    left.wrapping_add(right)
}

/// The difference of two bytes, reduced to eight bits.
pub fn sub8(left: u8, right: u8) -> (difference: u8)
    ensures
        difference == wrap8(left - right),
{
    proof {
        reveal(wrap8);
    }
    left.wrapping_sub(right)
}

/// The address `distance` bytes after `address`, where 0x0000 follows 0xFFFF.
pub fn add16(address: u16, distance: u16) -> (sum: u16)
    ensures
        sum == wrap16(address + distance),
{
    proof {
        reveal(wrap16);
    }
    address.wrapping_add(distance)
}

/// The address `distance` bytes before `address`, where 0xFFFF precedes 0x0000.
pub fn sub16(address: u16, distance: u16) -> (difference: u16)
    ensures
        difference == wrap16(address - distance),
{
    proof {
        reveal(wrap16);
    }
    address.wrapping_sub(distance)
}

/// Whether bit 7 of `value` is set.
pub fn is_negative(value: u8) -> (set: bool)
    ensures
        set == negative(value),
{
    assert((value & 0x80 != 0) == (value >= 128)) by (bit_vector);
    value & 0x80 != 0
}

/// Whether bit 6 of `value` is set.
pub fn bit_six(value: u8) -> (set: bool)
    ensures
        set == digit(value, 0x40),
{
    proof {
        reveal(digit);
    }
    assert((value & 0x40 != 0) == ((value / 0x40) % 2 == 1)) by (bit_vector);
    value & 0x40 != 0
}

/// The complement of a byte.
pub fn complement(value: u8) -> (inverted: u8)
    ensures
        inverted == 255 - value,
{
    assert(value ^ 0xff == 255 - value) by (bit_vector);
    value ^ 0xff
}

/// The low byte of a word.
pub fn low_byte(value: u16) -> (low: u8)
    ensures
        low == wrap8(value as int),
{
    proof {
        reveal(wrap8);
    }
    assert(value & 0xff == value % 256) by (bit_vector);
    (value & 0xff) as u8
}

/// The high byte of a word, which is the number of its page.
pub fn high_byte(value: u16) -> (high: u8)
    ensures
        high == page(value),
{
    proof {
        reveal(page);
    }
    assert(value >> 8 == value / 256) by (bit_vector);
    (value >> 8) as u8
}

/// The word made of a low and a high byte.
pub fn make_word(low: u8, high: u8) -> (value: u16)
    ensures
        value == low + 256 * high,
{
    assert(low as u16 | (high as u16) << 8 == low + 256 * high) by (bit_vector);
    low as u16 | (high as u16) << 8
}

/// Whether two addresses lie in different pages.
pub fn pages_differ(first: u16, second: u16) -> (differ: bool)
    ensures
        differ == (page(first) != page(second)),
{
    proof {
        reveal(page);
    }
    assert(((first & 0xff00) != (second & 0xff00)) == (first / 256 != second / 256))
        by (bit_vector);
    (first & 0xff00) != (second & 0xff00)
}

/// A byte shifted left by one place, with `carry` shifted in: the byte that
/// remains, and the bit pushed out.
pub fn shift_left(value: u8, carry: bool) -> (shifted: (u8, bool))
    ensures
        shifted.0 == wrap8(value * 2 + if carry { 1int } else { 0int }),
        shifted.1 == (value >= 128),
{
    let low: u16 = if carry {
        1
    } else {
        0
    };
    let wide: u16 = (value as u16) << 1 | low;
    proof {
        reveal(wrap8);
    }
    assert(((value as u16) << 1 | low) & 0xff == (value * 2 + low) % 256 && ((((value as u16) << 1
        | low) & 0x100) != 0) == (value >= 128)) by (bit_vector)
        requires
            low <= 1,
    ;
    ((wide & 0xff) as u8, wide & 0x100 != 0)
}

/// A byte shifted right by one place, with `carry` shifted in: the byte that
/// remains, and the bit pushed out.
pub fn shift_right(value: u8, carry: bool) -> (shifted: (u8, bool))
    ensures
        shifted.0 == wrap8(value as int / 2 + if carry { 128int } else { 0int }),
        shifted.1 == digit(value, 0x01),
{
    let high: u8 = if carry {
        0x80
    } else {
        0
    };
    proof {
        reveal(wrap8);
        reveal(digit);
    }
    assert((value >> 1 | high) == value / 2 + high && ((value & 1) == 1) == (value % 2 == 1))
        by (bit_vector)
        requires
            high == 0x80 || high == 0,
    ;
    (value >> 1 | high, value & 1 == 1)
}

} // verus!
