//! The fields of a 16-bit instruction word.
//!
//! An instruction word is written as four hexadecimal digits. The first digit
//! selects the family; the others are read, depending on the family, as two
//! register numbers `X` and `Y` and a nibble `N`, as a register number `X` and
//! a byte `NN`, or as a 12-bit address `NNN`.

use vstd::prelude::*;

verus! {

/// The leading hexadecimal digit of the word.
pub open spec fn family_of(op: u16) -> int {
    op as int / 0x1000
}

/// The second digit: the register number `X`.
pub open spec fn x_of(op: u16) -> int {
    (op as int / 0x100) % 0x10
}

/// The third digit: the register number `Y`.
pub open spec fn y_of(op: u16) -> int {
    (op as int / 0x10) % 0x10
}

/// The last digit: the nibble `N`.
pub open spec fn n_of(op: u16) -> int {
    op as int % 0x10
}

/// The last two digits: the byte `NN`.
pub open spec fn nn_of(op: u16) -> u8 {
    (op as int % 0x100) as u8
}

/// The last three digits: the address `NNN`.
pub open spec fn nnn_of(op: u16) -> u16 {
    (op as int % 0x1000) as u16
}

/// The word made of a high and a low byte, as it is fetched from memory.
pub open spec fn word_of(high: u8, low: u8) -> u16 {
    (high as int * 0x100 + low as int) as u16
}

pub fn family(op: u16) -> (f: u8)
    ensures
        f == family_of(op),
        f < 16,
{
    assert((op & 0xF000) >> 12 == op / 0x1000) by (bit_vector);
    assert((op & 0xF000) >> 12 < 16) by (bit_vector);
    ((op & 0xF000) >> 12) as u8
}

pub fn reg_x(op: u16) -> (x: usize)
    ensures
        x == x_of(op),
        x < 16,
{
    assert((op & 0x0F00) >> 8 == (op / 0x100) % 0x10) by (bit_vector);
    ((op & 0x0F00) >> 8) as usize
}

pub fn reg_y(op: u16) -> (y: usize)
    ensures
        y == y_of(op),
        y < 16,
{
    assert((op & 0x00F0) >> 4 == (op / 0x10) % 0x10) by (bit_vector);
    ((op & 0x00F0) >> 4) as usize
}

pub fn nibble(op: u16) -> (n: u8)
    ensures
        n == n_of(op),
        n < 16,
{
    assert(op & 0x000F == op % 0x10) by (bit_vector);
    (op & 0x000F) as u8
}

pub fn low_byte(op: u16) -> (nn: u8)
    ensures
        nn == nn_of(op),
{
    assert(op & 0x00FF == op % 0x100) by (bit_vector);
    (op & 0x00FF) as u8
}

pub fn address(op: u16) -> (nnn: u16)
    ensures
        nnn == nnn_of(op),
        nnn < 0x1000,
{
    assert(op & 0x0FFF == op % 0x1000) by (bit_vector);
    op & 0x0FFF
}

pub fn word(high: u8, low: u8) -> (op: u16)
    ensures
        op == word_of(high, low),
{
    assert((high as u16) << 8 | (low as u16) == (high as u16) * 0x100 + (low as u16)) by (bit_vector);
    (high as u16) << 8 | (low as u16)
}

} // verus!
