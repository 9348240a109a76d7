//! Core of an 8-bit handheld console emulator: the processor, the memory bus
//! and the pixel processing unit that draws the background layer.
use vstd::prelude::*;

pub mod bus;
pub mod cpu;
pub mod instruction;
pub mod ppu;

verus! {

/// The 16-bit value with `high` in the top byte and `low` below it.
pub open spec fn word(high: u8, low: u8) -> u16 {
    (high * 256 + low) as u16
}

/// The top byte of a 16-bit value.
pub open spec fn high_byte(v: u16) -> u8 {
    (v / 256) as u8
}

/// The low byte of a 16-bit value.
pub open spec fn low_byte(v: u16) -> u8 {
    (v % 256) as u8
}

/// An integer taken modulo 2^16.
pub open spec fn wrap16(x: int) -> u16 {
    (x % 0x10000) as u16
}

/// An integer taken modulo 2^8.
pub open spec fn wrap8(x: int) -> u8 {
    (x % 0x100) as u8
}

/// A byte read as a two's-complement signed value.
pub open spec fn signed_byte(b: u8) -> int {
    if b < 0x80 {
        b as int
    } else {
        b - 0x100
    }
}

pub(crate) proof fn lemma_compose(high: u8, low: u8)
    ensures
        (high as u16) << 8 | low as u16 == word(high, low),
{
    assert((high as u16) << 8 | low as u16 == high * 256 + low) by (bit_vector);
}

pub(crate) proof fn lemma_split(v: u16)
    ensures
        ((v & 0xFF00) >> 8) as u8 == high_byte(v),
        (v & 0xFF) as u8 == low_byte(v),
{
    assert(((v & 0xFF00) >> 8) == v / 256 && (v & 0xFF) == v % 256) by (bit_vector);
}

} // verus!
