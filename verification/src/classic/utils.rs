//! Wrapping arithmetic on bytes and shorts.

use vstd::prelude::*;

verus! {

/// Clock frequency of the console, in cycles per second.
pub const CLOCK_SPEED: usize = 4_194_304;

/// `n + m` reduced modulo 2^8.
pub open spec fn wrap8(v: int) -> u8 {
    (v % 256) as u8
}

/// `n + m` reduced modulo 2^16.
pub open spec fn wrap16(v: int) -> u16 {
    (v % 65536) as u16
}

/// Adds one to a byte; 0xFF becomes 0x00.
pub fn wrapping_inc_8(n: u8) -> (r: u8)
    ensures
        r == wrap8(n + 1),
{
    n.wrapping_add(1)
}

/// Subtracts one from a byte; 0x00 becomes 0xFF.
pub fn wrapping_dec_8(n: u8) -> (r: u8)
    ensures
        r == wrap8(n - 1),
{
    n.wrapping_sub(1)
}

/// Adds one to a short; 0xFFFF becomes 0x0000.
pub fn wrapping_inc_16(n: u16) -> (r: u16)
    ensures
        r == wrap16(n + 1),
{
    n.wrapping_add(1)
}

/// Subtracts one from a short; 0x0000 becomes 0xFFFF.
pub fn wrapping_dec_16(n: u16) -> (r: u16)
    ensures
        r == wrap16(n - 1),
{
    n.wrapping_sub(1)
}

/// Adds a signed displacement to a byte, modulo 2^8.
pub fn add_i8_to_u8(n: u8, m: i8) -> (r: u8)
    ensures
        r == wrap8(n + m),
{
    n.wrapping_add_signed(m)
}

/// Adds a signed displacement to a short, modulo 2^16.
pub fn add_i8_to_u16(n: u16, m: i8) -> (r: u16)
    ensures
        r == wrap16(n + m),
{
    n.wrapping_add_signed(m as i16)
}

} // verus!
