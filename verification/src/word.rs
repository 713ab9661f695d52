//! Arithmetic on 32-bit machine words, stated over mathematical integers.
use vstd::prelude::*;

verus! {

/// The 32-bit word congruent to `x`.
pub open spec fn wrap32(x: int) -> u32 {
    (x % 0x1_0000_0000) as u32
}

/// The two's-complement value of a word.
pub open spec fn signed32(x: u32) -> int {
    if x < 0x8000_0000 {
        x as int
    } else {
        x as int - 0x1_0000_0000
    }
}

/// `a + b` modulo 2^32.
pub fn add_wrapping(a: u32, b: u32) -> (r: u32)
    ensures
        r == wrap32(a + b),
{
    a.wrapping_add(b)
}

/// `a - b` modulo 2^32.
pub fn sub_wrapping(a: u32, b: u32) -> (r: u32)
    ensures
        r == wrap32(a - b),
{
    a.wrapping_sub(b)
}

/// `a + b` modulo 2^32, where `b` is signed.
pub fn add_signed_wrapping(a: u32, b: i32) -> (r: u32)
    ensures
        r == wrap32(a + b),
{
    a.wrapping_add_signed(b)
}

/// The word whose two's-complement value is `x`.
pub fn word_of_i32(x: i32) -> (r: u32)
    ensures
        signed32(r) == x,
        r == wrap32(x as int),
{
    if x >= 0 {
        x as u32
    } else {
        (x as i64 + 0x1_0000_0000i64) as u32
    }
}

/// The two's-complement value of a word.
pub fn i32_of_word(x: u32) -> (r: i32)
    ensures
        r == signed32(x),
{
    if x < 0x8000_0000 {
        x as i32
    } else {
        (x as i64 - 0x1_0000_0000i64) as i32
    }
}

} // verus!
