//! Integers as they cross the boundary between guest and host: the guest
//! passes and receives signed words, the host works with unsigned ones.

use vstd::prelude::*;

verus! {

/// The unsigned value with the same 32 bits.
pub open spec fn unsigned32(word: i32) -> u32 {
    if word >= 0 {
        word as u32
    } else {
        (word + 0x1_0000_0000) as u32
    }
}

/// The unsigned value with the same 64 bits.
pub open spec fn unsigned64(word: i64) -> u64 {
    if word >= 0 {
        word as u64
    } else {
        (word + 0x1_0000_0000_0000_0000) as u64
    }
}

/// The signed value with the same 32 bits.
pub open spec fn signed32(word: u32) -> i32 {
    if word <= 0x7fff_ffff {
        word as i32
    } else {
        (word - 0x1_0000_0000) as i32
    }
}

/// The signed value with the same 64 bits.
pub open spec fn signed64(word: u64) -> i64 {
    if word <= 0x7fff_ffff_ffff_ffff {
        word as i64
    } else {
        (word - 0x1_0000_0000_0000_0000) as i64
    }
}

/// The 128-bit amount whose upper half is `high` and whose lower half is
/// `low`.
pub open spec fn joined(high: u64, low: u64) -> u128 {
    (high * 0x1_0000_0000_0000_0000 + low) as u128
}

pub fn to_unsigned32(word: i32) -> (r: u32)
    ensures
        r == unsigned32(word),
{
    let r = word as u32;
    assert(word as u32 == if word >= 0 {
        word as u32
    } else {
        (word + 0x1_0000_0000) as u32
    }) by (bit_vector);
    r
}

pub fn to_unsigned64(word: i64) -> (r: u64)
    ensures
        r == unsigned64(word),
{
    let r = word as u64;
    assert(word as u64 == if word >= 0 {
        word as u64
    } else {
        (word + 0x1_0000_0000_0000_0000) as u64
    }) by (bit_vector);
    r
}

pub fn to_signed32(word: u32) -> (r: i32)
    ensures
        r == signed32(word),
{
    let r = word as i32;
    assert(word as i32 == if word <= 0x7fff_ffff {
        word as i32
    } else {
        (word - 0x1_0000_0000) as i32
    }) by (bit_vector);
    r
}

pub fn to_signed64(word: u64) -> (r: i64)
    ensures
        r == signed64(word),
{
    let r = word as i64;
    assert(word as i64 == if word <= 0x7fff_ffff_ffff_ffff {
        word as i64
    } else {
        (word - 0x1_0000_0000_0000_0000) as i64
    }) by (bit_vector);
    r
}

/// Joins the two halves in which the guest passes a 128-bit amount.
pub fn from_parts(high: u64, low: u64) -> (amount: u128)
    ensures
        amount == joined(high, low),
{
    (high as u128) * 0x1_0000_0000_0000_0000 + (low as u128)
}

} // verus!
