//! Modular arithmetic helpers for 8-bit register values and 16-bit
//! addresses, and the 60 Hz tick computation of the stepper.

use vstd::prelude::*;

verus! {

/// 8-bit wrapping addition, as a mathematical function.
pub open spec fn wrap_add8(a: u8, b: u8) -> u8 {
    if a + b < 256 {
        (a + b) as u8
    } else {
        (a + b - 256) as u8
    }
}

/// 8-bit wrapping subtraction, as a mathematical function.
pub open spec fn wrap_sub8(a: u8, b: u8) -> u8 {
    if a >= b {
        (a - b) as u8
    } else {
        (a - b + 256) as u8
    }
}

/// 16-bit wrapping addition, as a mathematical function.
pub open spec fn wrap_add16(a: u16, b: u16) -> u16 {
    if a + b < 0x10000 {
        (a + b) as u16
    } else {
        (a + b - 0x10000) as u16
    }
}

/// Add two register values; return the wrapped sum and the carry flag,
/// computed from the wrap condition itself.
pub fn add_with_carry(a: u8, b: u8) -> (r: (u8, u8))
    ensures
        r.0 == wrap_add8(a, b),
        r.1 == (if a + b >= 256 { 1u8 } else { 0u8 }),
{
    let s: u16 = a as u16 + b as u16;
    if s >= 256 {
        ((s - 256) as u8, 1)
    } else {
        (s as u8, 0)
    }
}

/// Subtract two register values; return the wrapped difference and the
/// NOT-borrow flag (1 when no borrow occurred).
pub fn sub_with_borrow(a: u8, b: u8) -> (r: (u8, u8))
    ensures
        r.0 == wrap_sub8(a, b),
        r.1 == (if a >= b { 1u8 } else { 0u8 }),
{
    if a >= b {
        (a - b, 1)
    } else {
        ((256 + a as u16 - b as u16) as u8, 0)
    }
}

/// 16-bit wrapping addition of addresses.
pub fn wrapping_add_u16(a: u16, b: u16) -> (r: u16)
    ensures
        r == wrap_add16(a, b),
{
    let s: u32 = a as u32 + b as u32;
    if s >= 0x10000 {
        (s - 0x10000) as u16
    } else {
        s as u16
    }
}

/// Whether key `k` is down in the key bitmask (bit `k` set, keys 0-15).
///
/// A register value above 15 names no key and is never reported as pressed.
pub open spec fn key_down(keys: u16, k: u8) -> bool {
    k < 16 && (keys >> (k as u16)) & 1 == 1
}

/// Executable key query, equal to `key_down`.
pub fn is_key_down(keys: u16, k: u8) -> (r: bool)
    ensures
        r == key_down(keys, k),
{
    k < 16 && (keys >> (k as u16)) & 1 == 1
}

/// The lowest key index at or above `k` whose bit is set, or 15 if none is.
pub open spec fn first_down_from(keys: u16, k: u8) -> u8
    decreases 16 - k,
{
    if k >= 15 {
        15
    } else if key_down(keys, k) {
        k
    } else {
        first_down_from(keys, (k + 1) as u8)
    }
}

/// The key code captured by a wait-for-key instruction: the lowest key
/// currently down (15 when only key 15 is down; meaningful only when some
/// key is down).
pub open spec fn first_down(keys: u16) -> u8 {
    first_down_from(keys, 0)
}

/// Find the lowest key at or above `k` whose bit is set, or 15 if none is.
pub fn first_down_key_from(keys: u16, k: u8) -> (r: u8)
    requires
        k <= 15,
    ensures
        r == first_down_from(keys, k),
    decreases 16 - k,
{
    if k >= 15 {
        15
    } else if is_key_down(keys, k) {
        k
    } else {
        first_down_key_from(keys, k + 1)
    }
}

/// How many whole 60 Hz ticks a span of `ms` milliseconds holds, capped at
/// 255 (a cap that only engages for long spans; 255 ticks already drain any
/// timer completely).
pub open spec fn spec_ticks_from_millis(ms: u64) -> u8 {
    if ms * 60 / 1000 >= 255 {
        255u8
    } else {
        (ms * 60 / 1000) as u8
    }
}

/// Convert elapsed wall-clock milliseconds into whole 60 Hz timer ticks,
/// capped at 255.
pub fn ticks_from_millis(ms: u64) -> (t: u8)
    ensures
        t == spec_ticks_from_millis(ms),
{
    if ms >= 4250 {
        proof {
            assert(ms * 60 / 1000 >= 255) by (nonlinear_arith)
                requires
                    ms >= 4250,
            ;
        }
        255
    } else {
        proof {
            assert(ms * 60 < 255000 && ms * 60 / 1000 < 255) by (nonlinear_arith)
                requires
                    ms < 4250,
            ;
        }
        ((ms * 60) / 1000) as u8
    }
}

} // verus!
