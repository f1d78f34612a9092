//! Fixed-point helpers shared by every procedural effect.
//!
//! A fraction `f` in `[0, 1]` is stored as the integer `f * ONE`.
use vstd::prelude::*;

verus! {

/// The fixed-point representation of `1.0`.
pub const ONE: u32 = 65536;

/// A triangle wave over one period: rises from 0 to 1 over the first half,
/// falls back to 0 over the second half.
pub open spec fn triangle(t: int) -> int {
    if t < ONE / 2 {
        2 * t
    } else {
        2 * (ONE - t)
    }
}

/// Triangle wave of a phase `t` in `[0, 1]`.
pub fn triangle_wave(t: u32) -> (r: u32)
    requires
        t <= ONE,
    ensures
        r == triangle(t as int),
        r <= ONE,
{
    if t < ONE / 2 {
        2 * t
    } else {
        2 * (ONE - t)
    }
}

/// Fractional progress through a loop of `cycle_ms` after `elapsed_ms`.
pub open spec fn progress(elapsed_ms: int, cycle_ms: int) -> int {
    if cycle_ms <= 0 {
        0
    } else {
        (elapsed_ms % cycle_ms) * ONE / cycle_ms
    }
}

/// Fractional position within the current loop of length `cycle_ms`
/// (0 when the cycle is empty).
pub fn loop_progress(elapsed_ms: u64, cycle_ms: u64) -> (r: u32)
    ensures
        r == progress(elapsed_ms as int, cycle_ms as int),
        r < ONE,
{
    if cycle_ms == 0 {
        return 0;
    }
    let rem = elapsed_ms % cycle_ms;
    proof {
        assert(rem < cycle_ms);
        assert(rem * (ONE as int) < cycle_ms * (ONE as int)) by (nonlinear_arith)
            requires rem < cycle_ms;
        assert((rem as int) * (ONE as int) / (cycle_ms as int) < ONE) by (nonlinear_arith)
            requires rem < cycle_ms, cycle_ms > 0;
    }
    if rem <= u64::MAX / (ONE as u64) {
        ((rem * (ONE as u64)) / cycle_ms) as u32
    } else {
        let wide = (rem as u128) * (ONE as u128) / (cycle_ms as u128);
        wide as u32
    }
}

/// The xorshift step (shifts 13, 17, 5) on a 32-bit word.
pub open spec fn xorshift(x: u32) -> u32 {
    let a = x ^ ((x << 13u32) as u32);
    let b = a ^ ((a >> 17u32) as u32);
    b ^ ((b << 5u32) as u32)
}

/// The fraction `x / 2^32` of a 32-bit word, in fixed point.
pub open spec fn unit_of(x: u32) -> int {
    (x as int) / (ONE as int)
}

/// Deterministic pseudo-random fraction in `[0, 1)` derived from `seed`.
pub fn pseudo_random(seed: u32) -> (r: u32)
    ensures
        r as int == unit_of(xorshift(seed)),
        r < ONE,
{
    let mut x = seed;
    x = x ^ (x << 13u32);
    x = x ^ (x >> 17u32);
    x = x ^ (x << 5u32);
    assert(x >> 16u32 == x / 65536) by (bit_vector);
    assert(x >> 16u32 < 65536) by (bit_vector);
    x >> 16u32
}

/// Seed of the cell at (`row`, `col`): the two coordinates multiplied by large
/// odd constants, with wrap-around, and combined by exclusive or.
pub open spec fn seed_of(row: u32, col: u32) -> u32 {
    (((row as int) * 73_856_093) % 0x1_0000_0000) as u32 ^ (((col as int) * 19_349_663)
        % 0x1_0000_0000) as u32
}

/// Decorrelated seed for a grid cell.
pub fn tile_seed(row: u32, col: u32) -> (r: u32)
    ensures
        r == seed_of(row, col),
{
    row.wrapping_mul(73_856_093u32) ^ col.wrapping_mul(19_349_663u32)
}

} // verus!

verus! {

/// The triangle wave starts at 0, peaks at 1 half-way and is back at 0 at the
/// end of the period.
pub proof fn lemma_triangle_wave_shape()
    ensures
        triangle(0) == 0,
        triangle((ONE / 2) as int) == ONE,
        triangle(ONE as int) == 0,
{
}

} // verus!
