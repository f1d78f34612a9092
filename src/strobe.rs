//! Cycle bookkeeping of the strobe preset.
use vstd::prelude::*;
use crate::fixed::{ONE, pseudo_random, seed_of, tile_seed, unit_of, xorshift};

verus! {

/// How many randomised cycles are walked before falling back to an estimate.
pub const MAX_CYCLES: u64 = 10000;

/// Salt that keeps strobe jitter apart from the per-pixel seeds.
pub const STROBE_SALT: u32 = 531_441;

/// Length of cycle `k` when each cycle of nominal length `base` ms is
/// stretched by a factor drawn from `[1 - f, 1 + f]`, rounded, at least 1 ms.
#[verifier::opaque]
pub open spec fn jittered_len(base: int, f: int, k: int) -> int {
    let r = unit_of(xorshift(seed_of((k % 0x1_0000_0000) as u32, STROBE_SALT)));
    let mult = (ONE - f) + 2 * f * r / (ONE as int);
    let d = (base * mult + ONE / 2) / (ONE as int);
    if d < 1 {
        1
    } else {
        d
    }
}

/// Start of cycle `k`: the lengths of the cycles before it, summed.
pub open spec fn cycle_start(base: int, f: int, k: nat) -> int
    decreases k,
{
    if k == 0 {
        0
    } else {
        cycle_start(base, f, (k - 1) as nat) + jittered_len(base, f, k - 1)
    }
}

/// Past the last walked cycle the index is estimated from the mean length
/// `base * (1 + f / 2)`, and the phase is taken within that cycle's length.
pub open spec fn estimated_cycle(elapsed: int, base: int, f: int) -> (int, int) {
    let k = elapsed * (ONE as int) / (base * (ONE + f / 2));
    (k, elapsed % jittered_len(base, f, k))
}

/// The cycle that holds `elapsed`, and how far into it `elapsed` lies.
pub open spec fn jittered_cycle(elapsed: int, base: int, f: int) -> (int, int) {
    if elapsed < cycle_start(base, f, MAX_CYCLES as nat) {
        let k = choose|k: nat|
            k < MAX_CYCLES && #[trigger] cycle_start(base, f, k) <= elapsed < cycle_start(
                base,
                f,
                k + 1,
            );
        (k as int, elapsed - cycle_start(base, f, k))
    } else {
        estimated_cycle(elapsed, base, f)
    }
}

/// A fraction clamped to at most 1.
pub open spec fn clamp_unit(f: int) -> int {
    if f > ONE {
        ONE as int
    } else {
        f
    }
}

/// The plain cycle index and phase when cycles all last `base` ms.
pub open spec fn even_cycle(elapsed: int, base: int) -> (int, int) {
    (elapsed / base, elapsed % base)
}

proof fn lemma_len_positive(base: int, f: int, k: int)
    ensures
        jittered_len(base, f, k) >= 1,
{
    reveal(jittered_len);
}

proof fn lemma_start_monotonic(base: int, f: int, a: nat, b: nat)
    requires
        a <= b,
    ensures
        cycle_start(base, f, a) + (b - a) <= cycle_start(base, f, b),
    decreases b - a,
{
    if a < b {
        lemma_start_monotonic(base, f, a, (b - 1) as nat);
        lemma_len_positive(base, f, b - 1);
    }
}

fn cycle_len(base: u64, f: u32, k: u64) -> (r: u64)
    requires
        0 < base <= 0x2_0000_0000,
        f <= ONE,
    ensures
        r == jittered_len(base as int, f as int, k as int),
        1 <= r <= 2 * base + 1,
{
    reveal(jittered_len);
    let seed = tile_seed((k % 0x1_0000_0000) as u32, STROBE_SALT);
    let r = pseudo_random(seed) as u64;
    let ff = f as u64;
    proof {
        assert(2 * ff * r <= 2 * (ONE as int) * (ONE as int)) by (nonlinear_arith)
            requires ff <= ONE, r < ONE;
        assert(2 * ff * r / (ONE as int) <= 2 * ff) by (nonlinear_arith)
            requires r < ONE, 0 <= ff;
    }
    let mult = (ONE as u64 - ff) + 2 * ff * r / (ONE as u64);
    proof {
        assert(mult <= 2 * ONE);
        assert(base * mult <= base * 2 * (ONE as int)) by (nonlinear_arith)
            requires mult <= 2 * ONE, 0 <= base;
        assert((base * mult + ONE / 2) / (ONE as int) <= 2 * base + 1) by (nonlinear_arith)
            requires base * mult <= base * 2 * (ONE as int), 0 <= base;
    }
    let d = (base * mult + (ONE / 2) as u64) / (ONE as u64);
    if d < 1 {
        1
    } else {
        d
    }
}

/// Finds the randomised cycle that holds `elapsed` ms; see [`jittered_cycle`].
pub fn cycle_with_randomization(elapsed: u64, base: u64, factor: u32) -> (r: (u64, u64))
    requires
        0 < base <= 0x2_0000_0000,
    ensures
        r.0 as int == jittered_cycle(elapsed as int, base as int, clamp_unit(factor as int)).0,
        r.1 as int == jittered_cycle(elapsed as int, base as int, clamp_unit(factor as int)).1,
{
    let f = if factor > ONE {
        ONE
    } else {
        factor
    };
    let ghost (b, fi) = (base as int, f as int);
    let mut acc: u64 = 0;
    let mut k: u64 = 0;
    while k < MAX_CYCLES
        invariant
            k <= MAX_CYCLES,
            acc == cycle_start(b, fi, k as nat),
            acc <= elapsed,
            0 < base <= 0x2_0000_0000,
            f <= ONE,
            b == base,
            fi == f,
            f == clamp_unit(factor as int),
        decreases MAX_CYCLES - k,
    {
        let d = cycle_len(base, f, k);
        if d > elapsed - acc {
            proof {
                assert(cycle_start(b, fi, (k + 1) as nat) == acc + d);
                lemma_start_monotonic(b, fi, (k + 1) as nat, MAX_CYCLES as nat);
                let kk = choose|kk: nat|
                    kk < MAX_CYCLES && #[trigger] cycle_start(b, fi, kk) <= elapsed < cycle_start(
                        b,
                        fi,
                        kk + 1,
                    );
                assert((k as nat) < MAX_CYCLES && cycle_start(b, fi, k as nat) <= elapsed
                    < cycle_start(b, fi, (k + 1) as nat));
                if kk < k {
                    lemma_start_monotonic(b, fi, kk + 1, k as nat);
                } else if kk > k {
                    lemma_start_monotonic(b, fi, (k + 1) as nat, kk);
                }
                assert(kk == k);
                assert(elapsed < cycle_start(b, fi, MAX_CYCLES as nat));
            }
            return (k, elapsed - acc);
        }
        acc = acc + d;
        k = k + 1;
    }
    let ff = f as u128;
    let m = (ONE as u128) + ff / 2;
    proof {
        assert((base as int) * (m as int) <= 0x2_0000_0000 * 0x2_0000) by (nonlinear_arith)
            requires base <= 0x2_0000_0000, m <= 0x2_0000;
    }
    let denom = (base as u128) * m;
    proof {
        assert(denom > 0) by (nonlinear_arith)
            requires denom == (base as int) * ((ONE as int) + ff / 2), base > 0;
        assert(denom >= ONE) by (nonlinear_arith)
            requires denom == (base as int) * ((ONE as int) + ff / 2), base >= 1;
        assert((elapsed as int) * (ONE as int) / (denom as int) <= (elapsed as int))
            by (nonlinear_arith)
            requires denom >= ONE, elapsed >= 0;
    }
    let approx = ((elapsed as u128) * (ONE as u128) / denom) as u64;
    let d = cycle_len(base, f, approx);
    proof {
        assert(elapsed >= cycle_start(b, fi, MAX_CYCLES as nat));
    }
    (approx, elapsed % d)
}

} // verus!
