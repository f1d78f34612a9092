//! Lattice value noise and its fractal sum, in fixed point.
use vstd::prelude::*;
use crate::fixed::ONE;

verus! {

/// Coordinates handed to the lattice stay within this many units of `ONE`.
pub const COORD_LIMIT: i128 = 0x1_0000_0000_0000_0000_0000;

/// The lattice hash of corner (`x`, `y`) with `salt`, as a 32-bit word.
pub open spec fn corner_hash(x: i32, y: i32, salt: u32) -> u32 {
    let n0 = (((x as u32) as int * 374_761_393 + ((y as u32) ^ 668_265_263u32) as int)
        % 0x1_0000_0000) as u32;
    let n1 = n0 ^ (n0 >> 13u32);
    let n2 = n1 ^ ((n1 << 17u32) as u32);
    let n3 = n2 ^ (n2 >> 5u32);
    n3 ^ salt
}

/// The value at lattice corner (`x`, `y`): its hash as a fraction in `[0, 1)`.
pub open spec fn corner_value(x: i32, y: i32, salt: u32) -> int {
    (corner_hash(x, y, salt) as int) / (ONE as int)
}

fn hash_coords(x: i32, y: i32, salt: u32) -> (r: u32)
    ensures
        r == corner_value(x, y, salt),
        r < ONE,
{
    let mut n = (x as u32).wrapping_mul(374_761_393u32).wrapping_add((y as u32) ^ 668_265_263u32);
    n = n ^ (n >> 13u32);
    n = n ^ (n << 17u32);
    n = n ^ (n >> 5u32);
    n = n ^ salt;
    assert(n >> 16u32 == n / 65536) by (bit_vector);
    assert(n >> 16u32 < 65536) by (bit_vector);
    n >> 16u32
}

/// `3t^2 - 2t^3` for a fraction `t` in `[0, 1]`.
pub open spec fn smooth(t: int) -> int {
    t * t / (ONE as int) * (3 * ONE - 2 * t) / (ONE as int)
}

fn smoothstep(t: u32) -> (r: u32)
    requires
        t <= ONE,
    ensures
        r == smooth(t as int),
        r <= ONE,
{
    proof {
        assert((t as int) * (t as int) <= 65536 * 65536) by (nonlinear_arith)
            requires t <= 65536;
    }
    let tt = (t as u64) * (t as u64) / (ONE as u64);
    proof {
        let ti = t as int;
        assert(ti * ti / (ONE as int) <= ti) by (nonlinear_arith)
            requires 0 <= ti <= ONE;
        assert(0 <= ti * ti / (ONE as int)) by (nonlinear_arith)
            requires 0 <= ti;
        let s = ti * ti / (ONE as int);
        assert(s * (3 * ONE - 2 * ti) / (ONE as int) <= ONE) by (nonlinear_arith)
            requires 0 <= ti <= ONE, 0 <= s, s * (ONE as int) <= ti * ti;
        assert(s * (ONE as int) <= ti * ti) by (nonlinear_arith)
            requires s == ti * ti / (ONE as int);
        assert(0 <= s * (3 * ONE - 2 * ti)) by (nonlinear_arith)
            requires 0 <= s, ti <= ONE;
    }
    (tt * (3 * ONE as u64 - 2 * t as u64) / (ONE as u64)) as u32
}

/// `a` blended toward `b` by `t / ONE`, rounded down.
pub open spec fn blend(a: int, b: int, t: int) -> int {
    (a * (ONE - t) + b * t) / (ONE as int)
}

fn blend_frac(a: u32, b: u32, t: u32) -> (r: u32)
    requires
        a <= ONE,
        b <= ONE,
        t <= ONE,
    ensures
        r == blend(a as int, b as int, t as int),
        r <= ONE,
{
    proof {
        let (ai, bi, ti) = (a as int, b as int, t as int);
        assert(ai * (ONE - ti) + bi * ti <= (ONE as int) * (ONE as int)) by (nonlinear_arith)
            requires ai <= ONE, bi <= ONE, 0 <= ti <= ONE, 0 <= ai, 0 <= bi;
        assert(0 <= ai * (ONE - ti) + bi * ti) by (nonlinear_arith)
            requires 0 <= ai, 0 <= bi, 0 <= ti <= ONE;
        assert((ai * (ONE - ti) + bi * ti) / (ONE as int) <= ONE) by (nonlinear_arith)
            requires ai * (ONE - ti) + bi * ti <= (ONE as int) * (ONE as int);
    }
    (((a as u64) * ((ONE - t) as u64) + (b as u64) * (t as u64)) / (ONE as u64)) as u32
}

/// `v` pinned to the `i32` range.
pub open spec fn saturate_i32(v: int) -> i32 {
    (if v < i32::MIN { i32::MIN as int } else if v > i32::MAX { i32::MAX as int } else { v }) as i32
}

/// Value noise at (`x`, `y`), given in units of `1 / ONE`: the four
/// surrounding lattice values blended with smoothstep weights.
pub open spec fn value_noise_at(x: int, y: int, salt: u32) -> int {
    let x0 = x / (ONE as int);
    let y0 = y / (ONE as int);
    let sx = smooth(x - x0 * ONE);
    let sy = smooth(y - y0 * ONE);
    let (cx0, cx1) = (saturate_i32(x0), saturate_i32(x0 + 1));
    let (cy0, cy1) = (saturate_i32(y0), saturate_i32(y0 + 1));
    let top = blend(corner_value(cx0, cy0, salt), corner_value(cx1, cy0, salt), sx);
    let bottom = blend(corner_value(cx0, cy1, salt), corner_value(cx1, cy1, salt), sx);
    blend(top, bottom, sy)
}

pub(crate) fn floor_div_one(a: i128) -> (r: i128)
    requires
        -0x4000_0000_0000_0000_0000_0000_0000 <= a <= 0x4000_0000_0000_0000_0000_0000_0000,
    ensures
        r == (a as int) / (ONE as int),
        -0x4000_0000_0000_0000_0000_0000_0000 <= r <= 0x4000_0000_0000_0000_0000_0000_0000,
        -COORD_LIMIT <= a <= COORD_LIMIT ==> -COORD_LIMIT <= r <= COORD_LIMIT,
        a >= 0 ==> r >= 0,
        (a as int) <= 81 * (INPUT_LIMIT as int) * (ONE as int) ==> (r as int) <= 81 * (INPUT_LIMIT as int),
        (a as int) >= -81 * (INPUT_LIMIT as int) * (ONE as int) ==> (r as int) >= -81 * (INPUT_LIMIT as int),
{
    let b = ONE as i128;
    if a >= 0 {
        a / b
    } else {
        let q = (-a - 1) / b;
        proof {
            let (ai, bi, qi) = (a as int, b as int, q as int);
            let rr = (-ai - 1) % bi;
            assert(-ai - 1 == qi * bi + rr && 0 <= rr < bi) by (nonlinear_arith)
                requires qi == (-ai - 1) / bi, rr == (-ai - 1) % bi, bi > 0, -ai - 1 >= 0;
            assert(ai == (-qi - 1) * bi + (bi - rr - 1)) by (nonlinear_arith)
                requires -ai - 1 == qi * bi + rr;
            assert(ai / bi == -qi - 1) by (nonlinear_arith)
                requires ai == (-qi - 1) * bi + (bi - rr - 1), 0 <= bi - rr - 1 < bi, bi > 0;
            assert(-qi - 1 >= ai / bi);
        }
        -q - 1
    }
}

fn sat_i32(v: i128) -> (r: i32)
    ensures
        r == saturate_i32(v as int),
{
    if v < i32::MIN as i128 {
        i32::MIN
    } else if v > i32::MAX as i128 {
        i32::MAX
    } else {
        v as i32
    }
}

/// Value noise at (`x`, `y`); see [`value_noise_at`].
pub fn value_noise(x: i128, y: i128, salt: u32) -> (r: u32)
    requires
        -COORD_LIMIT <= x <= COORD_LIMIT,
        -COORD_LIMIT <= y <= COORD_LIMIT,
    ensures
        r == value_noise_at(x as int, y as int, salt),
        r <= ONE,
{
    let x0 = floor_div_one(x);
    let y0 = floor_div_one(y);
    proof {
        let (xi, yi, x0i, y0i) = (x as int, y as int, x0 as int, y0 as int);
        assert(0 <= xi - x0i * (ONE as int) < ONE) by (nonlinear_arith)
            requires x0i == xi / (ONE as int);
        assert(0 <= yi - y0i * (ONE as int) < ONE) by (nonlinear_arith)
            requires y0i == yi / (ONE as int);
    }
    let sx = smoothstep((x - x0 * (ONE as i128)) as u32);
    let sy = smoothstep((y - y0 * (ONE as i128)) as u32);
    let (cx0, cx1) = (sat_i32(x0), sat_i32(x0 + 1));
    let (cy0, cy1) = (sat_i32(y0), sat_i32(y0 + 1));
    let top = blend_frac(hash_coords(cx0, cy0, salt), hash_coords(cx1, cy0, salt), sx);
    let bottom = blend_frac(hash_coords(cx0, cy1, salt), hash_coords(cx1, cy1, salt), sx);
    blend_frac(top, bottom, sy)
}

/// Sum of `octaves` layers of value noise, each at `lacunarity` times the
/// frequency and `persistence` times the weight of the one before (both
/// fractions over `ONE`), divided by the total weight and kept within
/// `[0, 1]`; see [`fractal_noise`].
pub open spec fn fractal_sum(
    x: int,
    y: int,
    k: nat,
    persistence: int,
    lacunarity: int,
    salt: u32,
) -> (int, int)
    decreases k,
{
    if k == 0 {
        (0, 0)
    } else {
        let (total, weight) = fractal_sum(x, y, (k - 1) as nat, persistence, lacunarity, salt);
        let amp = layer_scale((k - 1) as nat, persistence);
        let freq = layer_scale((k - 1) as nat, lacunarity);
        let sample = value_noise_at(
            x * freq / (ONE as int),
            y * freq / (ONE as int),
            ((salt as int + k - 1) % 0x1_0000_0000) as u32,
        );
        (total + sample * amp, weight + amp)
    }
}

/// `factor^k` in fixed point, each product rounded down.
pub open spec fn layer_scale(k: nat, factor: int) -> int
    decreases k,
{
    if k == 0 {
        ONE as int
    } else {
        layer_scale((k - 1) as nat, factor) * factor / (ONE as int)
    }
}

/// Fractal noise, normalised by the total weight and clamped to `[0, 1]`.
pub open spec fn fractal_noise_at(
    x: int,
    y: int,
    octaves: nat,
    persistence: int,
    lacunarity: int,
    salt: u32,
) -> int {
    let (total, weight) = fractal_sum(x, y, octaves, persistence, lacunarity, salt);
    if weight <= 0 {
        0
    } else if total / weight > ONE {
        ONE as int
    } else {
        total / weight
    }
}

/// Largest coordinate, in units of `1 / ONE`, that fractal noise takes.
pub const INPUT_LIMIT: i128 = 0x200_0000_0000_0000_0000;

/// Fractal noise of up to four octaves; see [`fractal_noise_at`].
pub fn fractal_noise(
    x: i128,
    y: i128,
    octaves: u8,
    persistence: u32,
    lacunarity: u32,
    salt: u32,
) -> (r: u32)
    requires
        -INPUT_LIMIT <= x <= INPUT_LIMIT,
        -INPUT_LIMIT <= y <= INPUT_LIMIT,
        octaves <= 4,
        persistence <= ONE,
        lacunarity <= 3 * ONE,
    ensures
        r == fractal_noise_at(x as int, y as int, octaves as nat, persistence as int, lacunarity as int, salt),
        r <= ONE,
{
    let mut total: u128 = 0;
    let mut weight: u128 = 0;
    let mut amp: u128 = ONE as u128;
    let mut freq: u128 = ONE as u128;
    let mut k: u8 = 0;
    while k < octaves
        invariant
            k <= octaves <= 4,
            -INPUT_LIMIT <= x <= INPUT_LIMIT,
            -INPUT_LIMIT <= y <= INPUT_LIMIT,
            persistence <= ONE,
            lacunarity <= 3 * ONE,
            (total as int, weight as int) == fractal_sum(
                x as int,
                y as int,
                k as nat,
                persistence as int,
                lacunarity as int,
                salt,
            ),
            amp == layer_scale(k as nat, persistence as int),
            freq == layer_scale(k as nat, lacunarity as int),
            amp <= ONE,
            freq <= ONE * (if k == 0 { 1int } else if k == 1 { 3int } else if k == 2 { 9int } else if k == 3 { 27int } else { 81int }),
            total <= (k as int) * (ONE as int) * (ONE as int),
            weight <= (k as int) * (ONE as int),
            k > 0 ==> weight >= ONE,
        decreases octaves - k,
    {
        proof {
            assert(freq <= 81 * ONE);
            let (xi, yi, fi) = (x as int, y as int, freq as int);
            assert(-0x200_0000_0000_0000_0000 * (81 * 65536) <= xi * fi <= 0x200_0000_0000_0000_0000 * (81 * 65536))
                by (nonlinear_arith)
                requires -0x200_0000_0000_0000_0000 <= xi <= 0x200_0000_0000_0000_0000, 0 <= fi <= 81 * 65536;
            assert(-0x200_0000_0000_0000_0000 * (81 * 65536) <= yi * fi <= 0x200_0000_0000_0000_0000 * (81 * 65536))
                by (nonlinear_arith)
                requires -0x200_0000_0000_0000_0000 <= yi <= 0x200_0000_0000_0000_0000, 0 <= fi <= 81 * 65536;
        }
        let fx = floor_div_one(x * (freq as i128));
        let fy = floor_div_one(y * (freq as i128));
        let sample = value_noise(fx, fy, salt.wrapping_add(k as u32)) as u128;
        proof {
            assert(sample * amp <= (ONE as int) * (ONE as int)) by (nonlinear_arith)
                requires sample <= ONE, amp <= ONE;
            assert(amp * (persistence as int) / (ONE as int) <= ONE) by (nonlinear_arith)
                requires amp <= ONE, persistence <= ONE;
            assert(freq * (lacunarity as int) <= freq * 3 * (ONE as int)) by (nonlinear_arith)
                requires lacunarity <= 3 * ONE;
            assert(freq * (lacunarity as int) / (ONE as int) <= freq * 3) by (nonlinear_arith)
                requires freq * (lacunarity as int) <= freq * 3 * (ONE as int);
            assert(fx == ((x as int) * (freq as int)) / (ONE as int));
        }
        total = total + sample * amp;
        weight = weight + amp;
        amp = amp * (persistence as u128) / (ONE as u128);
        freq = freq * (lacunarity as u128) / (ONE as u128);
        k = k + 1;
    }
    if weight == 0 {
        return 0;
    }
    let q = total / weight;
    if q > ONE as u128 {
        ONE
    } else {
        q as u32
    }
}

} // verus!
