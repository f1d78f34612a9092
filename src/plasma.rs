//! The plasma preset: fractal noise swirled around the centre, with a ring
//! wave running outward.
use vstd::prelude::*;
use crate::color::{Rgb, palette_color, sample_palette, scale_color, scaled_color};
use crate::fixed::ONE;
use crate::image::floor_div;
use crate::noise::{floor_div_one, fractal_noise, fractal_noise_at};
use crate::waves::{Waveforms, arctan_index, sample};

verus! {

/// Plasma time stops advancing past this many units of `1 / ONE`.
pub const TIME_CAP: i128 = 0x1000_0000_0000_0000;

/// Whether `r` is the whole square root of `n`.
pub open spec fn is_root(n: int, r: int) -> bool {
    0 <= r && r * r <= n < (r + 1) * (r + 1)
}

/// The whole square root of `n`.
pub open spec fn root(n: int) -> int {
    choose|r: int| #[trigger] is_root(n, r)
}

proof fn lemma_root_unique(n: int, r: int)
    requires
        0 <= r,
        r * r <= n < (r + 1) * (r + 1),
    ensures
        root(n) == r,
{
    assert(is_root(n, r));
    let q = root(n);
    assert(is_root(n, q));
    if q < r {
        assert((q + 1) * (q + 1) <= r * r) by (nonlinear_arith)
            requires 0 <= q < r;
    } else if q > r {
        assert((r + 1) * (r + 1) <= q * q) by (nonlinear_arith)
            requires 0 <= r < q;
    }
}

fn isqrt(n: u64) -> (r: u64)
    requires
        n < 0x1_0000_0000,
    ensures
        r == root(n as int),
        r * r <= n,
        r <= 0x1_0000,
{
    let mut lo: u64 = 0;
    let mut hi: u64 = 0x1_0000;
    while lo + 1 < hi
        invariant
            lo < hi <= 0x1_0000,
            lo * lo <= n,
            n < hi * hi,
        decreases hi - lo,
    {
        let mid = lo + (hi - lo) / 2;
        proof {
            assert(mid * mid <= 0x1_0000 * 0x1_0000) by (nonlinear_arith)
                requires mid <= 0x1_0000;
        }
        if mid * mid <= n {
            lo = mid;
        } else {
            hi = mid;
        }
    }
    proof {
        assert(hi == lo + 1);
        lemma_root_unique(n as int, lo as int);
    }
    lo
}

/// The angle of (`cx`, `cy`) from the positive x axis, in turns within
/// `(-1/2, 1/2]`, from the arctangent table.
pub open spec fn turn_angle(cx: int, cy: int, arctan: Seq<u32>) -> int {
    if cx == 0 && cy == 0 {
        0
    } else {
        let ax = if cx < 0 { -cx } else { cx };
        let ay = if cy < 0 { -cy } else { cy };
        let a = if ay <= ax {
            arctan[arctan_index(ay * (ONE as int) / ax)] as int
        } else {
            ONE / 4 - arctan[arctan_index(ax * (ONE as int) / ay)] as int
        };
        if cx >= 0 {
            if cy >= 0 { a } else { -a }
        } else {
            if cy >= 0 { ONE / 2 - a } else { a - ONE / 2 }
        }
    }
}

fn angle_of(cx: i64, cy: i64, waves: &Waveforms) -> (r: i64)
    requires
        waves.well_formed(),
        -0x1_0000 <= cx <= 0x1_0000,
        -0x1_0000 <= cy <= 0x1_0000,
    ensures
        r == turn_angle(cx as int, cy as int, waves.arctan_table()),
        -2 * (ONE as int) <= r <= 2 * ONE,
{
    if cx == 0 && cy == 0 {
        return 0;
    }
    let ax = if cx < 0 { -cx } else { cx };
    let ay = if cy < 0 { -cy } else { cy };
    let a: i64 = if ay <= ax {
        proof {
            assert((ay as int) * (ONE as int) / (ax as int) <= ONE) by (nonlinear_arith)
                requires 0 <= ay <= ax, ax > 0;
        }
        waves.arctan(((ay * ONE as i64) / ax) as u32) as i64
    } else {
        proof {
            assert((ax as int) * (ONE as int) / (ay as int) <= ONE) by (nonlinear_arith)
                requires 0 <= ax < ay;
        }
        (ONE / 4) as i64 - waves.arctan(((ax * ONE as i64) / ay) as u32) as i64
    };
    if cx >= 0 {
        if cy >= 0 { a } else { -a }
    } else {
        if cy >= 0 { (ONE / 2) as i64 - a } else { a - (ONE / 2) as i64 }
    }
}

/// `2 * wave(t) - 1`: the sine of `t` turns from the wave table.
pub open spec fn sine(wave: Seq<u32>, turns: int) -> int {
    2 * sample(wave, turns % (ONE as int)) - ONE
}

fn wrap_unit(v: i128) -> (r: u32)
    requires
        -0x400_0000_0000_0000_0000_0000 <= v <= 0x400_0000_0000_0000_0000_0000,
    ensures
        r == (v as int) % (ONE as int),
        r < ONE,
{
    let one = ONE as i128;
    let q = floor_div(v, one);
    proof {
        let (vi, qi) = (v as int, q as int);
        assert(0 <= vi - qi * (ONE as int) < ONE) by (nonlinear_arith)
            requires qi == vi / (ONE as int);
        assert(vi % (ONE as int) == vi - qi * (ONE as int)) by (nonlinear_arith)
            requires qi == vi / (ONE as int);
    }
    (v - q * one) as u32
}

fn sine_at(waves: &Waveforms, turns: i128) -> (r: i128)
    requires
        waves.well_formed(),
        -0x400_0000_0000_0000_0000_0000 <= turns <= 0x400_0000_0000_0000_0000_0000,
    ensures
        r == sine(waves.wave_table(), turns as int),
        -(ONE as int) <= r <= ONE,
{
    let w = waves.wave(wrap_unit(turns)) as i128;
    2 * w - ONE as i128
}

/// Plasma time in units of `1 / ONE` second: elapsed time scaled by the
/// flow speed, stopping at `TIME_CAP`.
pub open spec fn plasma_time(elapsed_ms: int, flow_speed: int) -> int {
    let t = elapsed_ms * flow_speed / 1000;
    if t > TIME_CAP { TIME_CAP as int } else { t }
}

/// Noise scale, at least 0.1.
pub open spec fn plasma_scale(noise_scale: int) -> int {
    if noise_scale < 6554 { 6554 } else { noise_scale }
}

/// The swirled position: (`cx`, `cy`) turned by `spin` turns.
pub open spec fn swirled(cx: int, cy: int, spin: int, wave: Seq<u32>) -> (int, int) {
    let sn = sine(wave, spin);
    let cs = sine(wave, spin + ONE / 4);
    ((cx * cs - cy * sn) / (ONE as int), (cx * sn + cy * cs) / (ONE as int))
}

/// The main noise field, sampled at the swirled position drifting with time.
pub open spec fn base_term(swx: int, swy: int, scale: int, t: int) -> int {
    let fx = swx * scale / (ONE as int) * 34 / 10 + t * 6 / 10;
    let fy = swy * scale / (ONE as int) * 34 / 10 - t * 45 / 100;
    fractal_noise_at(fx, fy, 4, 34079, 137626, 0x9e37_79b9)
}

/// The second noise field, sampled over radius and spin angle.
pub open spec fn polar_term(rn: int, spin_rad: int, scale: int, t: int) -> int {
    let px = rn * scale / (ONE as int) * 48 / 10 + t * 35 / 100;
    let py = spin_rad * 45 / 100 + t * 18 / 100;
    fractal_noise_at(px, py, 3, 39322, 154010, 0x85eb_ca77)
}

/// The ring wave running outward from the centre.
pub open spec fn ring_term(rn: int, spin_rad: int, scale: int, t: int, wave: Seq<u32>) -> int {
    let ring_scale = if scale * 8 / 10 < 13107 { 13107 } else { scale * 8 / 10 };
    let arg = rn * ring_scale / (ONE as int) * 6 - t * 9 / 10 + spin_rad * 75 / 100;
    sample(wave, arg * 1_000_000 / 6_283_185 % (ONE as int))
}

/// Palette position, energy and shimmer from the two fields and the ring.
pub open spec fn blend_terms(base: int, polar: int, ring: int, t: int, wave: Seq<u32>) -> (int, int, int) {
    let pos = (base / 2 + polar * 35 / 100 + ring * 15 / 100 + t * 5 / 100) % (ONE as int);
    let e = base * 45 / 100 + polar * 35 / 100 + ring * 20 / 100;
    let energy = if e > ONE { ONE as int } else { e };
    let shimmer = sample(wave, (polar * 6 / 10 + ring * 4 / 10 + t / 10) % (ONE as int));
    (pos, energy, shimmer)
}

/// The plasma's palette position, energy and shimmer at pixel (`x`, `y`)
/// of a `w` x `h` display at plasma time `t`.
pub open spec fn plasma_terms(
    w: int,
    h: int,
    x: int,
    y: int,
    t: int,
    scale: int,
    wave: Seq<u32>,
    arctan: Seq<u32>,
) -> (int, int, int) {
    let cx = x * (ONE as int) / w - ONE / 2;
    let cy = y * (ONE as int) / h - ONE / 2;
    let r = root(cx * cx + cy * cy);
    let rn = if 2 * r > 104858 { 104858 } else { 2 * r };
    let spin = turn_angle(cx, cy, arctan) + t * 5_570_423 / 100_000_000;
    let spin_rad = spin * 6_283_185 / 1_000_000;
    let (swx, swy) = swirled(cx, cy, spin, wave);
    blend_terms(
        base_term(swx, swy, scale, t),
        polar_term(rn, spin_rad, scale, t),
        ring_term(rn, spin_rad, scale, t, wave),
        t,
        wave,
    )
}

/// Plasma colour of pixel (`x`, `y`): the palette at the position term, at a
/// brightness of 0.3 plus 0.7 of a blend of energy and shimmer.
pub open spec fn plasma_color(
    colors: Seq<Rgb>,
    w: int,
    h: int,
    x: int,
    y: int,
    t: int,
    scale: int,
    wave: Seq<u32>,
    arctan: Seq<u32>,
) -> Rgb {
    let (pos, energy, shimmer) = plasma_terms(w, h, x, y, t, scale, wave, arctan);
    scaled_color(palette_color(colors, pos), 3 * ONE / 10 + 7 * (65 * energy + 35 * shimmer) / 1000)
}

pub fn plasma_time_of(elapsed_ms: u64, flow_speed: u32) -> (r: i128)
    ensures
        r == plasma_time(elapsed_ms as int, flow_speed as int),
        0 <= r <= TIME_CAP,
{
    proof {
        assert((elapsed_ms as int) * (flow_speed as int) <= 0xffff_ffff_ffff_ffff * 0xffff_ffff)
            by (nonlinear_arith)
            requires elapsed_ms <= 0xffff_ffff_ffff_ffffu64, flow_speed <= 0xffff_ffffu32;
    }
    let t = (elapsed_ms as i128) * (flow_speed as i128) / 1000;
    if t > TIME_CAP {
        TIME_CAP
    } else {
        t
    }
}

fn swirl_at(cx: i128, cy: i128, spin: i128, waves: &Waveforms) -> (r: (i128, i128))
    requires
        waves.well_formed(),
        -0x8000 <= cx <= 0x8000,
        -0x8000 <= cy <= 0x8000,
        -0x100_0000_0000_0000_0000_0000 <= spin <= 0x100_0000_0000_0000_0000_0000,
    ensures
        (r.0 as int, r.1 as int) == swirled(cx as int, cy as int, spin as int, waves.wave_table()),
        -0x1_0000 <= r.0 <= 0x1_0000,
        -0x1_0000 <= r.1 <= 0x1_0000,
{
    let sn = sine_at(waves, spin);
    let cs = sine_at(waves, spin + (ONE / 4) as i128);
    proof {
        assert(-0x8000 * 0x1_0000 <= cx * cs <= 0x8000 * 0x1_0000) by (nonlinear_arith)
            requires -0x8000 <= cx <= 0x8000, -0x1_0000 <= cs <= 0x1_0000;
        assert(-0x8000 * 0x1_0000 <= cy * sn <= 0x8000 * 0x1_0000) by (nonlinear_arith)
            requires -0x8000 <= cy <= 0x8000, -0x1_0000 <= sn <= 0x1_0000;
        assert(-0x8000 * 0x1_0000 <= cx * sn <= 0x8000 * 0x1_0000) by (nonlinear_arith)
            requires -0x8000 <= cx <= 0x8000, -0x1_0000 <= sn <= 0x1_0000;
        assert(-0x8000 * 0x1_0000 <= cy * cs <= 0x8000 * 0x1_0000) by (nonlinear_arith)
            requires -0x8000 <= cy <= 0x8000, -0x1_0000 <= cs <= 0x1_0000;
    }
    let swx = floor_div_one(cx * cs - cy * sn);
    let swy = floor_div_one(cx * sn + cy * cs);
    proof {
        let (a, b) = ((cx * cs - cy * sn) as int, (cx * sn + cy * cs) as int);
        assert(-0x1_0000 <= a / 65536 <= 0x1_0000) by (nonlinear_arith)
            requires -0x1_0000_0000 <= a <= 0x1_0000_0000;
        assert(-0x1_0000 <= b / 65536 <= 0x1_0000) by (nonlinear_arith)
            requires -0x1_0000_0000 <= b <= 0x1_0000_0000;
    }
    (swx, swy)
}

fn base_at(swx: i128, swy: i128, scale: i128, t: i128) -> (r: i128)
    requires
        -0x1_0000 <= swx <= 0x1_0000,
        -0x1_0000 <= swy <= 0x1_0000,
        0 <= scale <= 0x1_0000_0000,
        0 <= t <= TIME_CAP,
    ensures
        r == base_term(swx as int, swy as int, scale as int, t as int),
        0 <= r <= ONE,
{
    proof {
        assert(-0x1_0000 * 0x1_0000_0000 <= swx * scale <= 0x1_0000 * 0x1_0000_0000) by (nonlinear_arith)
            requires -0x1_0000 <= swx <= 0x1_0000, 0 <= scale <= 0x1_0000_0000;
        assert(-0x1_0000 * 0x1_0000_0000 <= swy * scale <= 0x1_0000 * 0x1_0000_0000) by (nonlinear_arith)
            requires -0x1_0000 <= swy <= 0x1_0000, 0 <= scale <= 0x1_0000_0000;
    }
    let ax = floor_div_one(swx * scale);
    let ay = floor_div_one(swy * scale);
    proof {
        let (a, b) = ((swx * scale) as int, (swy * scale) as int);
        assert(-0x1_0000_0000 <= a / 65536 <= 0x1_0000_0000) by (nonlinear_arith)
            requires -0x1_0000 * 0x1_0000_0000 <= a <= 0x1_0000 * 0x1_0000_0000;
        assert(-0x1_0000_0000 <= b / 65536 <= 0x1_0000_0000) by (nonlinear_arith)
            requires -0x1_0000 * 0x1_0000_0000 <= b <= 0x1_0000 * 0x1_0000_0000;
    }
    let fx = floor_div(ax * 34, 10) + t * 6 / 10;
    let fy = floor_div(ay * 34, 10) - t * 45 / 100;
    proof {
        let (a, b) = ((ax * 34) as int, (ay * 34) as int);
        assert(-0x100_0000_0000 <= a / 10 <= 0x100_0000_0000) by (nonlinear_arith)
            requires -0x22_0000_0000 <= a <= 0x22_0000_0000;
        assert(-0x100_0000_0000 <= b / 10 <= 0x100_0000_0000) by (nonlinear_arith)
            requires -0x22_0000_0000 <= b <= 0x22_0000_0000;
    }
    fractal_noise(fx, fy, 4, 34079, 137626, 0x9e37_79b9) as i128
}

fn polar_at(rn: i128, spin_rad: i128, scale: i128, t: i128) -> (r: i128)
    requires
        0 <= rn <= 104858,
        -0x100_0000_0000_0000_0000 <= spin_rad <= 0x100_0000_0000_0000_0000,
        0 <= scale <= 0x1_0000_0000,
        0 <= t <= TIME_CAP,
    ensures
        r == polar_term(rn as int, spin_rad as int, scale as int, t as int),
        0 <= r <= ONE,
{
    proof {
        assert(rn * scale <= 104858 * 0x1_0000_0000) by (nonlinear_arith)
            requires 0 <= rn <= 104858, 0 <= scale <= 0x1_0000_0000;
        assert(0 <= rn * scale) by (nonlinear_arith)
            requires 0 <= rn, 0 <= scale;
    }
    let px = rn * scale / (ONE as i128) * 48 / 10 + t * 35 / 100;
    let py = floor_div(spin_rad * 45, 100) + t * 18 / 100;
    proof {
        let a = (spin_rad * 45) as int;
        assert(-0x100_0000_0000_0000_0000 <= a / 100 <= 0x100_0000_0000_0000_0000) by (nonlinear_arith)
            requires -0x100_0000_0000_0000_0000 * 45 <= a <= 0x100_0000_0000_0000_0000 * 45;
    }
    fractal_noise(px, py, 3, 39322, 154010, 0x85eb_ca77) as i128
}

fn ring_at(rn: i128, spin_rad: i128, scale: i128, t: i128, waves: &Waveforms) -> (r: i128)
    requires
        waves.well_formed(),
        0 <= rn <= 104858,
        -0x100_0000_0000_0000_0000 <= spin_rad <= 0x100_0000_0000_0000_0000,
        0 <= scale <= 0x1_0000_0000,
        0 <= t <= TIME_CAP,
    ensures
        r == ring_term(rn as int, spin_rad as int, scale as int, t as int, waves.wave_table()),
        0 <= r <= ONE,
{
    let ring_scale: i128 = if scale * 8 / 10 < 13107 { 13107 } else { scale * 8 / 10 };
    proof {
        assert(rn * ring_scale <= 104858 * 0x1_0000_0000) by (nonlinear_arith)
            requires 0 <= rn <= 104858, 0 <= ring_scale <= 0x1_0000_0000;
        assert(0 <= rn * ring_scale) by (nonlinear_arith)
            requires 0 <= rn, 0 <= ring_scale;
    }
    let arg = rn * ring_scale / (ONE as i128) * 6 - t * 9 / 10 + floor_div(spin_rad * 75, 100);
    proof {
        let a = (spin_rad * 75) as int;
        assert(-0x100_0000_0000_0000_0000 <= a / 100 <= 0x100_0000_0000_0000_0000) by (nonlinear_arith)
            requires -0x100_0000_0000_0000_0000 * 75 <= a <= 0x100_0000_0000_0000_0000 * 75;
    }
    let turns = floor_div(arg * 1_000_000, 6_283_185);
    proof {
        let a = (arg * 1_000_000) as int;
        assert(-0x400_0000_0000_0000_0000 <= a / 6_283_185 <= 0x400_0000_0000_0000_0000) by (nonlinear_arith)
            requires -0x400_0000_0000_0000_0000 * 1_000_000 <= a <= 0x400_0000_0000_0000_0000 * 1_000_000;
    }
    waves.wave(wrap_unit(turns)) as i128
}

fn blend_at(base: i128, polar: i128, ring: i128, t: i128, waves: &Waveforms) -> (r: (u32, i128, i128))
    requires
        waves.well_formed(),
        0 <= base <= ONE,
        0 <= polar <= ONE,
        0 <= ring <= ONE,
        0 <= t <= TIME_CAP,
    ensures
        (r.0 as int, r.1 as int, r.2 as int) == blend_terms(
            base as int,
            polar as int,
            ring as int,
            t as int,
            waves.wave_table(),
        ),
        0 <= r.1 <= ONE,
        0 <= r.2 <= ONE,
{
    let one = ONE as i128;
    let pos = wrap_unit(base / 2 + polar * 35 / 100 + ring * 15 / 100 + t * 5 / 100);
    let e = base * 45 / 100 + polar * 35 / 100 + ring * 20 / 100;
    let energy = if e > one { one } else { e };
    let shimmer = waves.wave(wrap_unit(polar * 6 / 10 + ring * 4 / 10 + t / 10)) as i128;
    (pos, energy, shimmer)
}

/// The plasma colour of one pixel; see [`plasma_color`].
pub fn plasma_at(
    colors: &Vec<Rgb>,
    w: u32,
    h: u32,
    x: u32,
    y: u32,
    t: i128,
    noise_scale: u32,
    waves: &Waveforms,
) -> (r: Rgb)
    requires
        x < w,
        y < h,
        0 <= t <= TIME_CAP,
        waves.well_formed(),
    ensures
        r == plasma_color(
            colors@,
            w as int,
            h as int,
            x as int,
            y as int,
            t as int,
            plasma_scale(noise_scale as int),
            waves.wave_table(),
            waves.arctan_table(),
        ),
{
    let scale: i128 = if noise_scale < 6554 { 6554 } else { noise_scale as i128 };
    proof {
        assert((x as int) * (ONE as int) / (w as int) < ONE) by (nonlinear_arith)
            requires x < w;
        assert((y as int) * (ONE as int) / (h as int) < ONE) by (nonlinear_arith)
            requires y < h;
    }
    let cx = ((x as i64) * (ONE as i64) / (w as i64)) - (ONE / 2) as i64;
    let cy = ((y as i64) * (ONE as i64) / (h as i64)) - (ONE / 2) as i64;
    proof {
        assert(cx * cx <= 0x8000 * 0x8000) by (nonlinear_arith)
            requires -0x8000 <= cx <= 0x8000;
        assert(cy * cy <= 0x8000 * 0x8000) by (nonlinear_arith)
            requires -0x8000 <= cy <= 0x8000;
        assert(0 <= cx * cx) by (nonlinear_arith);
        assert(0 <= cy * cy) by (nonlinear_arith);
    }
    let r = isqrt((cx * cx + cy * cy) as u64) as i128;
    let rn: i128 = if 2 * r > 104858 { 104858 } else { 2 * r };
    let spin = angle_of(cx, cy, waves) as i128 + t * 5_570_423 / 100_000_000;
    let spin_rad = floor_div(spin * 6_283_185, 1_000_000);
    proof {
        let a = (spin * 6_283_185) as int;
        assert(-0x100_0000_0000_0000_0000 <= a / 1_000_000 <= 0x100_0000_0000_0000_0000) by (nonlinear_arith)
            requires -0x10_0000_0000_0000_0000 * 6_283_185 <= a <= 0x10_0000_0000_0000_0000 * 6_283_185;
    }
    let (swx, swy) = swirl_at(cx as i128, cy as i128, spin, waves);
    let base = base_at(swx, swy, scale, t);
    let polar = polar_at(rn, spin_rad, scale, t);
    let ring = ring_at(rn, spin_rad, scale, t, waves);
    let (pos, energy, shimmer) = blend_at(base, polar, ring, t, waves);
    let level = 3 * (ONE as i128) / 10 + 7 * (65 * energy + 35 * shimmer) / 1000;
    scale_color(sample_palette(colors, pos), level as u32)
}

} // verus!
