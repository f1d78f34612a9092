//! Colours, the per-frame render context and palette arithmetic.
use vstd::prelude::*;
use crate::fixed::ONE;

verus! {

/// An RGB triple, one byte per channel.
pub type Rgb = [u8; 3];

/// `v / 2` rounded toward zero, as integer division does.
pub open spec fn half_toward_zero(v: int) -> int {
    if v >= 0 {
        v / 2
    } else {
        -((-v) / 2)
    }
}

/// All channels off.
pub open spec fn black() -> Rgb {
    [0u8, 0u8, 0u8]
}

/// `c * num / den`, truncated toward zero.
pub open spec fn scaled(c: u8, num: int, den: int) -> int {
    (c as int) * num / den
}

/// Display geometry and user brightness, shared by every renderer of a frame.
#[derive(Clone, Copy, Debug, PartialEq, Eq)]
pub struct RenderContext {
    /// Display width in pixels.
    pub display_width: i32,
    /// Display height in pixels.
    pub display_height: i32,
    /// User brightness, 0 to 100.
    pub brightness: u8,
}

impl RenderContext {
    /// Geometry is non-negative and brightness is a percentage.
    pub open spec fn well_formed(&self) -> bool {
        &&& 0 <= self.display_width
        &&& 0 <= self.display_height
        &&& self.brightness <= 100
    }

    /// The colour `c` at brightness `brightness` percent, truncated.
    pub open spec fn dimmed(c: Rgb, brightness: int) -> Rgb {
        [
            scaled(c[0], brightness, 100) as u8,
            scaled(c[1], brightness, 100) as u8,
            scaled(c[2], brightness, 100) as u8,
        ]
    }

    pub fn new(display_width: i32, display_height: i32, brightness: u8) -> (r: Self)
        ensures
            r.display_width == display_width,
            r.display_height == display_height,
            r.brightness == brightness,
    {
        RenderContext { display_width, display_height, brightness }
    }

    /// Scales each channel by `brightness / 100`, truncating toward zero.
    pub fn apply_brightness(&self, color: Rgb) -> (r: Rgb)
        requires
            self.well_formed(),
        ensures
            r == Self::dimmed(color, self.brightness as int),
    {
        let b = self.brightness as u32;
        [scale_channel(color[0], b, 100), scale_channel(color[1], b, 100), scale_channel(
            color[2],
            b,
            100,
        )]
    }

    /// Baseline row that centres text of height `font_height` vertically.
    pub fn calculate_centered_text_position(&self, font_height: i32) -> (r: i32)
        requires
            self.well_formed(),
        ensures
            r == self.display_height / 2 + half_toward_zero(font_height as int) - 5,
    {
        let half_h = self.display_height / 2;
        let f = font_height as i64;
        let half_f: i64 = if f >= 0 {
            f / 2
        } else {
            -((-f) / 2)
        };
        (half_h as i64 + half_f - 5) as i32
    }
}

/// `c * num / den` truncated, for `num <= den`.
pub fn scale_channel(c: u8, num: u32, den: u32) -> (r: u8)
    requires
        0 < den,
        num <= den,
    ensures
        r == scaled(c, num as int, den as int),
{
    proof {
        assert((c as int) * (num as int) <= (c as int) * (den as int)) by (nonlinear_arith)
            requires num <= den;
        assert((c as int) * (num as int) / (den as int) <= c) by (nonlinear_arith)
            requires num <= den, 0 < den, (c as int) * (num as int) <= (c as int) * (den as int);
        assert(0 <= (c as int) * (num as int));
        assert((c as int) * (num as int) <= 255 * 0xffff_ffff) by (nonlinear_arith)
            requires c <= 255, num <= 0xffff_ffff;
    }
    ((c as u64 * num as u64) / den as u64) as u8
}

/// At full brightness a colour is shown unchanged, at zero it is black.
pub proof fn lemma_brightness_bounds(color: Rgb)
    ensures
        RenderContext::dimmed(color, 100) == color,
        RenderContext::dimmed(color, 0) == [0u8, 0u8, 0u8],
{
    assert(RenderContext::dimmed(color, 100) =~= color);
    assert(RenderContext::dimmed(color, 0) =~= [0u8, 0u8, 0u8]);
}

/// Dimming is monotonic in the brightness: every channel at brightness `lo`
/// is at most that channel at brightness `hi`.
pub proof fn lemma_brightness_monotonic(color: Rgb, lo: int, hi: int)
    requires
        0 <= lo <= hi <= 100,
    ensures
        forall|i: int|
            0 <= i < 3 ==> RenderContext::dimmed(color, lo)[i] <= RenderContext::dimmed(
                color,
                hi,
            )[i],
{
    assert forall|i: int| 0 <= i < 3 implies RenderContext::dimmed(color, lo)[i]
        <= RenderContext::dimmed(color, hi)[i] by {
        let c = color[i] as int;
        assert(c * lo <= c * hi) by (nonlinear_arith)
            requires 0 <= c, lo <= hi;
        assert(c * lo / 100 <= c * hi / 100) by (nonlinear_arith)
            requires c * lo <= c * hi;
        assert(c * hi / 100 <= c) by (nonlinear_arith)
            requires 0 <= c, hi <= 100;
        assert(0 <= c * lo / 100) by (nonlinear_arith)
            requires 0 <= c, 0 <= lo;
    }
}

/// Per-channel linear interpolation from `a` toward `b` by `t / ONE`, rounded.
pub open spec fn mix(a: u8, b: u8, t: int) -> int {
    ((a as int) * (ONE - t) + (b as int) * t + ONE / 2) / (ONE as int)
}

/// Interpolates one channel, rounding to the nearest value.
pub fn lerp_channel(a: u8, b: u8, t: u32) -> (r: u8)
    requires
        t <= ONE,
    ensures
        r == mix(a, b, t as int),
{
    let ta = (ONE - t) as u64;
    let tb = t as u64;
    proof {
        let (ai, bi, ti) = (a as int, b as int, t as int);
        assert(ai * (ONE - ti) <= 255 * (ONE - ti)) by (nonlinear_arith)
            requires ai <= 255, ti <= ONE;
        assert(bi * ti <= 255 * ti) by (nonlinear_arith)
            requires bi <= 255, 0 <= ti;
        assert(0 <= ai * (ONE - ti)) by (nonlinear_arith)
            requires 0 <= ai, ti <= ONE;
        assert(0 <= bi * ti) by (nonlinear_arith)
            requires 0 <= bi, 0 <= ti;
        assert((ai * (ONE - ti) + bi * ti + ONE / 2) / (ONE as int) <= 255) by (nonlinear_arith)
            requires ai * (ONE - ti) + bi * ti <= 255 * (ONE as int);
    }
    ((a as u64 * ta + b as u64 * tb + (ONE / 2) as u64) / ONE as u64) as u8
}

/// Each channel multiplied by `factor / ONE` (clamped to 1), truncated.
pub open spec fn scaled_color(color: Rgb, factor: int) -> Rgb {
    let f = if factor > ONE { ONE as int } else { factor };
    [
        scaled(color[0], f, ONE as int) as u8,
        scaled(color[1], f, ONE as int) as u8,
        scaled(color[2], f, ONE as int) as u8,
    ]
}

/// Scales a colour by a fraction in `[0, 1]`, truncating each channel.
pub fn scale_color(color: Rgb, factor: u32) -> (r: Rgb)
    ensures
        r == scaled_color(color, factor as int),
{
    let f = if factor > ONE {
        ONE
    } else {
        factor
    };
    [scale_channel(color[0], f, ONE), scale_channel(color[1], f, ONE), scale_channel(
        color[2],
        f,
        ONE,
    )]
}

/// The colour at `position` (a fraction, clamped below 1) of a palette.
///
/// An empty palette gives black and a single colour gives that colour. With
/// `n >= 2` colours the position is scaled by `n`; its whole part picks a
/// colour and its fractional part blends toward the next one, wrapping from
/// the last colour back to the first.
pub open spec fn palette_color(colors: Seq<Rgb>, position: int) -> Rgb {
    let n = colors.len() as int;
    if n == 0 {
        [0u8, 0u8, 0u8]
    } else if n == 1 {
        colors[0]
    } else {
        let p = if position > ONE - 1 { ONE - 1 } else { position };
        let idx = p * n / (ONE as int);
        let frac = p * n % (ONE as int);
        let next = (idx + 1) % n;
        [
            mix(colors[idx][0], colors[next][0], frac) as u8,
            mix(colors[idx][1], colors[next][1], frac) as u8,
            mix(colors[idx][2], colors[next][2], frac) as u8,
        ]
    }
}

/// Samples a palette at a fractional position; see [`palette_color`].
pub fn sample_palette(colors: &Vec<Rgb>, position: u32) -> (r: Rgb)
    ensures
        r == palette_color(colors@, position as int),
{
    let n = colors.len();
    if n == 0 {
        return [0, 0, 0];
    }
    if n == 1 {
        return colors[0];
    }
    let p: u128 = if position > ONE - 1 {
        (ONE - 1) as u128
    } else {
        position as u128
    };
    proof {
        assert(p * (n as int) < (ONE as int) * (n as int)) by (nonlinear_arith)
            requires p < ONE, n > 0;
        assert(p * (n as int) / (ONE as int) < n) by (nonlinear_arith)
            requires p * (n as int) < (ONE as int) * (n as int);
        assert(p * (n as int) <= 0x1_0000 * 0xffff_ffff_ffff_ffff) by (nonlinear_arith)
            requires p < ONE, n <= 0xffff_ffff_ffff_ffff;
    }
    let scaled_pos = p * (n as u128);
    let idx = (scaled_pos / ONE as u128) as usize;
    let frac = (scaled_pos % ONE as u128) as u32;
    let next = (idx + 1) % n;
    let a = colors[idx];
    let b = colors[next];
    [lerp_channel(a[0], b[0], frac), lerp_channel(a[1], b[1], frac), lerp_channel(a[2], b[2], frac)]
}

/// A one-colour palette gives that colour at every position.
pub proof fn lemma_single_color_palette(c: Rgb, position: int)
    ensures
        palette_color(seq![c], position) == c,
{
}

/// Sampling is continuous across the wrap from the end of the palette back to
/// its start: position 0 gives the first colour exactly, and the last position
/// before 1 differs from it in each channel by at most one interpolation step
/// (`255 * n / ONE`) plus rounding.
pub proof fn lemma_palette_wraps_continuously(colors: Seq<Rgb>)
    requires
        2 <= colors.len() <= ONE,
    ensures
        palette_color(colors, 0) == colors[0],
        forall|i: int|
            0 <= i < 3 ==> {
                let d = #[trigger] palette_color(colors, ONE - 1)[i] as int - colors[0][i] as int;
                let n = colors.len() as int;
                2 * (ONE as int) * (if d < 0 { -d } else { d }) <= 510 * n + ONE
            },
{
    let n = colors.len() as int;
    let c0 = colors[0];
    assert(palette_color(colors, 0) =~= c0) by {
        assert(0 * n / (ONE as int) == 0);
        assert(0 * n % (ONE as int) == 0);
        assert forall|i: int| 0 <= i < 3 implies mix(c0[i], colors[(1int) % n][i], 0) == c0[i] by {
            let a = c0[i] as int;
            assert((a * (ONE as int) + ONE / 2) / (ONE as int) == a) by (nonlinear_arith)
                requires 0 <= a;
        }
    }
    let p = ONE - 1;
    assert(p * n / (ONE as int) == n - 1) by (nonlinear_arith)
        requires 2 <= n <= ONE, p == ONE - 1;
    assert(p * n % (ONE as int) == ONE - n) by (nonlinear_arith)
        requires 2 <= n <= ONE, p == ONE - 1, p * n / (ONE as int) == n - 1;
    assert((n - 1 + 1) % n == 0) by (nonlinear_arith)
        requires 2 <= n;
    let last = colors[n - 1];
    assert forall|i: int| 0 <= i < 3 implies {
        let d = #[trigger] palette_color(colors, ONE - 1)[i] as int - c0[i] as int;
        2 * (ONE as int) * (if d < 0 { -d } else { d }) <= 510 * n + ONE
    } by {
        let a = last[i] as int;
        let b = c0[i] as int;
        let t = ONE - n;
        let v = mix(last[i], c0[i], t);
        assert(v == (a * (ONE - t) + b * t + ONE / 2) / (ONE as int));
        assert(0 <= v <= 255) by (nonlinear_arith)
            requires v == (a * (ONE - t) + b * t + ONE / 2) / (ONE as int),
                0 <= a <= 255, 0 <= b <= 255, 0 <= t <= ONE;
        let num = a * (ONE - t) + b * t + ONE / 2;
        // num == ONE * b + (a - b) * n + ONE / 2
        assert(num == (ONE as int) * b + (a - b) * n + ONE / 2) by (nonlinear_arith)
            requires num == a * (ONE - t) + b * t + ONE / 2, t == ONE - n;
        assert(2 * (ONE as int) * (if v - b < 0 { -(v - b) } else { v - b }) <= 510 * n + ONE)
            by (nonlinear_arith)
            requires
                v == num / (ONE as int),
                num == (ONE as int) * b + (a - b) * n + ONE / 2,
                0 <= a <= 255, 0 <= b <= 255, 2 <= n <= ONE;
    }
}

} // verus!
