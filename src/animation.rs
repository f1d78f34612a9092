//! The procedural animation presets.
use vstd::prelude::*;
use crate::canvas::Canvas;
use crate::color::{
    RenderContext, Rgb, palette_color, sample_palette, scale_color, scaled_color,
};
use crate::fixed::{ONE, loop_progress, progress, pseudo_random, seed_of, tile_seed, triangle,
    triangle_wave, unit_of, xorshift,
};
use crate::models::{AnimationContent, ContentDetails, PlayListItem, same_preset};
use crate::plasma::{plasma_at, plasma_color, plasma_scale, plasma_time, plasma_time_of};
use crate::strobe::{clamp_unit, cycle_with_randomization, even_cycle, jittered_cycle};
use crate::waves::{Waveforms, sample};

verus! {

/// `a * k` modulo 2^32.
pub open spec fn wrap_mul(a: u32, k: int) -> u32 {
    (((a as int) * k) % 0x1_0000_0000) as u32
}

/// Palette colour and envelope of the pulse preset.
pub open spec fn pulse_color(colors: Seq<Rgb>, cycle_ms: int, elapsed: int) -> Rgb {
    let p = progress(elapsed, cycle_ms);
    scaled_color(palette_color(colors, p), triangle(p))
}

/// Two triangle waves `phase_offset` apart, averaged.
pub open spec fn dual_pulse_color(
    colors: Seq<Rgb>,
    cycle_ms: int,
    phase_offset: int,
    elapsed: int,
) -> Rgb {
    let p = progress(elapsed, cycle_ms);
    let second = (p + phase_offset) % (ONE as int);
    scaled_color(palette_color(colors, p), (triangle(p) + triangle(second)) / 2)
}

/// The palette drifts by `drift_speed` palettes per second.
pub open spec fn color_fade_color(colors: Seq<Rgb>, drift_speed: int, elapsed: int) -> Rgb {
    palette_color(colors, (elapsed * drift_speed / 1000) % (ONE as int))
}

/// Strobe envelope: full for `flash_ms`, then a linear fade over `fade_ms`.
pub open spec fn strobe_level(phase: int, flash_ms: int, fade_ms: int) -> int {
    if phase < flash_ms {
        ONE as int
    } else if phase - flash_ms >= fade_ms {
        0
    } else {
        (fade_ms - (phase - flash_ms)) * (ONE as int) / fade_ms
    }
}

/// Cycle index and phase of the strobe preset.
pub open spec fn strobe_cycle(
    elapsed: int,
    flash_ms: int,
    fade_ms: int,
    randomize: bool,
    factor: int,
) -> (int, int) {
    if randomize && factor > 0 {
        jittered_cycle(elapsed, flash_ms + fade_ms, clamp_unit(factor))
    } else {
        even_cycle(elapsed, flash_ms + fade_ms)
    }
}

/// One palette colour per strobe cycle, under the strobe envelope.
pub open spec fn strobe_color(
    colors: Seq<Rgb>,
    flash_ms: int,
    fade_ms: int,
    randomize: bool,
    factor: int,
    elapsed: int,
) -> Rgb {
    let (k, phase) = strobe_cycle(elapsed, flash_ms, fade_ms, randomize, factor);
    scaled_color(colors[k % (colors.len() as int)], strobe_level(phase, flash_ms, fade_ms))
}

/// Palette wave: position from the pixel's place plus the loop offset,
/// repeated `wave_count` times, at a brightness of 0.6 to 1.
pub open spec fn palette_wave_color(
    colors: Seq<Rgb>,
    cycle_ms: int,
    wave_count: int,
    elapsed: int,
    width: int,
    height: int,
    x: int,
    y: int,
) -> Rgb {
    let wc = if wave_count == 0 { 1 } else { wave_count };
    let nx = x * (ONE as int) / width;
    let ny = y * (ONE as int) / height;
    let base = (nx + ny / 4 + progress(elapsed, cycle_ms)) % (ONE as int);
    let wave = base * wc % (ONE as int);
    scaled_color(palette_color(colors, wave), (3 * ONE + 2 * triangle(base)) / 5)
}

/// The density actually used by sparkle, kept within `[0.01, 1]`.
pub open spec fn sparkle_density(density: int) -> int {
    if density < ONE / 100 {
        (ONE / 100) as int
    } else if density > ONE {
        ONE as int
    } else {
        density
    }
}

/// Whether the sparkle preset lights pixel (`x`, `y`).
pub open spec fn sparkle_lit(density: int, x: int, y: int) -> bool {
    unit_of(xorshift(seed_of(y as u32, x as u32))) <= sparkle_density(density)
}

/// Sparkle: lit pixels take a palette colour picked by their seed and
/// twinkle at their own speed and phase; the rest stay black.
pub open spec fn sparkle_color(
    colors: Seq<Rgb>,
    density: int,
    twinkle_ms: int,
    twinkle: Seq<u32>,
    elapsed: int,
    x: int,
    y: int,
) -> Rgb {
    let seed = seed_of(y as u32, x as u32);
    if !sparkle_lit(density, x, y) {
        [0u8, 0u8, 0u8]
    } else {
        let speed = 3 * ONE / 5 + unit_of(xorshift(wrap_mul(seed, 31_415_927))) * 6 / 5;
        let offset = unit_of(xorshift(wrap_mul(seed, 97_531)));
        let phase = (elapsed * speed / twinkle_ms + offset) % (ONE as int);
        scaled_color(colors[(seed as int) % (colors.len() as int)], sample(twinkle, phase))
    }
}

/// Geometry of the mosaic preset at one pixel.
pub open spec fn mosaic_painted(tile: int, border: int, width: int, height: int, x: int, y: int) -> bool {
    let eb = if border == 0 {
        0
    } else {
        let half = (tile - 1) / 2;
        if border < half { border } else { half }
    };
    let cols = (width + tile - 1) / tile;
    let rows = (height + tile - 1) / tile;
    let col = x / tile;
    let row = y / tile;
    let sx = col * tile;
    let ex = if (col + 1) * tile < width { (col + 1) * tile } else { width };
    let sy = row * tile;
    let ey = if (row + 1) * tile < height { (row + 1) * tile } else { height };
    let isx = if col == 0 { sx } else { sx + eb };
    let iex = if col == cols - 1 { ex } else { ex - eb };
    let isy = if row == 0 { sy } else { sy + eb };
    let iey = if row == rows - 1 { ey } else { ey - eb };
    isx >= iex || isy >= iey || (isx <= x < iex && isy <= y < iey)
}

/// Colour of the mosaic tile in row `row`, column `col`: a palette colour
/// picked by the tile's seed, shimmering between 0.3 and 1.
pub open spec fn mosaic_tile_color(
    colors: Seq<Rgb>,
    flow_speed: int,
    wave: Seq<u32>,
    elapsed: int,
    row: int,
    col: int,
) -> Rgb {
    let seed = seed_of(row as u32, col as u32);
    let speed = 3 * ONE / 5 + unit_of(xorshift(wrap_mul(seed, 31_415_927))) * 3 / 5;
    let offset = unit_of(xorshift(wrap_mul(seed, 97_531)));
    let phase = (elapsed * flow_speed * speed / (1000 * ONE) + offset) % (ONE as int);
    scaled_color(colors[(seed as int) % (colors.len() as int)], (3 * ONE + 7 * sample(wave, phase)) / 10)
}

/// Renders one animation preset from its elapsed time.
pub struct AnimationRenderer {
    content: AnimationContent,
    ctx: RenderContext,
    elapsed_ms: u64,
    duration: Option<u64>,
}

impl AnimationRenderer {
    pub closed spec fn spec_content(&self) -> AnimationContent {
        self.content
    }

    pub closed spec fn spec_ctx(&self) -> RenderContext {
        self.ctx
    }

    pub closed spec fn spec_elapsed(&self) -> int {
        self.elapsed_ms as int
    }

    pub closed spec fn spec_duration(&self) -> Option<u64> {
        self.duration
    }

    pub open spec fn well_formed(&self) -> bool {
        self.spec_ctx().well_formed()
    }

    /// The colour that fills the whole display, for the presets that fill;
    /// `None` when the preset paints per pixel or has nothing to paint.
    pub open spec fn fill_color(&self) -> Option<Rgb> {
        let e = self.spec_elapsed();
        match self.spec_content() {
            AnimationContent::Pulse { colors, cycle_ms } => if colors@.len() == 0 {
                None
            } else {
                Some(pulse_color(colors@, cycle_ms as int, e))
            },
            AnimationContent::DualPulse { colors, cycle_ms, phase_offset } => if colors@.len()
                == 0 {
                None
            } else {
                Some(dual_pulse_color(colors@, cycle_ms as int, phase_offset as int, e))
            },
            AnimationContent::ColorFade { colors, drift_speed } => if colors@.len() == 0 {
                None
            } else {
                Some(color_fade_color(colors@, drift_speed as int, e))
            },
            AnimationContent::Strobe { colors, flash_ms, fade_ms, randomize, randomization_factor } =>
                if colors@.len() == 0 || flash_ms == 0 || fade_ms == 0 {
                None
            } else {
                Some(
                    strobe_color(
                        colors@,
                        flash_ms as int,
                        fade_ms as int,
                        randomize,
                        randomization_factor as int,
                        e,
                    ),
                )
            },
            _ => None,
        }
    }
}

fn pulse_fill(colors: &Vec<Rgb>, cycle_ms: u32, elapsed: u64) -> (r: Rgb)
    requires
    ensures
        r == pulse_color(colors@, cycle_ms as int, elapsed as int),
{
    let p = loop_progress(elapsed, cycle_ms as u64);
    scale_color(sample_palette(colors, p), triangle_wave(p))
}

fn dual_pulse_fill(colors: &Vec<Rgb>, cycle_ms: u32, phase_offset: u32, elapsed: u64) -> (r: Rgb)
    requires
    ensures
        r == dual_pulse_color(colors@, cycle_ms as int, phase_offset as int, elapsed as int),
{
    let p = loop_progress(elapsed, cycle_ms as u64);
    let second = ((p as u64 + phase_offset as u64) % (ONE as u64)) as u32;
    let level = (triangle_wave(p) + triangle_wave(second)) / 2;
    scale_color(sample_palette(colors, p), level)
}

fn color_fade_fill(colors: &Vec<Rgb>, drift_speed: u32, elapsed: u64) -> (r: Rgb)
    requires
    ensures
        r == color_fade_color(colors@, drift_speed as int, elapsed as int),
{
    proof {
        assert((elapsed as int) * (drift_speed as int) <= 0xffff_ffff_ffff_ffff * 0xffff_ffff)
            by (nonlinear_arith)
            requires elapsed <= 0xffff_ffff_ffff_ffffu64, drift_speed <= 0xffff_ffffu32;
    }
    let turns = (elapsed as u128) * (drift_speed as u128) / 1000;
    let position = (turns % (ONE as u128)) as u32;
    sample_palette(colors, position)
}

fn strobe_fill(
    colors: &Vec<Rgb>,
    flash_ms: u32,
    fade_ms: u32,
    randomize: bool,
    factor: u32,
    elapsed: u64,
) -> (r: Rgb)
    requires
        colors@.len() > 0,
        flash_ms > 0,
        fade_ms > 0,
    ensures
        r == strobe_color(colors@, flash_ms as int, fade_ms as int, randomize, factor as int, elapsed as int),
{
    let base = flash_ms as u64 + fade_ms as u64;
    let (k, phase) = if randomize && factor > 0 {
        cycle_with_randomization(elapsed, base, factor)
    } else {
        (elapsed / base, elapsed % base)
    };
    let idx = (k % (colors.len() as u64)) as usize;
    let level: u32 = if phase < flash_ms as u64 {
        ONE
    } else if phase - flash_ms as u64 >= fade_ms as u64 {
        0
    } else {
        let left = fade_ms as u64 - (phase - flash_ms as u64);
        proof {
            assert(left * (ONE as int) / (fade_ms as int) <= ONE) by (nonlinear_arith)
                requires left <= fade_ms, fade_ms > 0;
        }
        (left * ONE as u64 / fade_ms as u64) as u32
    };
    scale_color(colors[idx], level)
}

fn palette_wave_at(
    colors: &Vec<Rgb>,
    cycle_ms: u32,
    wave_count: u8,
    elapsed: u64,
    width: u32,
    height: u32,
    x: u32,
    y: u32,
) -> (r: Rgb)
    requires
        x < width,
        y < height,
    ensures
        r == palette_wave_color(
            colors@,
            cycle_ms as int,
            wave_count as int,
            elapsed as int,
            width as int,
            height as int,
            x as int,
            y as int,
        ),
{
    let wc: u64 = if wave_count == 0 {
        1
    } else {
        wave_count as u64
    };
    proof {
        assert((x as int) * (ONE as int) / (width as int) < ONE) by (nonlinear_arith)
            requires x < width;
        assert((y as int) * (ONE as int) / (height as int) < ONE) by (nonlinear_arith)
            requires y < height;
    }
    let nx = (x as u64) * (ONE as u64) / (width as u64);
    let ny = (y as u64) * (ONE as u64) / (height as u64);
    let base = (nx + ny / 4 + loop_progress(elapsed, cycle_ms as u64) as u64) % (ONE as u64);
    proof {
        assert(base * wc <= 65536 * 255) by (nonlinear_arith)
            requires base < 65536, wc <= 255;
    }
    let wave = (base * wc % (ONE as u64)) as u32;
    let level = (3 * ONE + 2 * triangle_wave(base as u32)) / 5;
    scale_color(sample_palette(colors, wave), level)
}

fn sparkle_at(
    colors: &Vec<Rgb>,
    density: u32,
    twinkle_ms: u32,
    waves: &Waveforms,
    elapsed: u64,
    x: u32,
    y: u32,
) -> (r: Rgb)
    requires
        colors@.len() > 0,
        twinkle_ms > 0,
        waves.well_formed(),
    ensures
        r == sparkle_color(
            colors@,
            density as int,
            twinkle_ms as int,
            waves.twinkle_table(),
            elapsed as int,
            x as int,
            y as int,
        ),
{
    let seed = tile_seed(y, x);
    let active = if density < ONE / 100 {
        ONE / 100
    } else if density > ONE {
        ONE
    } else {
        density
    };
    if pseudo_random(seed) > active {
        return [0, 0, 0];
    }
    let speed = (3 * ONE / 5 + pseudo_random(seed.wrapping_mul(31_415_927u32)) * 6 / 5) as u128;
    let offset = pseudo_random(seed.wrapping_mul(97_531u32)) as u128;
    proof {
        assert((elapsed as int) * (speed as int) <= 0xffff_ffff_ffff_ffff * 0x4_0000)
            by (nonlinear_arith)
            requires elapsed <= 0xffff_ffff_ffff_ffffu64, speed <= 0x4_0000;
    }
    let phase = (((elapsed as u128) * speed / (twinkle_ms as u128) + offset) % (ONE as u128)) as u32;
    let idx = (seed as usize) % colors.len();
    scale_color(colors[idx], waves.twinkle(phase))
}

fn mosaic_painted_at(tile: u32, border: u32, width: u32, height: u32, x: u32, y: u32) -> (r: bool)
    requires
        tile > 0,
        x < width,
        y < height,
    ensures
        r == mosaic_painted(
            tile as int,
            border as int,
            width as int,
            height as int,
            x as int,
            y as int,
        ),
{
    let t = tile as u64;
    let (w, h) = (width as u64, height as u64);
    let eb: u64 = if border == 0 {
        0
    } else {
        let half = (t - 1) / 2;
        if (border as u64) < half {
            border as u64
        } else {
            half
        }
    };
    let cols = (w + t - 1) / t;
    let rows = (h + t - 1) / t;
    let col = (x as u64) / t;
    let row = (y as u64) / t;
    proof {
        assert(col * t <= x) by (nonlinear_arith)
            requires col == (x as int) / (t as int), t > 0;
        assert(row * t <= y) by (nonlinear_arith)
            requires row == (y as int) / (t as int), t > 0;
        assert((col + 1) * t <= (x as int) + t) by (nonlinear_arith)
            requires col * t <= x;
        assert((row + 1) * t <= (y as int) + t) by (nonlinear_arith)
            requires row * t <= y;
        assert(col < cols) by (nonlinear_arith)
            requires col == (x as int) / (t as int), cols == (w + t - 1) / (t as int), x < w, t > 0;
        assert(row < rows) by (nonlinear_arith)
            requires row == (y as int) / (t as int), rows == (h + t - 1) / (t as int), y < h, t > 0;
    }
    let sx = col * t;
    let ex = if (col + 1) * t < w {
        (col + 1) * t
    } else {
        w
    };
    let sy = row * t;
    let ey = if (row + 1) * t < h {
        (row + 1) * t
    } else {
        h
    };
    let isx: i64 = if col == 0 {
        sx as i64
    } else {
        (sx + eb) as i64
    };
    let iex: i64 = if col == cols - 1 {
        ex as i64
    } else {
        ex as i64 - eb as i64
    };
    let isy: i64 = if row == 0 {
        sy as i64
    } else {
        (sy + eb) as i64
    };
    let iey: i64 = if row == rows - 1 {
        ey as i64
    } else {
        ey as i64 - eb as i64
    };
    isx >= iex || isy >= iey || (isx <= x as i64 && (x as i64) < iex && isy <= y as i64 && (y as i64)
        < iey)
}

fn mosaic_tile_at(
    colors: &Vec<Rgb>,
    flow_speed: u32,
    waves: &Waveforms,
    elapsed: u64,
    row: u32,
    col: u32,
) -> (r: Rgb)
    requires
        colors@.len() > 0,
        waves.well_formed(),
    ensures
        r == mosaic_tile_color(
            colors@,
            flow_speed as int,
            waves.wave_table(),
            elapsed as int,
            row as int,
            col as int,
        ),
{
    let seed = tile_seed(row, col);
    let speed = (3 * ONE / 5 + pseudo_random(seed.wrapping_mul(31_415_927u32)) * 3 / 5) as u128;
    let offset = pseudo_random(seed.wrapping_mul(97_531u32)) as u128;
    proof {
        assert((elapsed as int) * (flow_speed as int) <= 0xffff_ffff_ffff_ffff * 0xffff_ffff)
            by (nonlinear_arith)
            requires elapsed <= 0xffff_ffff_ffff_ffffu64, flow_speed <= 0xffff_ffffu32;
        assert((elapsed as int) * (flow_speed as int) * (speed as int) <= 0xffff_ffff_ffff_ffff
            * 0xffff_ffff * 0x2_0000) by (nonlinear_arith)
            requires
                (elapsed as int) * (flow_speed as int) <= 0xffff_ffff_ffff_ffff * 0xffff_ffff,
                0 <= (elapsed as int) * (flow_speed as int),
                speed <= 0x2_0000;
    }
    let turns = (elapsed as u128) * (flow_speed as u128) * speed / (1000 * ONE as u128);
    let phase = ((turns + offset) % (ONE as u128)) as u32;
    let level = (3 * ONE + 7 * waves.wave(phase)) / 10;
    let idx = (seed as usize) % colors.len();
    scale_color(colors[idx], level)
}

impl AnimationRenderer {
    /// The colour laid under per-pixel presets before they paint.
    pub open spec fn backdrop(&self) -> Option<Rgb> {
        match self.spec_content() {
            AnimationContent::Sparkle { .. } => Some([0u8, 0u8, 0u8]),
            AnimationContent::MosaicTwinkle { border_size, border_color, .. } => if border_size
                == 0 {
                Some([0u8, 0u8, 0u8])
            } else {
                Some(RenderContext::dimmed(border_color, self.spec_ctx().brightness as int))
            },
            _ => None,
        }
    }

    /// Whether the preset paints pixel by pixel this frame.
    pub open spec fn paints_pixels(&self) -> bool {
        match self.spec_content() {
            AnimationContent::PaletteWave { colors, .. } => colors@.len() > 0,
            AnimationContent::Sparkle { colors, density, twinkle_ms } => colors@.len() > 0
                && density > 0 && twinkle_ms > 0,
            AnimationContent::MosaicTwinkle { colors, tile_size, flow_speed, .. } => colors@.len()
                > 0 && tile_size > 0 && flow_speed > 0,
            AnimationContent::Plasma { colors, flow_speed, noise_scale } => colors@.len() > 0
                && flow_speed > 0 && noise_scale > 0,
            _ => false,
        }
    }

    /// The colour a per-pixel preset gives pixel (`x`, `y`), brightness applied.
    pub open spec fn shade(&self, waves: Waveforms, x: int, y: int) -> Rgb {
        let ctx = self.spec_ctx();
        let w = ctx.display_width as int;
        let h = ctx.display_height as int;
        let e = self.spec_elapsed();
        let b = ctx.brightness as int;
        match self.spec_content() {
            AnimationContent::PaletteWave { colors, cycle_ms, wave_count } => RenderContext::dimmed(
                palette_wave_color(colors@, cycle_ms as int, wave_count as int, e, w, h, x, y),
                b,
            ),
            AnimationContent::Sparkle { colors, density, twinkle_ms } => RenderContext::dimmed(
                sparkle_color(
                    colors@,
                    density as int,
                    twinkle_ms as int,
                    waves.twinkle_table(),
                    e,
                    x,
                    y,
                ),
                b,
            ),
            AnimationContent::MosaicTwinkle {
                colors,
                tile_size,
                flow_speed,
                border_size,
                border_color,
            } => if mosaic_painted(tile_size as int, border_size as int, w, h, x, y) {
                RenderContext::dimmed(
                    mosaic_tile_color(
                        colors@,
                        flow_speed as int,
                        waves.wave_table(),
                        e,
                        y / (tile_size as int),
                        x / (tile_size as int),
                    ),
                    b,
                )
            } else if border_size == 0 {
                [0u8, 0u8, 0u8]
            } else {
                RenderContext::dimmed(border_color, b)
            },
            AnimationContent::Plasma { colors, flow_speed, noise_scale } => RenderContext::dimmed(
                plasma_color(
                    colors@,
                    w,
                    h,
                    x,
                    y,
                    plasma_time(e, flow_speed as int),
                    plasma_scale(noise_scale as int),
                    waves.wave_table(),
                    waves.arctan_table(),
                ),
                b,
            ),
            _ => [0u8, 0u8, 0u8],
        }
    }

    /// What a frame shows at pixel (`x`, `y`) after this renderer painted over
    /// a pixel that showed `prior`.
    pub open spec fn shown(&self, waves: Waveforms, prior: Rgb, x: int, y: int) -> Rgb {
        let ctx = self.spec_ctx();
        match self.fill_color() {
            Some(c) => RenderContext::dimmed(c, ctx.brightness as int),
            None => if self.paints_pixels() {
                if x < ctx.display_width && y < ctx.display_height {
                    self.shade(waves, x, y)
                } else {
                    match self.backdrop() {
                        Some(b) => b,
                        None => prior,
                    }
                }
            } else {
                prior
            },
        }
    }

    /// A renderer for an animation item, at the start of its animation.
    pub fn new(item: &PlayListItem, ctx: RenderContext) -> (r: Self)
        requires
            item.content.data is Animation,
            ctx.well_formed(),
        ensures
            same_preset(r.spec_content(), item.content.data->Animation_0),
            r.spec_ctx() == ctx,
            r.spec_elapsed() == 0,
            r.spec_duration() == item.duration,
    {
        let content = match &item.content.data {
            ContentDetails::Animation(a) => a.duplicate(),
            _ => AnimationContent::Pulse { colors: Vec::new(), cycle_ms: 0 },
        };
        AnimationRenderer { content, ctx, elapsed_ms: 0, duration: item.duration }
    }

    /// Advances the animation by `dt_ms` milliseconds.
    pub fn update(&mut self, dt_ms: u64)
        ensures
            final(self).spec_elapsed() == (if old(self).spec_elapsed() + dt_ms > u64::MAX {
                u64::MAX as int
            } else {
                old(self).spec_elapsed() + dt_ms
            }),
            final(self).spec_content() == old(self).spec_content(),
            final(self).spec_ctx() == old(self).spec_ctx(),
            final(self).spec_duration() == old(self).spec_duration(),
    {
        self.elapsed_ms = self.elapsed_ms.saturating_add(dt_ms);
    }

    /// Complete once the item's duration has elapsed; never without one.
    pub fn is_complete(&self) -> (r: bool)
        ensures
            r == (match self.spec_duration() {
                Some(d) => self.spec_elapsed() >= d * 1000,
                None => false,
            }),
    {
        match self.duration {
            Some(d) => self.elapsed_ms as u128 >= (d as u128) * 1000,
            None => false,
        }
    }

    /// Back to the start of the animation.
    pub fn reset(&mut self)
        ensures
            final(self).spec_elapsed() == 0,
            final(self).spec_content() == old(self).spec_content(),
            final(self).spec_ctx() == old(self).spec_ctx(),
            final(self).spec_duration() == old(self).spec_duration(),
    {
        self.elapsed_ms = 0;
    }

    /// New geometry or brightness; the animation carries on.
    pub fn update_context(&mut self, ctx: RenderContext)
        ensures
            final(self).spec_ctx() == ctx,
            final(self).spec_elapsed() == old(self).spec_elapsed(),
            final(self).spec_content() == old(self).spec_content(),
            final(self).spec_duration() == old(self).spec_duration(),
    {
        self.ctx = ctx;
    }

    /// New preset parameters; the animation carries on from where it was.
    pub fn update_content(&mut self, item: &PlayListItem)
        ensures
            final(self).spec_ctx() == old(self).spec_ctx(),
            final(self).spec_elapsed() == old(self).spec_elapsed(),
            item.content.data is Animation ==> same_preset(
                final(self).spec_content(),
                item.content.data->Animation_0,
            ) && final(self).spec_duration() == item.duration,
            !(item.content.data is Animation) ==> final(self).spec_content() == old(
                self,
            ).spec_content() && final(self).spec_duration() == old(self).spec_duration(),
    {
        if let ContentDetails::Animation(a) = &item.content.data {
            self.content = a.duplicate();
            self.duration = item.duration;
        }
    }

    fn shade_at(&self, waves: &Waveforms, x: u32, y: u32) -> (r: Rgb)
        requires
            self.well_formed(),
            self.paints_pixels(),
            waves.well_formed(),
            x < self.spec_ctx().display_width,
            y < self.spec_ctx().display_height,
        ensures
            r == self.shade(*waves, x as int, y as int),
    {
        let w = self.ctx.display_width as u32;
        let h = self.ctx.display_height as u32;
        let color = match &self.content {
            AnimationContent::PaletteWave { colors, cycle_ms, wave_count } => palette_wave_at(
                colors,
                *cycle_ms,
                *wave_count,
                self.elapsed_ms,
                w,
                h,
                x,
                y,
            ),
            AnimationContent::Sparkle { colors, density, twinkle_ms } => sparkle_at(
                colors,
                *density,
                *twinkle_ms,
                waves,
                self.elapsed_ms,
                x,
                y,
            ),
            AnimationContent::MosaicTwinkle {
                colors,
                tile_size,
                flow_speed,
                border_size,
                border_color,
            } => {
                let t = *tile_size as u32;
                if !mosaic_painted_at(t, *border_size as u32, w, h, x, y) {
                    if *border_size == 0 {
                        return [0, 0, 0];
                    } else {
                        return self.ctx.apply_brightness(*border_color);
                    }
                }
                mosaic_tile_at(colors, *flow_speed, waves, self.elapsed_ms, y / t, x / t)
            },
            AnimationContent::Plasma { colors, flow_speed, noise_scale } => {
                let t = plasma_time_of(self.elapsed_ms, *flow_speed);
                plasma_at(colors, w, h, x, y, t, *noise_scale, waves)
            },
            _ => [0, 0, 0],
        };
        self.ctx.apply_brightness(color)
    }

    fn paint(&self, canvas: &mut Canvas, waves: &Waveforms)
        requires
            self.well_formed(),
            self.paints_pixels(),
            waves.well_formed(),
            old(canvas).well_formed(),
        ensures
            final(canvas).well_formed(),
            final(canvas).runs() == old(canvas).runs(),
            final(canvas).spec_width() == old(canvas).spec_width(),
            final(canvas).spec_height() == old(canvas).spec_height(),
            forall|px: int, py: int|
                old(canvas).in_bounds(px, py) ==> #[trigger] final(canvas).at(px, py) == if px
                    < self.spec_ctx().display_width && py < self.spec_ctx().display_height {
                    self.shade(*waves, px, py)
                } else {
                    old(canvas).at(px, py)
                },
    {
        let ghost start = *canvas;
        let w = self.ctx.display_width as u32;
        let h = self.ctx.display_height as u32;
        let mut y: u32 = 0;
        while y < h
            invariant
                self.well_formed(),
                self.paints_pixels(),
                waves.well_formed(),
                w == self.spec_ctx().display_width,
                h == self.spec_ctx().display_height,
                y <= h,
                canvas.well_formed(),
                canvas.spec_width() == start.spec_width(),
                canvas.spec_height() == start.spec_height(),
                canvas.runs() == start.runs(),
                forall|px: int, py: int|
                    start.in_bounds(px, py) ==> #[trigger] canvas.at(px, py) == if px < w && py < y {
                        self.shade(*waves, px, py)
                    } else {
                        start.at(px, py)
                    },
            decreases h - y,
        {
            let mut x: u32 = 0;
            while x < w
                invariant
                    self.well_formed(),
                    self.paints_pixels(),
                    waves.well_formed(),
                    w == self.spec_ctx().display_width,
                    h == self.spec_ctx().display_height,
                    y < h,
                    x <= w,
                    canvas.well_formed(),
                    canvas.spec_width() == start.spec_width(),
                    canvas.spec_height() == start.spec_height(),
                    canvas.runs() == start.runs(),
                canvas.runs() == start.runs(),
                    forall|px: int, py: int|
                        start.in_bounds(px, py) ==> #[trigger] canvas.at(px, py) == if px < w && (py
                            < y || (py == y && px < x)) {
                            self.shade(*waves, px, py)
                        } else {
                            start.at(px, py)
                        },
                decreases w - x,
            {
                let c = self.shade_at(waves, x, y);
                canvas.set_pixel(x as i64, y as i64, c);
                x = x + 1;
            }
            y = y + 1;
        }
    }

    /// Paints the current frame of the preset.
    pub fn render(&self, canvas: &mut Canvas, waves: &Waveforms)
        requires
            self.well_formed(),
            waves.well_formed(),
            old(canvas).well_formed(),
        ensures
            final(canvas).well_formed(),
            final(canvas).runs() == old(canvas).runs() || final(canvas).runs().len() == 0,
            final(canvas).spec_width() == old(canvas).spec_width(),
            final(canvas).spec_height() == old(canvas).spec_height(),
            forall|px: int, py: int|
                old(canvas).in_bounds(px, py) ==> #[trigger] final(canvas).at(px, py) == self.shown(
                    *waves,
                    old(canvas).at(px, py),
                    px,
                    py,
                ),
    {
        let e = self.elapsed_ms;
        match &self.content {
            AnimationContent::Pulse { colors, cycle_ms } => {
                if colors.len() > 0 {
                    canvas.fill(self.ctx.apply_brightness(pulse_fill(colors, *cycle_ms, e)));
                }
            },
            AnimationContent::DualPulse { colors, cycle_ms, phase_offset } => {
                if colors.len() > 0 {
                    let c = dual_pulse_fill(colors, *cycle_ms, *phase_offset, e);
                    canvas.fill(self.ctx.apply_brightness(c));
                }
            },
            AnimationContent::ColorFade { colors, drift_speed } => {
                if colors.len() > 0 {
                    canvas.fill(self.ctx.apply_brightness(color_fade_fill(colors, *drift_speed, e)));
                }
            },
            AnimationContent::Strobe { colors, flash_ms, fade_ms, randomize, randomization_factor } => {
                if colors.len() > 0 && *flash_ms > 0 && *fade_ms > 0 {
                    let c = strobe_fill(
                        colors,
                        *flash_ms,
                        *fade_ms,
                        *randomize,
                        *randomization_factor,
                        e,
                    );
                    canvas.fill(self.ctx.apply_brightness(c));
                }
            },
            AnimationContent::PaletteWave { colors, .. } => {
                if colors.len() > 0 {
                    self.paint(canvas, waves);
                }
            },
            AnimationContent::Sparkle { colors, density, twinkle_ms } => {
                if colors.len() > 0 && *density > 0 && *twinkle_ms > 0 {
                    canvas.fill([0, 0, 0]);
                    self.paint(canvas, waves);
                }
            },
            AnimationContent::MosaicTwinkle { colors, tile_size, flow_speed, border_size, border_color } => {
                if colors.len() > 0 && *tile_size > 0 && *flow_speed > 0 {
                    if *border_size == 0 {
                        canvas.fill([0, 0, 0]);
                    } else {
                        canvas.fill(self.ctx.apply_brightness(*border_color));
                    }
                    self.paint(canvas, waves);
                }
            },
            AnimationContent::Plasma { colors, flow_speed, noise_scale } => {
                if colors.len() > 0 && *flow_speed > 0 && *noise_scale > 0 {
                    self.paint(canvas, waves);
                }
            },
        }
    }
}

/// Without randomisation, every strobe cycle lasts `flash_ms + fade_ms`:
/// full brightness for the first `flash_ms` of it, then a linear fall to 0
/// over the remaining `fade_ms`.
pub proof fn lemma_strobe_envelope(elapsed: int, flash_ms: int, fade_ms: int, factor: int)
    requires
        0 <= elapsed,
        0 < flash_ms,
        0 < fade_ms,
    ensures
        ({
            let (k, phase) = strobe_cycle(elapsed, flash_ms, fade_ms, false, factor);
            let t = elapsed % (flash_ms + fade_ms);
            &&& k == elapsed / (flash_ms + fade_ms)
            &&& phase == t
            &&& strobe_level(phase, flash_ms, fade_ms) == if t < flash_ms {
                ONE as int
            } else {
                (flash_ms + fade_ms - t) * (ONE as int) / fade_ms
            }
        }),
{
}

/// At density 0 the sparkle preset paints nothing, so a cleared frame stays
/// black.
pub proof fn lemma_sparkle_zero_density(r: AnimationRenderer, waves: Waveforms, prior: Rgb, x: int, y: int)
    requires
        r.spec_content() matches AnimationContent::Sparkle { density, .. } && density == 0,
    ensures
        r.shown(waves, prior, x, y) == prior,
{
}

/// At full density the sparkle preset lights every pixel, and a lit pixel
/// twinkles at no less than a tenth of its colour's brightness.
pub proof fn lemma_sparkle_full_density(waves: Waveforms, x: int, y: int, phase: int)
    requires
        waves.well_formed(),
        0 <= phase < ONE,
    ensures
        sparkle_lit(ONE as int, x, y),
        ONE / 10 <= sample(waves.twinkle_table(), phase) <= ONE,
{
    assert(0 <= phase * 1024 / 65536 < 1024) by (nonlinear_arith)
        requires 0 <= phase < 65536;
}

} // verus!
