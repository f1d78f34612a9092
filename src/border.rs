//! Animated borders drawn over the content.
use vstd::prelude::*;
use rand::Rng;
use crate::canvas::Canvas;
use crate::color::{RenderContext, Rgb, scaled};
use crate::fixed::{ONE, triangle, triangle_wave};
use crate::models::{BorderEffect, PlayListItem, copy_colors};

verus! {

/// Relies on rand's `thread_rng().gen_range(0..n)`: a value below `n`,
/// for `n > 0`.
#[verifier::external_body]
fn random_below(n: u64) -> (r: u64)
    requires
        n > 0,
    ensures
        r < n,
{
    rand::thread_rng().gen_range(0..n)
}

/// Relies on `rand::random::<bool>()`: a coin flip.
#[verifier::external_body]
fn random_coin() -> (r: bool) {
    rand::random::<bool>()
}

/// The effect an item asks for, with no effect when it names none.
pub open spec fn effect_matches(e: BorderEffect, wanted: Option<BorderEffect>) -> bool {
    match (e, wanted) {
        (BorderEffect::Off, None) => true,
        (BorderEffect::Off, Some(BorderEffect::Off)) => true,
        (BorderEffect::Rainbow, Some(BorderEffect::Rainbow)) => true,
        (BorderEffect::Pulse { colors: a }, Some(BorderEffect::Pulse { colors: b })) => a@ == b@,
        (BorderEffect::Sparkle { colors: a }, Some(BorderEffect::Sparkle { colors: b })) => a@ == b@,
        (BorderEffect::Gradient { colors: a }, Some(BorderEffect::Gradient { colors: b })) => a@ == b@,
        _ => false,
    }
}

/// The two outermost columns of a display `w` pixels wide.
pub open spec fn on_side_columns(w: int, x: int) -> bool {
    0 <= x < w && (x < 2 || x >= w - 2)
}

/// The two outermost rows of a display `h` pixels high.
pub open spec fn on_side_rows(h: int, y: int) -> bool {
    0 <= y < h && (y < 2 || y >= h - 2)
}

/// The two-pixel ring around a `w` x `h` display.
pub open spec fn on_ring(w: int, h: int, x: int, y: int) -> bool {
    0 <= x < w && 0 <= y < h && (on_side_columns(w, x) || on_side_rows(h, y))
}

/// Fully saturated, full-value colour of hue `h` (a fraction of a turn).
pub open spec fn hue_color(h: int) -> Rgb {
    let h6 = h * 6;
    let sector = h6 / (ONE as int);
    let f = h6 % (ONE as int);
    let rise = (255 * f / (ONE as int)) as u8;
    let fall = (255 * ((ONE as int) - f) / (ONE as int)) as u8;
    if sector == 0 {
        [255u8, rise, 0u8]
    } else if sector == 1 {
        [fall, 255u8, 0u8]
    } else if sector == 2 {
        [0u8, 255u8, rise]
    } else if sector == 3 {
        [0u8, fall, 255u8]
    } else if sector == 4 {
        [rise, 0u8, 255u8]
    } else {
        [255u8, 0u8, fall]
    }
}

/// Rainbow hue at index `i` of an edge of length `len` after `t_ms`: one full
/// sweep per edge, advancing one turn per second.
pub open spec fn rainbow_hue(i: int, len: int, t_ms: int) -> int {
    (i * (ONE as int) / len + t_ms * (ONE as int) / 1000 % (ONE as int)) % (ONE as int)
}

/// Pulse border colour: each palette colour in turn for two seconds of
/// effect time (0.7 of elapsed time), under a triangle envelope.
pub open spec fn pulse_border_color(colors: Seq<Rgb>, t_ms: int) -> Rgb {
    let adjusted = t_ms * 7 / 10;
    let pos = adjusted % (2000 * colors.len() as int);
    let c = colors[pos / 2000];
    let level = triangle((pos % 2000) * (ONE as int) / 2000);
    [
        scaled(c[0], level, ONE as int) as u8,
        scaled(c[1], level, ONE as int) as u8,
        scaled(c[2], level, ONE as int) as u8,
    ]
}

fn hue_to_rgb(h: u32) -> (r: Rgb)
    requires
        h < ONE,
    ensures
        r == hue_color(h as int),
{
    let h6 = h as u64 * 6;
    let sector = h6 / ONE as u64;
    let f = h6 % ONE as u64;
    let rise = (255 * f / ONE as u64) as u8;
    let fall = (255 * (ONE as u64 - f) / ONE as u64) as u8;
    if sector == 0 {
        [255, rise, 0]
    } else if sector == 1 {
        [fall, 255, 0]
    } else if sector == 2 {
        [0, 255, rise]
    } else if sector == 3 {
        [0, fall, 255]
    } else if sector == 4 {
        [rise, 0, 255]
    } else {
        [255, 0, fall]
    }
}

/// Overlays a border effect; never completes, so it never drives transitions.
pub struct BorderRenderer {
    effect: BorderEffect,
    ctx: RenderContext,
    elapsed_ms: u64,
}

impl BorderRenderer {
    pub closed spec fn spec_effect(&self) -> BorderEffect {
        self.effect
    }

    pub closed spec fn spec_ctx(&self) -> RenderContext {
        self.ctx
    }

    pub closed spec fn spec_elapsed(&self) -> int {
        self.elapsed_ms as int
    }

    pub open spec fn well_formed(&self) -> bool {
        self.spec_ctx().well_formed()
    }

    /// Colour along the top and bottom edges at column `x`.
    pub open spec fn row_shade(&self, x: int) -> Rgb {
        let ctx = self.spec_ctx();
        let b = ctx.brightness as int;
        match self.spec_effect() {
            BorderEffect::Rainbow => RenderContext::dimmed(
                hue_color(rainbow_hue(x, ctx.display_width as int, self.spec_elapsed())),
                b,
            ),
            BorderEffect::Pulse { colors } => RenderContext::dimmed(
                pulse_border_color(colors@, self.spec_elapsed()),
                b,
            ),
            _ => [0u8, 0u8, 0u8],
        }
    }

    /// Colour along the left and right edges at row `y`.
    pub open spec fn column_shade(&self, y: int) -> Rgb {
        let ctx = self.spec_ctx();
        let b = ctx.brightness as int;
        match self.spec_effect() {
            BorderEffect::Rainbow => RenderContext::dimmed(
                hue_color(rainbow_hue(y, ctx.display_height as int, self.spec_elapsed())),
                b,
            ),
            BorderEffect::Pulse { colors } => RenderContext::dimmed(
                pulse_border_color(colors@, self.spec_elapsed()),
                b,
            ),
            _ => [0u8, 0u8, 0u8],
        }
    }

    /// Whether the effect paints each edge in a colour given by position.
    pub open spec fn paints_edges(&self) -> bool {
        match self.spec_effect() {
            BorderEffect::Rainbow => true,
            BorderEffect::Pulse { colors } => colors@.len() > 0,
            _ => false,
        }
    }

    /// What pixel (`x`, `y`) shows after the rainbow or pulse border: the side
    /// columns take the column colour, the rest of the ring the row colour.
    pub open spec fn edge_shown(&self, prior: Rgb, x: int, y: int) -> Rgb {
        let w = self.spec_ctx().display_width as int;
        let h = self.spec_ctx().display_height as int;
        if on_side_columns(w, x) && 0 <= y < h {
            self.column_shade(y)
        } else if on_side_rows(h, y) && 0 <= x < w {
            self.row_shade(x)
        } else {
            prior
        }
    }

    /// The border renderer for an item; no effect draws nothing.
    pub fn new(item: &PlayListItem, ctx: RenderContext) -> (r: Self)
        requires
            ctx.well_formed(),
        ensures
            r.well_formed(),
            r.spec_ctx() == ctx,
            r.spec_elapsed() == 0,
            effect_matches(r.spec_effect(), item.border_effect),
    {
        BorderRenderer { effect: effect_of(item), ctx, elapsed_ms: 0 }
    }

    /// Advances the effect's clock; a missing effect keeps no time.
    pub fn update(&mut self, dt_ms: u64)
        ensures
            final(self).spec_effect() == old(self).spec_effect(),
            final(self).spec_ctx() == old(self).spec_ctx(),
            final(self).spec_elapsed() == (if old(self).spec_effect() is Off {
                old(self).spec_elapsed()
            } else if old(self).spec_elapsed() + dt_ms > u64::MAX {
                u64::MAX as int
            } else {
                old(self).spec_elapsed() + dt_ms
            }),
    {
        match &self.effect {
            BorderEffect::Off => {},
            _ => {
                self.elapsed_ms = self.elapsed_ms.saturating_add(dt_ms);
            },
        }
    }

    /// Borders never complete.
    pub fn is_complete(&self) -> (r: bool)
        ensures
            !r,
    {
        false
    }

    pub fn reset(&mut self)
        ensures
            final(self).spec_effect() == old(self).spec_effect(),
            final(self).spec_ctx() == old(self).spec_ctx(),
            final(self).spec_elapsed() == 0,
    {
        self.elapsed_ms = 0;
    }

    pub fn update_context(&mut self, ctx: RenderContext)
        ensures
            final(self).spec_effect() == old(self).spec_effect(),
            final(self).spec_ctx() == ctx,
            final(self).spec_elapsed() == old(self).spec_elapsed(),
    {
        self.ctx = ctx;
    }

    /// Takes the item's effect and keeps the effect's clock running.
    pub fn update_content(&mut self, item: &PlayListItem)
        ensures
            final(self).spec_ctx() == old(self).spec_ctx(),
            final(self).spec_elapsed() == old(self).spec_elapsed(),
            effect_matches(final(self).spec_effect(), item.border_effect),
    {
        self.effect = effect_of(item);
    }

    fn row_color(&self, x: u32) -> (r: Rgb)
        requires
            self.well_formed(),
            self.paints_edges(),
            x < self.spec_ctx().display_width,
        ensures
            r == self.row_shade(x as int),
    {
        let w = self.ctx.display_width as u32;
        let c = match &self.effect {
            BorderEffect::Rainbow => hue_to_rgb(rainbow_hue_at(x, w, self.elapsed_ms)),
            BorderEffect::Pulse { colors } => pulse_color_at(colors, self.elapsed_ms),
            _ => [0, 0, 0],
        };
        self.ctx.apply_brightness(c)
    }

    fn column_color(&self, y: u32) -> (r: Rgb)
        requires
            self.well_formed(),
            self.paints_edges(),
            y < self.spec_ctx().display_height,
        ensures
            r == self.column_shade(y as int),
    {
        let h = self.ctx.display_height as u32;
        let c = match &self.effect {
            BorderEffect::Rainbow => hue_to_rgb(rainbow_hue_at(y, h, self.elapsed_ms)),
            BorderEffect::Pulse { colors } => pulse_color_at(colors, self.elapsed_ms),
            _ => [0, 0, 0],
        };
        self.ctx.apply_brightness(c)
    }

    fn paint_edges(&self, canvas: &mut Canvas)
        requires
            self.well_formed(),
            self.paints_edges(),
            old(canvas).well_formed(),
            old(canvas).spec_width() == self.spec_ctx().display_width,
            old(canvas).spec_height() == self.spec_ctx().display_height,
        ensures
            final(canvas).well_formed(),
            final(canvas).spec_width() == old(canvas).spec_width(),
            final(canvas).spec_height() == old(canvas).spec_height(),
            final(canvas).runs() == old(canvas).runs(),
            forall|px: int, py: int|
                old(canvas).in_bounds(px, py) ==> #[trigger] final(canvas).at(px, py)
                    == self.edge_shown(old(canvas).at(px, py), px, py),
    {
        let ghost start = *canvas;
        let w = self.ctx.display_width as i64;
        let h = self.ctx.display_height as i64;
        let mut i: i64 = 0;
        while i < w
            invariant
                self.well_formed(),
                self.paints_edges(),
                w == self.spec_ctx().display_width,
                h == self.spec_ctx().display_height,
                0 <= i <= w,
                canvas.well_formed(),
                canvas.spec_width() == w,
                canvas.spec_height() == h,
                canvas.runs() == start.runs(),
                start.spec_width() == w,
                start.spec_height() == h,
                forall|px: int, py: int|
                    start.in_bounds(px, py) ==> #[trigger] canvas.at(px, py) == if on_side_rows(
                        h as int,
                        py,
                    ) && 0 <= px < i {
                        self.row_shade(px)
                    } else {
                        start.at(px, py)
                    },
            decreases w - i,
        {
            let c = self.row_color(i as u32);
            canvas.set_pixel(i, 0, c);
            canvas.set_pixel(i, 1, c);
            canvas.set_pixel(i, h - 1, c);
            canvas.set_pixel(i, h - 2, c);
            i = i + 1;
        }
        let ghost mid = *canvas;
        let mut j: i64 = 0;
        while j < h
            invariant
                self.well_formed(),
                self.paints_edges(),
                w == self.spec_ctx().display_width,
                h == self.spec_ctx().display_height,
                0 <= j <= h,
                canvas.well_formed(),
                canvas.spec_width() == w,
                canvas.spec_height() == h,
                canvas.runs() == start.runs(),
                mid.spec_width() == w,
                mid.spec_height() == h,
                start.spec_width() == w,
                start.spec_height() == h,
                forall|px: int, py: int|
                    start.in_bounds(px, py) ==> #[trigger] mid.at(px, py) == if on_side_rows(
                        h as int,
                        py,
                    ) && 0 <= px < w {
                        self.row_shade(px)
                    } else {
                        start.at(px, py)
                    },
                forall|px: int, py: int|
                    start.in_bounds(px, py) ==> #[trigger] canvas.at(px, py) == if on_side_columns(
                        w as int,
                        px,
                    ) && 0 <= py < j {
                        self.column_shade(py)
                    } else {
                        mid.at(px, py)
                    },
            decreases h - j,
        {
            let c = self.column_color(j as u32);
            canvas.set_pixel(0, j, c);
            canvas.set_pixel(1, j, c);
            canvas.set_pixel(w - 1, j, c);
            canvas.set_pixel(w - 2, j, c);
            j = j + 1;
        }
    }
}

/// Pixel `pos` of the perimeter walk of a `w` x `h` display: the top edge
/// left to right, the bottom edge, then the left and right edges without
/// their corners; `inner` picks the second ring instead of the outermost.
pub open spec fn perimeter_point(w: int, h: int, pos: int, inner: bool) -> (int, int) {
    if pos < w {
        (pos, if inner { 1 } else { 0 })
    } else if pos < 2 * w {
        (pos - w, if inner { h - 2 } else { h - 1 })
    } else if pos < 2 * w + h - 2 {
        (if inner { 1 } else { 0 }, pos - 2 * w + 1)
    } else {
        (if inner { w - 2 } else { w - 1 }, pos - (2 * w + h - 2) + 1)
    }
}

/// One sparkle: palette index, perimeter position and ring.
pub type Sparkle = (usize, u64, bool);

/// What pixel (`x`, `y`) shows after `dots` are drawn in order over `prior`:
/// the dimmed colour of the last dot that lands on it, else `prior`.
pub open spec fn after_sparkles(
    dots: Seq<Sparkle>,
    colors: Seq<Rgb>,
    w: int,
    h: int,
    brightness: int,
    prior: Rgb,
    x: int,
    y: int,
) -> Rgb
    decreases dots.len(),
{
    if dots.len() == 0 {
        prior
    } else {
        let d = dots.last();
        if perimeter_point(w, h, d.1 as int, d.2) == (x, y) {
            RenderContext::dimmed(colors[d.0 as int], brightness)
        } else {
            after_sparkles(dots.drop_last(), colors, w, h, brightness, prior, x, y)
        }
    }
}

/// Whether every dot names a palette colour and a place on the perimeter.
pub open spec fn sparkles_ok(dots: Seq<Sparkle>, colors: Seq<Rgb>, perimeter: int) -> bool {
    forall|i: int|
        0 <= i < dots.len() ==> (#[trigger] dots[i]).0 < colors.len() && dots[i].1 < perimeter
}

/// The gradient palette: a single colour is used twice.
pub open spec fn gradient_palette(colors: Seq<Rgb>) -> Seq<Rgb> {
    if colors.len() == 1 {
        seq![colors[0], colors[0]]
    } else {
        colors
    }
}

/// Channel `a` blended toward `b` by `t / len`, truncated.
pub open spec fn blend_channel(a: u8, b: u8, t: int, len: int) -> u8 {
    (((a as int) * (len - t) + (b as int) * t) / len) as u8
}

/// Gradient colour at perimeter position `pos` after `t_ms`: the palette
/// spread over equal stretches of the walk, blended toward the next colour,
/// the pattern advancing one full turn per second.
pub open spec fn gradient_color(colors: Seq<Rgb>, perimeter: int, t_ms: int, pos: int) -> Rgb {
    let segments = colors.len() as int;
    let seg_len = perimeter / segments;
    let offset = t_ms * perimeter / 1000 % perimeter;
    let adjusted = (pos + offset) % perimeter;
    let seg = if adjusted / seg_len >= segments { segments - 1 } else { adjusted / seg_len };
    let next = (seg + 1) % segments;
    let into = adjusted % seg_len;
    [
        blend_channel(colors[seg][0], colors[next][0], into, seg_len),
        blend_channel(colors[seg][1], colors[next][1], into, seg_len),
        blend_channel(colors[seg][2], colors[next][2], into, seg_len),
    ]
}

/// What pixel (`x`, `y`) shows after the first `k` positions of the
/// gradient walk are drawn over `prior`, both rings of each position in
/// that position's colour.
pub open spec fn after_gradient(
    colors: Seq<Rgb>,
    w: int,
    h: int,
    t_ms: int,
    brightness: int,
    k: int,
    prior: Rgb,
    x: int,
    y: int,
) -> Rgb
    decreases k,
{
    if k <= 0 {
        prior
    } else if perimeter_point(w, h, k - 1, true) == (x, y) || perimeter_point(w, h, k - 1, false)
        == (x, y) {
        RenderContext::dimmed(gradient_color(colors, 2 * (w + h - 2), t_ms, k - 1), brightness)
    } else {
        after_gradient(colors, w, h, t_ms, brightness, k - 1, prior, x, y)
    }
}

/// Whether the gradient has something to draw on a `w` x `h` display.
pub open spec fn gradient_drawable(colors: Seq<Rgb>, w: int, h: int) -> bool {
    let perimeter = 2 * (w + h - 2);
    colors.len() > 0 && perimeter > 0 && perimeter / (gradient_palette(colors).len() as int) > 0
}

impl BorderRenderer {
    fn set_perimeter_pixel(&self, canvas: &mut Canvas, pos: i64, inner: bool, c: Rgb)
        requires
            self.well_formed(),
            old(canvas).well_formed(),
            old(canvas).spec_width() == self.spec_ctx().display_width,
            old(canvas).spec_height() == self.spec_ctx().display_height,
            0 <= pos < 2 * (self.spec_ctx().display_width + self.spec_ctx().display_height - 2),
        ensures
            final(canvas).well_formed(),
            final(canvas).spec_width() == old(canvas).spec_width(),
            final(canvas).spec_height() == old(canvas).spec_height(),
            final(canvas).runs() == old(canvas).runs(),
            forall|px: int, py: int|
                old(canvas).in_bounds(px, py) ==> #[trigger] final(canvas).at(px, py) == if (px, py)
                    == perimeter_point(
                    old(canvas).spec_width(),
                    old(canvas).spec_height(),
                    pos as int,
                    inner,
                ) {
                    c
                } else {
                    old(canvas).at(px, py)
                },
            forall|px: int, py: int|
                old(canvas).in_bounds(px, py) && !on_ring(
                    old(canvas).spec_width(),
                    old(canvas).spec_height(),
                    px,
                    py,
                ) ==> #[trigger] final(canvas).at(px, py) == old(canvas).at(px, py),
    {
        let w = self.ctx.display_width as i64;
        let h = self.ctx.display_height as i64;
        if pos < w {
            canvas.set_pixel(pos, if inner { 1 } else { 0 }, c);
        } else if pos < 2 * w {
            canvas.set_pixel(pos - w, if inner { h - 2 } else { h - 1 }, c);
        } else if pos < 2 * w + h - 2 {
            canvas.set_pixel(if inner { 1 } else { 0 }, pos - 2 * w + 1, c);
        } else {
            canvas.set_pixel(if inner { w - 2 } else { w - 1 }, pos - (2 * w + h - 2) + 1, c);
        }
    }

    /// Draws `dots` in order, each in its dimmed palette colour.
    pub fn draw_sparkles(&self, canvas: &mut Canvas, colors: &Vec<Rgb>, dots: &Vec<Sparkle>)
        requires
            self.well_formed(),
            old(canvas).well_formed(),
            old(canvas).spec_width() == self.spec_ctx().display_width,
            old(canvas).spec_height() == self.spec_ctx().display_height,
            sparkles_ok(
                dots@,
                colors@,
                2 * (self.spec_ctx().display_width + self.spec_ctx().display_height - 2),
            ),
        ensures
            final(canvas).well_formed(),
            final(canvas).spec_width() == old(canvas).spec_width(),
            final(canvas).spec_height() == old(canvas).spec_height(),
            final(canvas).runs() == old(canvas).runs(),
            forall|px: int, py: int|
                old(canvas).in_bounds(px, py) ==> #[trigger] final(canvas).at(px, py)
                    == after_sparkles(
                    dots@,
                    colors@,
                    old(canvas).spec_width(),
                    old(canvas).spec_height(),
                    self.spec_ctx().brightness as int,
                    old(canvas).at(px, py),
                    px,
                    py,
                ),
            forall|px: int, py: int|
                old(canvas).in_bounds(px, py) && !on_ring(
                    old(canvas).spec_width(),
                    old(canvas).spec_height(),
                    px,
                    py,
                ) ==> #[trigger] final(canvas).at(px, py) == old(canvas).at(px, py),
    {
        let ghost start = *canvas;
        let ghost b = self.ctx.brightness as int;
        let mut k: usize = 0;
        while k < dots.len()
            invariant
                self.well_formed(),
                b == self.spec_ctx().brightness,
                k <= dots@.len(),
                sparkles_ok(
                    dots@,
                    colors@,
                    2 * (self.spec_ctx().display_width + self.spec_ctx().display_height - 2),
                ),
                canvas.well_formed(),
                canvas.spec_width() == start.spec_width(),
                canvas.spec_height() == start.spec_height(),
                start.spec_width() == self.spec_ctx().display_width,
                start.spec_height() == self.spec_ctx().display_height,
                canvas.runs() == start.runs(),
                forall|px: int, py: int|
                    start.in_bounds(px, py) ==> #[trigger] canvas.at(px, py) == after_sparkles(
                        dots@.subrange(0, k as int),
                        colors@,
                        start.spec_width(),
                        start.spec_height(),
                        b,
                        start.at(px, py),
                        px,
                        py,
                    ),
                forall|px: int, py: int|
                    start.in_bounds(px, py) && !on_ring(start.spec_width(), start.spec_height(), px, py)
                        ==> #[trigger] canvas.at(px, py) == start.at(px, py),
            decreases dots@.len() - k,
        {
            let (idx, pos, inner) = dots[k];
            assert(sparkles_ok(dots@, colors@, 2 * (self.spec_ctx().display_width + self.spec_ctx().display_height - 2)));
            assert(dots@[k as int].0 < colors@.len());
            let c = self.ctx.apply_brightness(colors[idx]);
            self.set_perimeter_pixel(canvas, pos as i64, inner, c);
            proof {
                assert(dots@.subrange(0, k + 1).drop_last() =~= dots@.subrange(0, k as int));
                assert(dots@.subrange(0, k + 1).last() == dots@[k as int]);
            }
            k = k + 1;
        }
        assert(dots@.subrange(0, dots@.len() as int) =~= dots@);
    }

    /// Thirty dots at random places on the ring, in random palette colours.
    fn paint_sparkles(&self, canvas: &mut Canvas, colors: &Vec<Rgb>)
        requires
            self.well_formed(),
            colors@.len() > 0,
            old(canvas).well_formed(),
            old(canvas).spec_width() == self.spec_ctx().display_width,
            old(canvas).spec_height() == self.spec_ctx().display_height,
        ensures
            final(canvas).well_formed(),
            final(canvas).spec_width() == old(canvas).spec_width(),
            final(canvas).spec_height() == old(canvas).spec_height(),
            final(canvas).runs() == old(canvas).runs(),
            self.sparkled(colors@, *old(canvas), *final(canvas)),
            forall|px: int, py: int|
                old(canvas).in_bounds(px, py) && !on_ring(
                    old(canvas).spec_width(),
                    old(canvas).spec_height(),
                    px,
                    py,
                ) ==> #[trigger] final(canvas).at(px, py) == old(canvas).at(px, py),
    {
        let w = self.ctx.display_width as i64;
        let h = self.ctx.display_height as i64;
        let perimeter = 2 * (w + h - 2);
        let mut dots: Vec<Sparkle> = Vec::new();
        if perimeter > 0 {
            let mut k: u32 = 0;
            while k < 30
                invariant
                    k <= 30,
                    perimeter > 0,
                    colors@.len() > 0,
                    dots@.len() == k,
                    sparkles_ok(dots@, colors@, perimeter as int),
                decreases 30 - k,
            {
                let idx = random_below(colors.len() as u64) as usize;
                let pos = random_below(perimeter as u64);
                let inner = random_coin();
                dots.push((idx, pos, inner));
                k = k + 1;
            }
        }
        self.draw_sparkles(canvas, colors, &dots);
    }

    /// Whether `after` is `before` with some thirty in-range dots drawn on it
    /// (none when the display has no perimeter).
    pub open spec fn sparkled(&self, colors: Seq<Rgb>, before: Canvas, after: Canvas) -> bool {
        let w = self.spec_ctx().display_width as int;
        let h = self.spec_ctx().display_height as int;
        exists|dots: Seq<Sparkle>|
            #![trigger sparkles_ok(dots, colors, 2 * (w + h - 2))]
            (dots.len() == 30 || (2 * (w + h - 2) <= 0 && dots.len() == 0)) && sparkles_ok(
                dots,
                colors,
                2 * (w + h - 2),
            ) && forall|px: int, py: int|
                before.in_bounds(px, py) ==> #[trigger] after.at(px, py) == after_sparkles(
                    dots,
                    colors,
                    w,
                    h,
                    self.spec_ctx().brightness as int,
                    before.at(px, py),
                    px,
                    py,
                )
    }

    /// Palette colours spread over equal stretches of the perimeter walk,
    /// blended between neighbours, the whole pattern turning once a second.
    fn paint_gradient(&self, canvas: &mut Canvas, palette: &Vec<Rgb>)
        requires
            self.well_formed(),
            palette@.len() > 0,
            old(canvas).well_formed(),
            old(canvas).spec_width() == self.spec_ctx().display_width,
            old(canvas).spec_height() == self.spec_ctx().display_height,
        ensures
            final(canvas).well_formed(),
            final(canvas).spec_width() == old(canvas).spec_width(),
            final(canvas).spec_height() == old(canvas).spec_height(),
            final(canvas).runs() == old(canvas).runs(),
            forall|px: int, py: int|
                old(canvas).in_bounds(px, py) ==> #[trigger] final(canvas).at(px, py) == if gradient_drawable(
                    palette@,
                    old(canvas).spec_width(),
                    old(canvas).spec_height(),
                ) {
                    after_gradient(
                        gradient_palette(palette@),
                        old(canvas).spec_width(),
                        old(canvas).spec_height(),
                        self.spec_elapsed(),
                        self.spec_ctx().brightness as int,
                        2 * (old(canvas).spec_width() + old(canvas).spec_height() - 2),
                        old(canvas).at(px, py),
                        px,
                        py,
                    )
                } else {
                    old(canvas).at(px, py)
                },
            forall|px: int, py: int|
                old(canvas).in_bounds(px, py) && !on_ring(
                    old(canvas).spec_width(),
                    old(canvas).spec_height(),
                    px,
                    py,
                ) ==> #[trigger] final(canvas).at(px, py) == old(canvas).at(px, py),
    {
        let ghost start = *canvas;
        let colors: Vec<Rgb> = if palette.len() == 1 {
            vec![palette[0], palette[0]]
        } else {
            copy_colors(palette)
        };
        assert(colors@ =~= gradient_palette(palette@));
        let w = self.ctx.display_width as i64;
        let h = self.ctx.display_height as i64;
        let perimeter = 2 * (w + h - 2);
        if perimeter <= 0 {
            return;
        }
        let segments = colors.len() as u64;
        let seg_len = (perimeter as u64) / segments;
        if seg_len == 0 {
            return;
        }
        proof {
            assert((self.elapsed_ms as int) * (perimeter as int) <= 0xffff_ffff_ffff_ffff
                * 0x4_0000_0000) by (nonlinear_arith)
                requires
                    self.elapsed_ms <= 0xffff_ffff_ffff_ffffu64,
                    0 < perimeter <= 0x4_0000_0000;
        }
        let offset = ((self.elapsed_ms as u128) * (perimeter as u128) / 1000 % (perimeter as u128))
            as u64;
        let ghost b = self.ctx.brightness as int;
        let mut pos: i64 = 0;
        while pos < perimeter
            invariant
                self.well_formed(),
                b == self.spec_ctx().brightness,
                colors@ == gradient_palette(palette@),
                colors@.len() >= 2,
                segments == colors@.len(),
                seg_len == (perimeter as int) / (segments as int),
                seg_len > 0,
                offset == (self.spec_elapsed() * (perimeter as int) / 1000) % (perimeter as int),
                w == self.spec_ctx().display_width,
                h == self.spec_ctx().display_height,
                perimeter == 2 * (w + h - 2),
                0 <= pos <= perimeter,
                canvas.well_formed(),
                canvas.spec_width() == w,
                canvas.spec_height() == h,
                canvas.runs() == start.runs(),
                start.spec_width() == w,
                start.spec_height() == h,
                forall|px: int, py: int|
                    start.in_bounds(px, py) ==> #[trigger] canvas.at(px, py) == after_gradient(
                        colors@,
                        w as int,
                        h as int,
                        self.spec_elapsed(),
                        b,
                        pos as int,
                        start.at(px, py),
                        px,
                        py,
                    ),
                forall|px: int, py: int|
                    start.in_bounds(px, py) && !on_ring(w as int, h as int, px, py)
                        ==> #[trigger] canvas.at(px, py) == start.at(px, py),
            decreases perimeter - pos,
        {
            let adjusted = (pos as u64 + offset) % (perimeter as u64);
            let seg = adjusted / seg_len;
            let seg_idx = if seg >= segments {
                segments - 1
            } else {
                seg
            };
            let next = (seg_idx + 1) % segments;
            let into = adjusted % seg_len;
            let ai: usize = seg_idx as usize;
            let bi: usize = next as usize;
            let a = colors[ai];
            let bc = colors[bi];
            let mixed = [
                blend(a[0], bc[0], into, seg_len),
                blend(a[1], bc[1], into, seg_len),
                blend(a[2], bc[2], into, seg_len),
            ];
            assert(mixed == gradient_color(colors@, perimeter as int, self.spec_elapsed(), pos as int));
            let c = self.ctx.apply_brightness(mixed);
            self.set_perimeter_pixel(canvas, pos, false, c);
            self.set_perimeter_pixel(canvas, pos, true, c);
            pos = pos + 1;
        }
    }

    /// What painting this border does to a frame: no text run and no pixel
    /// off the ring changes, and the ring shows the effect.
    pub open spec fn bordered(&self, before: Canvas, after: Canvas) -> bool {
        &&& after.runs() == before.runs()
        &&& forall|px: int, py: int|
            before.in_bounds(px, py) && !on_ring(
                before.spec_width(),
                before.spec_height(),
                px,
                py,
            ) ==> #[trigger] after.at(px, py) == before.at(px, py)
        &&& self.paints_edges() ==> forall|px: int, py: int|
            before.in_bounds(px, py) ==> #[trigger] after.at(px, py)
                == self.edge_shown(before.at(px, py), px, py)
        &&& self.spec_effect() is Off ==> after.frame() == before.frame()
        &&& (self.spec_effect() matches BorderEffect::Gradient { colors } ==> forall|px: int, py: int|
            before.in_bounds(px, py) ==> #[trigger] after.at(px, py) == if gradient_drawable(
                colors@,
                before.spec_width(),
                before.spec_height(),
            ) {
                after_gradient(
                    gradient_palette(colors@),
                    before.spec_width(),
                    before.spec_height(),
                    self.spec_elapsed(),
                    self.spec_ctx().brightness as int,
                    2 * (before.spec_width() + before.spec_height() - 2),
                    before.at(px, py),
                    px,
                    py,
                )
            } else {
                before.at(px, py)
            })
        &&& (self.spec_effect() matches BorderEffect::Sparkle { colors } ==> (if colors@.len() > 0 {
            self.sparkled(colors@, before, after)
        } else {
            after.frame() == before.frame()
        }))
    }

    /// Paints the border effect over the frame.
    pub fn render(&self, canvas: &mut Canvas)
        requires
            self.well_formed(),
            old(canvas).well_formed(),
            old(canvas).spec_width() == self.spec_ctx().display_width,
            old(canvas).spec_height() == self.spec_ctx().display_height,
        ensures
            final(canvas).well_formed(),
            final(canvas).spec_width() == old(canvas).spec_width(),
            final(canvas).spec_height() == old(canvas).spec_height(),
            self.bordered(*old(canvas), *final(canvas)),
    {
        match &self.effect {
            BorderEffect::Off => {},
            BorderEffect::Rainbow => self.paint_edges(canvas),
            BorderEffect::Pulse { colors } => {
                if colors.len() > 0 {
                    self.paint_edges(canvas);
                }
            },
            BorderEffect::Sparkle { colors } => {
                if colors.len() > 0 {
                    self.paint_sparkles(canvas, colors);
                }
            },
            BorderEffect::Gradient { colors } => {
                if colors.len() > 0 {
                    self.paint_gradient(canvas, colors);
                }
            },
        }
    }
}

/// `a` blended toward `b` by `t / len`, truncated.
fn blend(a: u8, b: u8, t: u64, len: u64) -> (r: u8)
    requires
        t < len,
    ensures
        r == blend_channel(a, b, t as int, len as int),
{
    proof {
        assert((a as int) * ((len - t) as int) + (b as int) * (t as int) <= 255 * (len as int))
            by (nonlinear_arith)
            requires a <= 255, b <= 255, t < len;
        assert(0 <= (a as int) * ((len - t) as int) + (b as int) * (t as int))
            by (nonlinear_arith)
            requires t < len;
        assert(((a as int) * ((len - t) as int) + (b as int) * (t as int)) / (len as int) <= 255)
            by (nonlinear_arith)
            requires (a as int) * ((len - t) as int) + (b as int) * (t as int) <= 255 * (len as int), len > 0;
        assert(len <= 0xffff_ffff_ffff_ffff);
    }
    (((a as u128) * ((len - t) as u128) + (b as u128) * (t as u128)) / (len as u128)) as u8
}

fn effect_of(item: &PlayListItem) -> (r: BorderEffect)
    ensures
        effect_matches(r, item.border_effect),
{
    match &item.border_effect {
        Some(BorderEffect::Off) | None => BorderEffect::Off,
        Some(BorderEffect::Rainbow) => BorderEffect::Rainbow,
        Some(BorderEffect::Pulse { colors }) => BorderEffect::Pulse { colors: copy_colors(colors) },
        Some(BorderEffect::Sparkle { colors }) => BorderEffect::Sparkle {
            colors: copy_colors(colors),
        },
        Some(BorderEffect::Gradient { colors }) => BorderEffect::Gradient {
            colors: copy_colors(colors),
        },
    }
}

fn rainbow_hue_at(i: u32, len: u32, t_ms: u64) -> (r: u32)
    requires
        i < len,
    ensures
        r == rainbow_hue(i as int, len as int, t_ms as int),
        r < ONE,
{
    proof {
        assert((i as int) * (ONE as int) / (len as int) < ONE) by (nonlinear_arith)
            requires i < len;
    }
    let along = (i as u64) * (ONE as u64) / (len as u64);
    let turn = ((t_ms as u128) * (ONE as u128) / 1000 % (ONE as u128)) as u64;
    ((along + turn) % (ONE as u64)) as u32
}

fn pulse_color_at(colors: &Vec<Rgb>, t_ms: u64) -> (r: Rgb)
    requires
        colors@.len() > 0,
    ensures
        r == pulse_border_color(colors@, t_ms as int),
{
    let adjusted = (t_ms as u128) * 7 / 10;
    let pos = adjusted % (2000 * colors.len() as u128);
    proof {
        assert(pos / 2000 < colors@.len()) by (nonlinear_arith)
            requires pos < 2000 * colors@.len();
    }
    let c = colors[(pos / 2000) as usize];
    let within = pos % 2000;
    proof {
        assert(within * (ONE as int) / 2000 < ONE) by (nonlinear_arith)
            requires within < 2000;
    }
    let level = triangle_wave((within * (ONE as u128) / 2000) as u32);
    [
        crate::color::scale_channel(c[0], level, ONE),
        crate::color::scale_channel(c[1], level, ONE),
        crate::color::scale_channel(c[2], level, ONE),
    ]
}

} // verus!
