//! Scrolling and static text.
use vstd::prelude::*;
use vstd::string::{StrSliceExecFns, StringExecFns};
use crate::canvas::{Canvas, TextRun, run_view};
use crate::color::{RenderContext, Rgb, half_toward_zero};
use crate::models::{ContentDetails, PlayListItem, TextContent, TextSegment};

verus! {

/// Width of one glyph of the text font, in pixels.
pub const CHAR_WIDTH: i64 = 10;

/// Height of the text font, in pixels.
pub const FONT_HEIGHT: i32 = 20;

/// Widths are computed for at most this many characters.
pub const MAX_MEASURED_CHARS: i64 = 0x1_0000_0000;

/// Pixel width of a text of `n` characters: ten pixels each, plus two.
pub open spec fn text_width_of(n: int) -> int {
    (if n > MAX_MEASURED_CHARS { MAX_MEASURED_CHARS as int } else { n }) * CHAR_WIDTH + 2
}

/// `|a - b| < 20`.
pub open spec fn close(a: u8, b: u8) -> bool {
    -20 < (a as int) - (b as int) < 20
}

/// The colour of a strikethrough over text of colour (`r`, `g`, `b`): red over
/// near-grey text; over reddish text whose green and blue agree, red blended
/// toward white as red dominates; white otherwise.
pub open spec fn strike_color(r: u8, g: u8, b: u8) -> Rgb {
    if close(r, g) && close(g, b) && close(r, b) {
        [255u8, 0u8, 0u8]
    } else if close(g, b) && (r as int) > (g as int) + 30 {
        let s = (r as int) + (g as int) + (b as int);
        let v = (5 * (r as int) - 2 * s) * 255 / (2 * s);
        let c = if v < 0 { 0 } else if v > 255 { 255 } else { v };
        [255u8, c as u8, c as u8]
    } else {
        [255u8, 255u8, 255u8]
    }
}

fn close_exec(a: u8, b: u8) -> (r: bool)
    ensures
        r == close(a, b),
{
    let d = a as i16 - b as i16;
    -20 < d && d < 20
}

/// A strikethrough colour that stays visible over text of colour (`r`, `g`, `b`).
pub fn get_smooth_strikethrough_color(r: u8, g: u8, b: u8) -> (c: Rgb)
    ensures
        c == strike_color(r, g, b),
{
    if close_exec(r, g) && close_exec(g, b) && close_exec(r, b) {
        return [255, 0, 0];
    }
    if close_exec(g, b) && (r as u32) > (g as u32) + 30 {
        let s = r as i64 + g as i64 + b as i64;
        let v = (5 * (r as i64) - 2 * s) * 255;
        proof {
            assert(s > 0);
        }
        let q = if v < 0 {
            0
        } else {
            v / (2 * s)
        };
        proof {
            if v < 0 {
                assert(((5 * (r as int) - 2 * s) * 255) / (2 * s) < 0) by (nonlinear_arith)
                    requires v == (5 * (r as int) - 2 * s) * 255, v < 0, s > 0;
            }
        }
        let c: u8 = if q > 255 {
            255
        } else {
            q as u8
        };
        return [255, c, c];
    }
    [255, 255, 255]
}

/// Whether two text contents say the same thing.
pub open spec fn same_text(a: TextContent, b: TextContent) -> bool {
    &&& a.text@ == b.text@
    &&& a.scroll == b.scroll
    &&& a.color == b.color
    &&& a.speed == b.speed
    &&& match (a.text_segments, b.text_segments) {
        (Some(x), Some(y)) => x@ == y@,
        (None, None) => true,
        _ => false,
    }
}

fn copy_segments(v: &Vec<TextSegment>) -> (r: Vec<TextSegment>)
    ensures
        r@ == v@,
{
    let mut out: Vec<TextSegment> = Vec::new();
    let mut i: usize = 0;
    while i < v.len()
        invariant
            i <= v@.len(),
            out@ == v@.subrange(0, i as int),
        decreases v@.len() - i,
    {
        out.push(v[i]);
        i = i + 1;
        assert(out@ =~= v@.subrange(0, i as int));
    }
    assert(out@ =~= v@);
    out
}

fn copy_text(c: &TextContent) -> (r: TextContent)
    ensures
        same_text(r, *c),
{
    TextContent {
        text: c.text.clone(),
        scroll: c.scroll,
        color: c.color,
        speed: c.speed,
        text_segments: match &c.text_segments {
            Some(s) => Some(copy_segments(s)),
            None => None,
        },
    }
}

fn measure(text: &String) -> (r: i64)
    ensures
        r == text_width_of(text@.len() as int),
{
    let n = text.as_str().unicode_len() as u64;
    let m: i64 = if n > MAX_MEASURED_CHARS as u64 {
        MAX_MEASURED_CHARS
    } else {
        n as i64
    };
    m * CHAR_WIDTH + 2
}

/// Renders a text item, scrolling it right to left or centring it.
pub struct TextRenderer {
    content: TextContent,
    ctx: RenderContext,
    text_width: i64,
    scroll_position: i64,
    completed_scrolls: u32,
    accumulated_ms: u64,
    elapsed_ms: u64,
    repeat_count: Option<u32>,
    duration: Option<u64>,
}

/// Baseline row of text on a display of height `h`.
pub open spec fn baseline(h: int) -> int {
    h / 2 + FONT_HEIGHT / 2 - 5
}

/// Characters past this index are not positioned further right.
pub open spec fn column(i: int) -> int {
    if i > MAX_MEASURED_CHARS { MAX_MEASURED_CHARS as int } else { i }
}

/// The runs that one segment draws: its characters at their column, in the
/// segment's colour (else the text's), twice one pixel apart when bold.
pub open spec fn segment_runs(
    text: Seq<char>,
    seg: TextSegment,
    x0: int,
    y: int,
    base: Rgb,
    brightness: int,
) -> Seq<(Seq<char>, int, int, Rgb)> {
    let n = text.len() as int;
    let start = if (seg.start as int) < n { seg.start as int } else { n };
    let end = if (seg.end as int) < n { seg.end as int } else { n };
    if start < end {
        let color = RenderContext::dimmed(
            match seg.color {
                Some(c) => c,
                None => base,
            },
            brightness,
        );
        let x = x0 + column(start) * CHAR_WIDTH;
        let t = text.subrange(start, end);
        let bold = match seg.formatting {
            Some(f) => f.bold,
            None => false,
        };
        if bold {
            seq![(t, x + 1, y, color), (t, x, y, color)]
        } else {
            seq![(t, x, y, color)]
        }
    } else {
        seq![]
    }
}

/// The runs of all segments, in order.
pub open spec fn segments_runs(
    text: Seq<char>,
    segs: Seq<TextSegment>,
    x0: int,
    y: int,
    base: Rgb,
    brightness: int,
) -> Seq<(Seq<char>, int, int, Rgb)>
    decreases segs.len(),
{
    if segs.len() == 0 {
        seq![]
    } else {
        segments_runs(text, segs.drop_last(), x0, y, base, brightness) + segment_runs(
            text,
            segs.last(),
            x0,
            y,
            base,
            brightness,
        )
    }
}

/// Farthest a scroll position can fall behind the left edge.
pub const MAX_LAG: i64 = 0x80_0000_0000_0000;

impl TextRenderer {
    pub closed spec fn spec_content(&self) -> TextContent {
        self.content
    }

    pub closed spec fn spec_ctx(&self) -> RenderContext {
        self.ctx
    }

    pub closed spec fn spec_text_width(&self) -> int {
        self.text_width as int
    }

    pub closed spec fn spec_scroll_position(&self) -> int {
        self.scroll_position as int
    }

    pub closed spec fn spec_completed_scrolls(&self) -> int {
        self.completed_scrolls as int
    }

    pub closed spec fn spec_accumulated(&self) -> int {
        self.accumulated_ms as int
    }

    pub closed spec fn spec_elapsed(&self) -> int {
        self.elapsed_ms as int
    }

    pub closed spec fn spec_repeat_count(&self) -> Option<u32> {
        self.repeat_count
    }

    pub closed spec fn spec_duration(&self) -> Option<u64> {
        self.duration
    }

    pub open spec fn well_formed(&self) -> bool {
        &&& self.spec_ctx().well_formed()
        &&& self.spec_text_width() == text_width_of(self.spec_content().text@.len() as int)
        &&& -text_width_of(MAX_MEASURED_CHARS as int) - MAX_LAG <= self.spec_scroll_position()
        &&& self.spec_scroll_position() <= i32::MAX
        &&& 0 <= self.spec_accumulated() <= u32::MAX
        &&& 0 <= self.spec_completed_scrolls()
        &&& 0 <= self.spec_elapsed()
    }

    /// What painting this text does to a canvas: the runs it appends (one
    /// run, or the segments' runs) and the pixels it may change (none, or the
    /// underline and strikethrough rows).
    pub open spec fn text_rendered(&self, before: Canvas, after: Canvas) -> bool {
                let ctx = self.spec_ctx();
                let y = baseline(ctx.display_height as int);
                let c = self.spec_content();
                let old_runs = before.runs().map_values(|r: TextRun| run_view(r));
                let new_runs = after.runs().map_values(|r: TextRun| run_view(r));
                match c.text_segments {
                    Some(segs) if segs@.len() > 0 => {
                        &&& new_runs == old_runs + segments_runs(
                            c.text@,
                            segs@,
                            self.start_x(),
                            y,
                            c.color,
                            ctx.brightness as int,
                        )
                        &&& forall|px: int, py: int|
                            before.in_bounds(px, py) && py != y + 3 && py != y - 5 && py != y
                                - 6 ==> #[trigger] after.at(px, py) == before.at(px, py)
                    },
                    _ => {
                        &&& new_runs == old_runs.push(
                            (
                                c.text@,
                                self.start_x(),
                                y,
                                RenderContext::dimmed(c.color, ctx.brightness as int),
                            ),
                        )
                        &&& after.frame() == before.frame()
                    },
                }
    }

    /// Where the text starts: the scroll position, or centred when static.
    pub open spec fn start_x(&self) -> int {
        if self.spec_content().scroll {
            self.spec_scroll_position()
        } else {
            half_toward_zero(self.spec_ctx().display_width - self.spec_text_width())
        }
    }

    /// A renderer at the start of the item: the text just off the right edge.
    pub fn new(item: &PlayListItem, ctx: RenderContext) -> (r: Self)
        requires
            item.content.data is Text,
            ctx.well_formed(),
        ensures
            r.well_formed(),
            same_text(r.spec_content(), item.content.data->Text_0),
            r.spec_ctx() == ctx,
            r.spec_scroll_position() == ctx.display_width,
            r.spec_completed_scrolls() == 0,
            r.spec_accumulated() == 0,
            r.spec_elapsed() == 0,
            r.spec_repeat_count() == item.repeat_count,
            r.spec_duration() == item.duration,
    {
        let content = match &item.content.data {
            ContentDetails::Text(t) => copy_text(t),
            _ => TextContent {
                text: String::new(),
                scroll: false,
                color: [0, 0, 0],
                speed: 0,
                text_segments: None,
            },
        };
        let text_width = measure(&content.text);
        TextRenderer {
            content,
            ctx,
            text_width,
            scroll_position: ctx.display_width as i64,
            completed_scrolls: 0,
            accumulated_ms: 0,
            elapsed_ms: 0,
            repeat_count: item.repeat_count,
            duration: item.duration,
        }
    }

    /// Advances by `dt_ms` milliseconds. Scrolling text moves left by
    /// `speed` pixels per second in whole pixels; once it has fully left the
    /// display it re-enters at the right edge and one more scroll is counted.
    pub fn update(&mut self, dt_ms: u64)
        requires
            old(self).well_formed(),
        ensures
            final(self).well_formed(),
            final(self).spec_elapsed() == (if old(self).spec_elapsed() + dt_ms > u64::MAX {
                u64::MAX as int
            } else {
                old(self).spec_elapsed() + dt_ms
            }),
            same_text(final(self).spec_content(), old(self).spec_content()),
            final(self).spec_ctx() == old(self).spec_ctx(),
            final(self).spec_text_width() == old(self).spec_text_width(),
            final(self).spec_repeat_count() == old(self).spec_repeat_count(),
            final(self).spec_duration() == old(self).spec_duration(),
            ({
                let acc = if old(self).spec_accumulated() + dt_ms > u32::MAX {
                    u32::MAX as int
                } else {
                    old(self).spec_accumulated() + dt_ms
                };
                let moved = acc * (old(self).spec_content().speed as int) / 1000;
                let pos = old(self).spec_scroll_position() - moved;
                if !old(self).spec_content().scroll {
                    final(self).spec_scroll_position() == old(self).spec_scroll_position()
                        && final(self).spec_completed_scrolls() == old(self).spec_completed_scrolls()
                        && final(self).spec_accumulated() == old(self).spec_accumulated()
                } else if moved == 0 {
                    final(self).spec_scroll_position() == old(self).spec_scroll_position()
                        && final(self).spec_completed_scrolls() == old(self).spec_completed_scrolls()
                        && final(self).spec_accumulated() == acc
                } else if pos < -old(self).spec_text_width() {
                    final(self).spec_scroll_position() == old(self).spec_ctx().display_width
                        && final(self).spec_completed_scrolls() == (if old(
                        self,
                    ).spec_completed_scrolls() == u32::MAX {
                        u32::MAX as int
                    } else {
                        old(self).spec_completed_scrolls() + 1
                    }) && final(self).spec_accumulated() == 0
                } else {
                    final(self).spec_scroll_position() == pos
                        && final(self).spec_completed_scrolls() == old(self).spec_completed_scrolls()
                        && final(self).spec_accumulated() == 0
                }
            }),
    {
        self.elapsed_ms = self.elapsed_ms.saturating_add(dt_ms);
        if !self.content.scroll {
            return;
        }
        let sum = self.accumulated_ms.saturating_add(dt_ms);
        self.accumulated_ms = if sum > u32::MAX as u64 {
            u32::MAX as u64
        } else {
            sum
        };
        proof {
            assert((self.accumulated_ms as int) * (self.content.speed as int) <= 0xffff_ffff
                * 0xffff_ffff) by (nonlinear_arith)
                requires self.accumulated_ms <= 0xffff_ffff, self.content.speed <= 0xffff_ffffu32;
        }
        let moved = self.accumulated_ms * (self.content.speed as u64) / 1000;
        if moved > 0 {
            let pos = self.scroll_position - moved as i64;
            self.accumulated_ms = 0;
            if pos < -self.text_width {
                self.scroll_position = self.ctx.display_width as i64;
                self.completed_scrolls = self.completed_scrolls.saturating_add(1);
            } else {
                self.scroll_position = pos;
            }
        }
    }

    /// Static text completes when its duration has elapsed; scrolling text
    /// when it has scrolled `repeat_count` times (never for 0).
    pub fn is_complete(&self) -> (r: bool)
        ensures
            r == (match self.spec_duration() {
                Some(d) => self.spec_elapsed() >= d * 1000,
                None => match self.spec_repeat_count() {
                    Some(n) => n != 0 && self.spec_completed_scrolls() >= n,
                    None => false,
                },
            }),
    {
        if let Some(d) = self.duration {
            return self.elapsed_ms as u128 >= (d as u128) * 1000;
        }
        if let Some(n) = self.repeat_count {
            if n == 0 {
                return false;
            }
            return self.completed_scrolls >= n;
        }
        false
    }

    /// Back to the start: text off the right edge, counters cleared.
    pub fn reset(&mut self)
        requires
            old(self).well_formed(),
        ensures
            final(self).well_formed(),
            final(self).spec_scroll_position() == old(self).spec_ctx().display_width,
            final(self).spec_completed_scrolls() == 0,
            final(self).spec_accumulated() == 0,
            final(self).spec_elapsed() == 0,
            same_text(final(self).spec_content(), old(self).spec_content()),
            final(self).spec_ctx() == old(self).spec_ctx(),
            final(self).spec_text_width() == old(self).spec_text_width(),
            final(self).spec_repeat_count() == old(self).spec_repeat_count(),
            final(self).spec_duration() == old(self).spec_duration(),
    {
        self.scroll_position = self.ctx.display_width as i64;
        self.completed_scrolls = 0;
        self.accumulated_ms = 0;
        self.elapsed_ms = 0;
    }

    /// New geometry or brightness; scrolling carries on.
    pub fn update_context(&mut self, ctx: RenderContext)
        requires
            old(self).well_formed(),
            ctx.well_formed(),
        ensures
            final(self).well_formed(),
            final(self).spec_ctx() == ctx,
            final(self).spec_scroll_position() == old(self).spec_scroll_position(),
            final(self).spec_completed_scrolls() == old(self).spec_completed_scrolls(),
            final(self).spec_accumulated() == old(self).spec_accumulated(),
            final(self).spec_elapsed() == old(self).spec_elapsed(),
            same_text(final(self).spec_content(), old(self).spec_content()),
            final(self).spec_repeat_count() == old(self).spec_repeat_count(),
            final(self).spec_duration() == old(self).spec_duration(),
    {
        self.ctx = ctx;
    }

    /// New text or settings for the same item. The scroll position is kept;
    /// only when the text changed and the old position would leave the new
    /// text entirely off the left edge does it restart at the right edge.
    pub fn update_content(&mut self, item: &PlayListItem)
        requires
            old(self).well_formed(),
        ensures
            final(self).well_formed(),
            final(self).spec_ctx() == old(self).spec_ctx(),
            final(self).spec_completed_scrolls() == old(self).spec_completed_scrolls(),
            final(self).spec_accumulated() == old(self).spec_accumulated(),
            final(self).spec_elapsed() == old(self).spec_elapsed(),
            item.content.data is Text ==> {
                &&& same_text(final(self).spec_content(), item.content.data->Text_0)
                &&& final(self).spec_repeat_count() == item.repeat_count
                &&& final(self).spec_duration() == item.duration
                &&& final(self).spec_scroll_position() == (if final(self).spec_content().text@
                    != old(self).spec_content().text@ && final(self).spec_content().scroll
                    && old(self).spec_scroll_position() < -final(self).spec_text_width() {
                    old(self).spec_ctx().display_width as int
                } else {
                    old(self).spec_scroll_position()
                })
            },
            !(item.content.data is Text) ==> same_text(
                final(self).spec_content(),
                old(self).spec_content(),
            ) && final(self).spec_scroll_position() == old(self).spec_scroll_position()
                && final(self).spec_repeat_count() == old(self).spec_repeat_count()
                && final(self).spec_duration() == old(self).spec_duration(),
    {
        if let ContentDetails::Text(t) = &item.content.data {
            let changed = self.content.text != t.text;
            self.content = copy_text(t);
            self.repeat_count = item.repeat_count;
            self.duration = item.duration;
            self.text_width = measure(&self.content.text);
            if changed && self.content.scroll && self.scroll_position < -self.text_width {
                self.scroll_position = self.ctx.display_width as i64;
            }
        }
    }

    /// Paints the text: queued as one run, or one run per segment (two for
    /// bold ones) followed by underlines and strikethroughs.
    pub fn render(&self, canvas: &mut Canvas)
        requires
            self.well_formed(),
            old(canvas).well_formed(),
        ensures
            final(canvas).well_formed(),
            final(canvas).spec_width() == old(canvas).spec_width(),
            final(canvas).spec_height() == old(canvas).spec_height(),
            self.text_rendered(*old(canvas), *final(canvas)),
    {
        let y = self.ctx.calculate_centered_text_position(FONT_HEIGHT) as i64;
        let x_start: i64 = if self.content.scroll {
            self.scroll_position
        } else {
            let v = self.ctx.display_width as i64 - self.text_width;
            if v >= 0 {
                v / 2
            } else {
                -((-v) / 2)
            }
        };
        let ghost old_runs = canvas.runs().map_values(|r: TextRun| run_view(r));
        match &self.content.text_segments {
            Some(segs) => {
                if segs.len() > 0 {
                    self.render_segments(canvas, segs, x_start, y);
                    return;
                }
            },
            None => {},
        }
        let color = self.ctx.apply_brightness(self.content.color);
        let run = TextRun { text: self.content.text.clone(), x: x_start, y, color };
        canvas.draw_text(run);
        assert(canvas.runs().map_values(|r: TextRun| run_view(r)) =~= old_runs.push(
            (self.content.text@, x_start as int, y as int, color),
        ));
    }

    fn render_segments(&self, canvas: &mut Canvas, segs: &Vec<TextSegment>, x_start: i64, y: i64)
        requires
            self.well_formed(),
            old(canvas).well_formed(),
            x_start == self.start_x(),
            y == baseline(self.spec_ctx().display_height as int),
        ensures
            final(canvas).well_formed(),
            final(canvas).spec_width() == old(canvas).spec_width(),
            final(canvas).spec_height() == old(canvas).spec_height(),
            final(canvas).runs().map_values(|r: TextRun| run_view(r)) == old(canvas).runs().map_values(
                |r: TextRun| run_view(r),
            ) + segments_runs(
                self.spec_content().text@,
                segs@,
                x_start as int,
                y as int,
                self.spec_content().color,
                self.spec_ctx().brightness as int,
            ),
            forall|px: int, py: int|
                old(canvas).in_bounds(px, py) && py != y + 3 && py != y - 5 && py != y - 6
                    ==> #[trigger] final(canvas).at(px, py) == old(canvas).at(px, py),
    {
        let ghost start = *canvas;
        let ghost text = self.content.text@;
        let ghost b = self.ctx.brightness as int;
        let n = self.content.text.as_str().unicode_len();
        let mut effects: Vec<(i64, i64, Rgb, bool, bool)> = Vec::new();
        let mut i: usize = 0;
        while i < segs.len()
            invariant
                self.well_formed(),
                n == text.len(),
                text == self.spec_content().text@,
                b == self.spec_ctx().brightness,
                x_start == self.start_x(),
                i <= segs@.len(),
                canvas.well_formed(),
                canvas.spec_width() == start.spec_width(),
                canvas.spec_height() == start.spec_height(),
                canvas.frame() == start.frame(),
                canvas.runs().map_values(|r: TextRun| run_view(r)) == start.runs().map_values(
                    |r: TextRun| run_view(r),
                ) + segments_runs(text, segs@.subrange(0, i as int), x_start as int, y as int,
                    self.spec_content().color, b),
                forall|k: int| 0 <= k < effects@.len() ==> #[trigger] effects@[k].1 >= 0
                    && effects@[k].1 <= MAX_MEASURED_CHARS * CHAR_WIDTH
                    && effects@[k].0 >= x_start
                    && effects@[k].0 <= x_start + MAX_MEASURED_CHARS * CHAR_WIDTH,
            decreases segs@.len() - i,
        {
            let seg = segs[i];
            let ghost before = canvas.runs().map_values(|r: TextRun| run_view(r));
            assert(segs@.subrange(0, i + 1).drop_last() =~= segs@.subrange(0, i as int));
            let color = self.ctx.apply_brightness(
                match seg.color {
                    Some(c) => c,
                    None => self.content.color,
                },
            );
            let start_i = if seg.start < n {
                seg.start
            } else {
                n
            };
            let end_i = if seg.end < n {
                seg.end
            } else {
                n
            };
            if start_i < end_i {
                let piece = self.content.text.as_str().substring_char(start_i, end_i);
                let col: i64 = if start_i as u64 > MAX_MEASURED_CHARS as u64 {
                    MAX_MEASURED_CHARS
                } else {
                    start_i as i64
                };
                let x = x_start + col * CHAR_WIDTH;
                let bold = match seg.formatting {
                    Some(f) => f.bold,
                    None => false,
                };
                if bold {
                    canvas.draw_text(TextRun { text: String::from_str(piece), x: x + 1, y, color });
                }
                canvas.draw_text(TextRun { text: String::from_str(piece), x, y, color });
                let ghost views = canvas.runs().map_values(|r: TextRun| run_view(r));
                if bold {
                    assert(views =~= before + seq![
                        (text.subrange(start_i as int, end_i as int), x + 1, y as int, color),
                        (text.subrange(start_i as int, end_i as int), x as int, y as int, color),
                    ]);
                } else {
                    assert(views =~= before + seq![
                        (text.subrange(start_i as int, end_i as int), x as int, y as int, color),
                    ]);
                }
                let underline = match seg.formatting {
                    Some(f) => f.underline,
                    None => false,
                };
                let strike = match seg.formatting {
                    Some(f) => f.strikethrough,
                    None => false,
                };
                if underline || strike {
                    let cnt: i64 = if (end_i - start_i) as u64 > MAX_MEASURED_CHARS as u64 {
                        MAX_MEASURED_CHARS
                    } else {
                        (end_i - start_i) as i64
                    };
                    effects.push((x, cnt * CHAR_WIDTH, color, underline, strike));
                }
            } else {
                assert(canvas.runs().map_values(|r: TextRun| run_view(r)) =~= before + seq![]);
            }
            i = i + 1;
        }
        assert(segs@.subrange(0, segs@.len() as int) =~= segs@);
        let ghost mid = *canvas;
        let mut k: usize = 0;
        assert(-0x100_0000_0000_0000 <= x_start <= i32::MAX);
        while k < effects.len()
            invariant
                self.well_formed(),
                -0x100_0000_0000_0000 <= x_start <= i32::MAX,
                0 <= y <= 0x4000_0010,
                k <= effects@.len(),
                canvas.well_formed(),
                canvas.spec_width() == start.spec_width(),
                canvas.spec_height() == start.spec_height(),
                canvas.runs() == mid.runs(),
                mid.spec_width() == start.spec_width(),
                mid.spec_height() == start.spec_height(),
                forall|px: int, py: int|
                    start.in_bounds(px, py) && py != y + 3 && py != y - 5 && py != y - 6
                        ==> #[trigger] canvas.at(px, py) == mid.at(px, py),
                forall|j: int| 0 <= j < effects@.len() ==> #[trigger] effects@[j].1 >= 0
                    && effects@[j].1 <= MAX_MEASURED_CHARS * CHAR_WIDTH
                    && effects@[j].0 >= x_start
                    && effects@[j].0 <= x_start + MAX_MEASURED_CHARS * CHAR_WIDTH,
            decreases effects@.len() - k,
        {
            let (x, width, color, underline, strike) = effects[k];
            assert(effects@[k as int].1 >= 0);
            if underline {
                self.draw_line(canvas, x, width, y + 3, color);
            }
            if strike {
                let sc = self.ctx.apply_brightness(
                    get_smooth_strikethrough_color(color[0], color[1], color[2]),
                );
                self.draw_line(canvas, x, width, y - 5, sc);
                self.draw_line(canvas, x, width, y - 6, sc);
            }
            k = k + 1;
        }
        assert forall|px: int, py: int|
            start.in_bounds(px, py) && py != y + 3 && py != y - 5 && py != y - 6 implies #[trigger] canvas.at(
            px,
            py,
        ) == start.at(px, py) by {
            assert(mid.frame() == start.frame());
        }
    }

    fn draw_line(&self, canvas: &mut Canvas, x: i64, width: i64, row: i64, color: Rgb)
        requires
            old(canvas).well_formed(),
            0 <= width <= MAX_MEASURED_CHARS * CHAR_WIDTH,
            -0x4000_0000_0000_0000 <= x <= 0x4000_0000_0000_0000,
        ensures
            final(canvas).well_formed(),
            final(canvas).spec_width() == old(canvas).spec_width(),
            final(canvas).spec_height() == old(canvas).spec_height(),
            final(canvas).runs() == old(canvas).runs(),
            forall|px: int, py: int|
                old(canvas).in_bounds(px, py) && py != row ==> #[trigger] final(canvas).at(px, py)
                    == old(canvas).at(px, py),
    {
        let ghost start = *canvas;
        let mut i: i64 = 0;
        while i < width
            invariant
                0 <= i <= width,
                width <= MAX_MEASURED_CHARS * CHAR_WIDTH,
                -0x4000_0000_0000_0000 <= x <= 0x4000_0000_0000_0000,
                canvas.well_formed(),
                canvas.spec_width() == start.spec_width(),
                canvas.spec_height() == start.spec_height(),
                canvas.runs() == start.runs(),
                forall|px: int, py: int|
                    start.in_bounds(px, py) && py != row ==> #[trigger] canvas.at(px, py) == start.at(
                        px,
                        py,
                    ),
            decreases width - i,
        {
            canvas.set_pixel(x + i, row, color);
            i = i + 1;
        }
    }
}

} // verus!
