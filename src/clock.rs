//! The live clock.
use vstd::prelude::*;
use chrono::Timelike;
use crate::canvas::{Canvas, TextRun, run_view};
use crate::color::{RenderContext, Rgb, half_toward_zero};
use crate::models::{ClockContent, ClockFormat, ContentDetails, PlayListItem};
use crate::text::{CHAR_WIDTH, FONT_HEIGHT, baseline};

verus! {

/// A wall-clock time of day.
#[derive(Clone, Copy, Debug, PartialEq, Eq, Structural)]
pub struct TimeOfDay {
    pub hour: u32,
    pub minute: u32,
    pub second: u32,
}

impl TimeOfDay {
    pub open spec fn well_formed(&self) -> bool {
        self.hour < 24 && self.minute < 60 && self.second < 60
    }
}

/// Relies on chrono's `Local::now` and its `Timelike` accessors, which give
/// the hour as 0 to 23 and the minute and second as 0 to 59.
#[verifier::external_body]
fn local_time_of_day() -> (r: TimeOfDay)
    ensures
        r.well_formed(),
{
    let now = chrono::Local::now();
    TimeOfDay { hour: now.hour(), minute: now.minute(), second: now.second() }
}

/// Relies on `String`'s `FromIterator<char>`: the string of those characters.
#[verifier::external_body]
pub(crate) fn string_of_chars(chars: &Vec<char>) -> (r: String)
    ensures
        r@ == chars@,
{
    String::from_iter(chars.iter())
}

/// The decimal digit `d`.
pub open spec fn digit(d: int) -> char {
    (48 + d) as char
}

/// `n` as two decimal digits.
pub open spec fn two_digits(n: int) -> Seq<char> {
    seq![digit(n / 10), digit(n % 10)]
}

/// What the clock shows: `HH:MM[:SS]` in 24-hour form; in 12-hour form the
/// hour runs 1 to 12 without a leading zero and ` AM` or ` PM` follows.
pub open spec fn clock_text(t: TimeOfDay, format: ClockFormat, show_seconds: bool) -> Seq<char> {
    let secs = if show_seconds {
        seq![':'] + two_digits(t.second as int)
    } else {
        seq![]
    };
    match format {
        ClockFormat::TwentyFourHour => two_digits(t.hour as int) + seq![':'] + two_digits(
            t.minute as int,
        ) + secs,
        ClockFormat::TwelveHour => {
            let h = if t.hour % 12 == 0 { 12 } else { t.hour % 12 };
            let hour = if h < 10 { seq![digit(h as int)] } else { two_digits(h as int) };
            let suffix = if t.hour < 12 { seq![' ', 'A', 'M'] } else { seq![' ', 'P', 'M'] };
            hour + seq![':'] + two_digits(t.minute as int) + secs + suffix
        },
    }
}

fn digit_char(d: u32) -> (c: char)
    requires
        d < 10,
    ensures
        c == digit(d as int),
{
    let c = (48 + d) as u8 as char;
    c
}

fn push_two_digits(out: &mut Vec<char>, n: u32)
    requires
        n < 100,
    ensures
        final(out)@ == old(out)@ + two_digits(n as int),
{
    out.push(digit_char(n / 10));
    out.push(digit_char(n % 10));
    assert(final(out)@ =~= old(out)@ + two_digits(n as int));
}

/// The clock face for time `t`; see [`clock_text`].
pub fn format_time_string(t: TimeOfDay, format: ClockFormat, show_seconds: bool) -> (r: String)
    requires
        t.well_formed(),
    ensures
        r@ == clock_text(t, format, show_seconds),
{
    let mut out: Vec<char> = Vec::new();
    match format {
        ClockFormat::TwentyFourHour => {
            push_two_digits(&mut out, t.hour);
            out.push(':');
            push_two_digits(&mut out, t.minute);
            if show_seconds {
                out.push(':');
                push_two_digits(&mut out, t.second);
            }
        },
        ClockFormat::TwelveHour => {
            let h = if t.hour % 12 == 0 {
                12
            } else {
                t.hour % 12
            };
            if h < 10 {
                out.push(digit_char(h));
            } else {
                push_two_digits(&mut out, h);
            }
            out.push(':');
            push_two_digits(&mut out, t.minute);
            if show_seconds {
                out.push(':');
                push_two_digits(&mut out, t.second);
            }
            out.push(' ');
            out.push(if t.hour < 12 {
                'A'
            } else {
                'P'
            });
            out.push('M');
        },
    }
    assert(out@ =~= clock_text(t, format, show_seconds));
    string_of_chars(&out)
}

/// Renders the current time, centred.
pub struct ClockRenderer {
    content: ClockContent,
    ctx: RenderContext,
    duration: Option<u64>,
    elapsed_ms: u64,
}

impl ClockRenderer {
    pub closed spec fn spec_content(&self) -> ClockContent {
        self.content
    }

    pub closed spec fn spec_ctx(&self) -> RenderContext {
        self.ctx
    }

    pub closed spec fn spec_duration(&self) -> Option<u64> {
        self.duration
    }

    pub closed spec fn spec_elapsed(&self) -> int {
        self.elapsed_ms as int
    }

    pub open spec fn well_formed(&self) -> bool {
        self.spec_ctx().well_formed()
    }

    pub fn new(item: &PlayListItem, ctx: RenderContext) -> (r: Self)
        requires
            item.content.data is Clock,
            ctx.well_formed(),
        ensures
            r.well_formed(),
            r.spec_content() == item.content.data->Clock_0,
            r.spec_ctx() == ctx,
            r.spec_duration() == item.duration,
            r.spec_elapsed() == 0,
    {
        let content = match &item.content.data {
            ContentDetails::Clock(c) => *c,
            _ => ClockContent {
                format: ClockFormat::TwentyFourHour,
                show_seconds: false,
                color: [0, 0, 0],
            },
        };
        ClockRenderer { content, ctx, duration: item.duration, elapsed_ms: 0 }
    }

    /// Counts the time shown; the face itself always reads the live clock.
    pub fn update(&mut self, dt_ms: u64)
        ensures
            final(self).spec_elapsed() == (if old(self).spec_elapsed() + dt_ms > u64::MAX {
                u64::MAX as int
            } else {
                old(self).spec_elapsed() + dt_ms
            }),
            final(self).spec_content() == old(self).spec_content(),
            final(self).spec_ctx() == old(self).spec_ctx(),
            final(self).spec_duration() == old(self).spec_duration(),
    {
        self.elapsed_ms = self.elapsed_ms.saturating_add(dt_ms);
    }

    /// Complete once the duration has elapsed.
    pub fn is_complete(&self) -> (r: bool)
        ensures
            r == (match self.spec_duration() {
                Some(d) => self.spec_elapsed() >= d * 1000,
                None => false,
            }),
    {
        match self.duration {
            Some(d) => self.elapsed_ms as u128 >= (d as u128) * 1000,
            None => false,
        }
    }

    pub fn reset(&mut self)
        ensures
            final(self).spec_elapsed() == 0,
            final(self).spec_content() == old(self).spec_content(),
            final(self).spec_ctx() == old(self).spec_ctx(),
            final(self).spec_duration() == old(self).spec_duration(),
    {
        self.elapsed_ms = 0;
    }

    pub fn update_context(&mut self, ctx: RenderContext)
        ensures
            final(self).spec_ctx() == ctx,
            final(self).spec_elapsed() == old(self).spec_elapsed(),
            final(self).spec_content() == old(self).spec_content(),
            final(self).spec_duration() == old(self).spec_duration(),
    {
        self.ctx = ctx;
    }

    /// New clock settings; the shown time restarts from zero.
    pub fn update_content(&mut self, item: &PlayListItem)
        ensures
            final(self).spec_ctx() == old(self).spec_ctx(),
            item.content.data is Clock ==> final(self).spec_content()
                == item.content.data->Clock_0 && final(self).spec_duration() == item.duration
                && final(self).spec_elapsed() == 0,
            !(item.content.data is Clock) ==> final(self).spec_content() == old(self).spec_content()
                && final(self).spec_duration() == old(self).spec_duration()
                && final(self).spec_elapsed() == old(self).spec_elapsed(),
    {
        if let ContentDetails::Clock(c) = &item.content.data {
            self.content = *c;
            self.duration = item.duration;
            self.elapsed_ms = 0;
        }
    }

    /// The run that the face for time `t` adds.
    pub open spec fn face_run(&self, t: TimeOfDay) -> (Seq<char>, int, int, Rgb) {
        let s = clock_text(t, self.spec_content().format, self.spec_content().show_seconds);
        let ctx = self.spec_ctx();
        (
            s,
            half_toward_zero(ctx.display_width - s.len() * CHAR_WIDTH),
            baseline(ctx.display_height as int),
            RenderContext::dimmed(self.spec_content().color, ctx.brightness as int),
        )
    }

    /// What painting the face does to a canvas: one more run, the face for
    /// some time of day, and no pixel changed.
    pub open spec fn clock_rendered(&self, before: Canvas, after: Canvas) -> bool {
        &&& after.frame() == before.frame()
        &&& exists|t: TimeOfDay|
            t.well_formed() && after.runs().map_values(|r: TextRun| run_view(r)) == before.runs().map_values(
                |r: TextRun| run_view(r),
            ).push(#[trigger] self.face_run(t))
    }

    /// Paints the face for time `t`, centred horizontally on the text row.
    pub fn render_at(&self, canvas: &mut Canvas, t: TimeOfDay)
        requires
            self.well_formed(),
            t.well_formed(),
            old(canvas).well_formed(),
        ensures
            final(canvas).well_formed(),
            final(canvas).spec_width() == old(canvas).spec_width(),
            final(canvas).spec_height() == old(canvas).spec_height(),
            final(canvas).frame() == old(canvas).frame(),
            ({
                let s = clock_text(t, self.spec_content().format, self.spec_content().show_seconds);
                let ctx = self.spec_ctx();
                final(canvas).runs().map_values(|r: TextRun| run_view(r)) == old(
                    canvas,
                ).runs().map_values(|r: TextRun| run_view(r)).push(
                    (
                        s,
                        half_toward_zero(ctx.display_width - s.len() * CHAR_WIDTH),
                        baseline(ctx.display_height as int),
                        RenderContext::dimmed(self.spec_content().color, ctx.brightness as int),
                    ),
                )
            }),
    {
        let text = format_time_string(t, self.content.format, self.content.show_seconds);
        let n = text.as_str().unicode_len() as i64;
        assert(n <= 11);
        let v = self.ctx.display_width as i64 - n * CHAR_WIDTH;
        let x = if v >= 0 {
            v / 2
        } else {
            -((-v) / 2)
        };
        let y = self.ctx.calculate_centered_text_position(FONT_HEIGHT) as i64;
        let color = self.ctx.apply_brightness(self.content.color);
        let ghost before = canvas.runs().map_values(|r: TextRun| run_view(r));
        let ghost s = text@;
        canvas.draw_text(TextRun { text, x, y, color });
        assert(canvas.runs().map_values(|r: TextRun| run_view(r)) =~= before.push(
            (s, x as int, y as int, color),
        ));
    }

    /// Paints the face for the current local time.
    pub fn render(&self, canvas: &mut Canvas)
        requires
            self.well_formed(),
            old(canvas).well_formed(),
        ensures
            final(canvas).well_formed(),
            final(canvas).spec_width() == old(canvas).spec_width(),
            final(canvas).spec_height() == old(canvas).spec_height(),
            self.clock_rendered(*old(canvas), *final(canvas)),
    {
        let t = local_time_of_day();
        self.render_at(canvas, t);
        assert(canvas.runs().map_values(|r: TextRun| run_view(r)) == old(canvas).runs().map_values(
            |r: TextRun| run_view(r),
        ).push(self.face_run(t)));
    }
}

} // verus!
