//! The frame buffer that renderers paint into.
use vstd::prelude::*;
use crate::color::Rgb;

verus! {

/// A line of text to be drawn with the 10x20 monospace font, its baseline's
/// left end at (`x`, `y`).
#[derive(Clone, Debug, PartialEq, Eq)]
pub struct TextRun {
    pub text: String,
    pub x: i64,
    pub y: i64,
    pub color: Rgb,
}

/// What a text run says and where: characters, position and colour.
pub open spec fn run_view(r: TextRun) -> (Seq<char>, int, int, Rgb) {
    (r.text@, r.x as int, r.y as int, r.color)
}

/// A `width` x `height` frame, row-major.
///
/// Pixels painted before the first text run form the base layer. Text runs
/// are rasterised over it by whoever presents the frame, and pixels painted
/// after the first text run (text decorations, borders) form an overlay that
/// is drawn last, so that the result matches painting in call order.
pub struct Canvas {
    width: u32,
    height: u32,
    pixels: Vec<Rgb>,
    overlay: Vec<Option<Rgb>>,
    texts: Vec<TextRun>,
}

/// Index of pixel (`x`, `y`) in a row-major buffer of the given width.
pub open spec fn pixel_index(width: int, x: int, y: int) -> int {
    y * width + x
}

/// Distinct points of a row of width `w` have distinct indices.
pub proof fn lemma_index_injective(w: int, x1: int, y1: int, x2: int, y2: int)
    requires
        0 <= x1 < w,
        0 <= x2 < w,
        0 <= y1,
        0 <= y2,
        pixel_index(w, x1, y1) == pixel_index(w, x2, y2),
    ensures
        x1 == x2 && y1 == y2,
{
    if y1 < y2 {
        assert(y1 * w + w <= y2 * w) by (nonlinear_arith)
            requires y1 < y2, 0 <= w;
    } else if y2 < y1 {
        assert(y2 * w + w <= y1 * w) by (nonlinear_arith)
            requires y2 < y1, 0 <= w;
    }
}

impl Canvas {
    pub closed spec fn spec_width(&self) -> int {
        self.width as int
    }

    pub closed spec fn spec_height(&self) -> int {
        self.height as int
    }

    /// The colour shown at each pixel, leaving text glyphs aside.
    pub closed spec fn frame(&self) -> Seq<Rgb> {
        Seq::new(
            self.pixels@.len(),
            |i: int|
                match self.overlay@[i] {
                    Some(c) => c,
                    None => self.pixels@[i],
                },
        )
    }

    /// The text runs painted since the last fill, in order.
    pub closed spec fn runs(&self) -> Seq<TextRun> {
        self.texts@
    }

    pub closed spec fn well_formed(&self) -> bool {
        &&& self.pixels@.len() == (self.width as int) * (self.height as int)
        &&& self.overlay@.len() == self.pixels@.len()
        &&& self.texts@.len() == 0 ==> forall|i: int|
            0 <= i < self.overlay@.len() ==> #[trigger] self.overlay@[i] is None
    }

    /// Whether (`x`, `y`) lies on the canvas.
    pub open spec fn in_bounds(&self, x: int, y: int) -> bool {
        0 <= x < self.spec_width() && 0 <= y < self.spec_height()
    }

    /// The shown colour of pixel (`x`, `y`).
    pub open spec fn at(&self, x: int, y: int) -> Rgb {
        self.frame()[pixel_index(self.spec_width(), x, y)]
    }

    proof fn lemma_index_in_range(&self, x: int, y: int)
        requires
            self.well_formed(),
            self.in_bounds(x, y),
        ensures
            0 <= pixel_index(self.spec_width(), x, y) < self.pixels@.len(),
            self.frame().len() == self.pixels@.len(),
    {
        let w = self.width as int;
        let h = self.height as int;
        assert(y * w + x < h * w) by (nonlinear_arith)
            requires 0 <= x < w, 0 <= y < h;
        assert(0 <= y * w) by (nonlinear_arith)
            requires 0 <= y, 0 <= w;
        assert(h * w == w * h) by (nonlinear_arith);
    }

    /// A black canvas of the given size.
    pub fn new(width: u32, height: u32) -> (r: Self)
        requires
            (width as int) * (height as int) <= usize::MAX,
        ensures
            r.well_formed(),
            r.spec_width() == width,
            r.spec_height() == height,
            r.frame() == Seq::new(((width as int) * (height as int)) as nat, |i: int| [0u8, 0u8, 0u8]),
            r.runs().len() == 0,
    {
        let n = (width as u64 * height as u64) as usize;
        let mut canvas = Canvas {
            width,
            height,
            pixels: Vec::new(),
            overlay: Vec::new(),
            texts: Vec::new(),
        };
        canvas.fill_layers(n, [0, 0, 0]);
        canvas
    }

    fn fill_layers(&mut self, n: usize, color: Rgb)
        ensures
            final(self).width == old(self).width,
            final(self).height == old(self).height,
            final(self).pixels@ == Seq::new(n as nat, |i: int| color),
            final(self).overlay@ == Seq::new(n as nat, |i: int| None::<Rgb>),
            final(self).texts@.len() == 0,
    {
        let mut pixels: Vec<Rgb> = Vec::new();
        let mut overlay: Vec<Option<Rgb>> = Vec::new();
        let mut i: usize = 0;
        while i < n
            invariant
                i <= n,
                pixels@ == Seq::new(i as nat, |k: int| color),
                overlay@ == Seq::new(i as nat, |k: int| None::<Rgb>),
            decreases n - i,
        {
            pixels.push(color);
            overlay.push(None);
            i = i + 1;
            assert(pixels@ =~= Seq::new(i as nat, |k: int| color));
            assert(overlay@ =~= Seq::new(i as nat, |k: int| None::<Rgb>));
        }
        self.pixels = pixels;
        self.overlay = overlay;
        self.texts = Vec::new();
    }

    /// `(width, height)` in pixels.
    pub fn size(&self) -> (r: (u32, u32))
        ensures
            r.0 == self.spec_width(),
            r.1 == self.spec_height(),
    {
        (self.width, self.height)
    }

    /// Paints every pixel `color` and drops all text.
    pub fn fill(&mut self, color: Rgb)
        requires
            old(self).well_formed(),
        ensures
            final(self).well_formed(),
            final(self).spec_width() == old(self).spec_width(),
            final(self).spec_height() == old(self).spec_height(),
            final(self).frame() == Seq::new(old(self).frame().len(), |i: int| color),
            final(self).runs().len() == 0,
            forall|px: int, py: int|
                old(self).in_bounds(px, py) ==> #[trigger] final(self).at(px, py) == color,
    {
        let n = self.pixels.len();
        self.fill_layers(n, color);
        assert(self.frame() =~= Seq::new(n as nat, |i: int| color));
        assert forall|px: int, py: int| old(self).in_bounds(px, py) implies #[trigger] self.at(
            px,
            py,
        ) == color by {
            old(self).lemma_index_in_range(px, py);
        }
    }

    /// Paints pixel (`x`, `y`) `color`; points off the canvas are ignored.
    pub fn set_pixel(&mut self, x: i64, y: i64, color: Rgb)
        requires
            old(self).well_formed(),
        ensures
            final(self).well_formed(),
            final(self).spec_width() == old(self).spec_width(),
            final(self).spec_height() == old(self).spec_height(),
            final(self).runs() == old(self).runs(),
            forall|px: int, py: int|
                old(self).in_bounds(px, py) ==> #[trigger] final(self).at(px, py) == if px == x
                    && py == y {
                    color
                } else {
                    old(self).at(px, py)
                },
            final(self).frame() == if old(self).in_bounds(x as int, y as int) {
                old(self).frame().update(
                    pixel_index(old(self).spec_width(), x as int, y as int),
                    color,
                )
            } else {
                old(self).frame()
            },
    {
        if x < 0 || y < 0 || x >= self.width as i64 || y >= self.height as i64 {
            return;
        }
        let n = self.pixels.len();
        proof {
            self.lemma_index_in_range(x as int, y as int);
            assert(0 <= (y as int) * (self.width as int)) by (nonlinear_arith)
                requires 0 <= y, 0 <= self.width;
        }
        let i = (y as usize) * (self.width as usize) + (x as usize);
        let ghost old_frame = self.frame();
        if self.texts.len() == 0 {
            self.pixels.set(i, color);
        } else {
            self.overlay.set(i, Some(color));
        }
        assert(self.frame() =~= old_frame.update(i as int, color));
        assert forall|px: int, py: int| old(self).in_bounds(px, py) implies #[trigger] self.at(
            px,
            py,
        ) == if px == x && py == y {
            color
        } else {
            old(self).at(px, py)
        } by {
            old(self).lemma_index_in_range(px, py);
            if pixel_index(self.width as int, px, py) == pixel_index(
                self.width as int,
                x as int,
                y as int,
            ) {
                lemma_index_injective(self.width as int, px, py, x as int, y as int);
            }
        }
    }

    /// Queues a text run over what has been painted so far.
    pub fn draw_text(&mut self, run: TextRun)
        requires
            old(self).well_formed(),
        ensures
            final(self).well_formed(),
            final(self).spec_width() == old(self).spec_width(),
            final(self).spec_height() == old(self).spec_height(),
            final(self).frame() == old(self).frame(),
            final(self).runs() == old(self).runs().push(run),
    {
        self.texts.push(run);
        assert(self.frame() =~= old(self).frame());
    }

    /// Pixels painted before the first text run.
    pub closed spec fn base(&self) -> Seq<Rgb> {
        self.pixels@
    }

    /// Pixels painted after the first text run.
    pub closed spec fn layer(&self) -> Seq<Option<Rgb>> {
        self.overlay@
    }

    /// What is shown at each pixel, text aside, is the overlay where it was
    /// painted and the base layer elsewhere.
    pub proof fn lemma_frame_layers(&self)
        requires
            self.well_formed(),
        ensures
            self.frame().len() == self.base().len(),
            self.layer().len() == self.base().len(),
            self.base().len() == self.spec_width() * self.spec_height(),
            forall|i: int|
                0 <= i < self.base().len() ==> #[trigger] self.frame()[i] == match self.layer()[i] {
                    Some(c) => c,
                    None => self.base()[i],
                },
    {
    }

    /// The base layer, row-major.
    pub fn base_pixels(&self) -> (r: &Vec<Rgb>)
        ensures
            r@ == self.base(),
    {
        &self.pixels
    }

    /// The overlay layer, row-major; `None` where nothing was painted after text.
    pub fn overlay_pixels(&self) -> (r: &Vec<Option<Rgb>>)
        ensures
            r@ == self.layer(),
    {
        &self.overlay
    }

    /// The text runs, in drawing order.
    pub fn text_runs(&self) -> (r: &Vec<TextRun>)
        ensures
            r@ == self.runs(),
    {
        &self.texts
    }

    /// The shown colour of pixel (`x`, `y`), ignoring text.
    pub fn pixel(&self, x: u32, y: u32) -> (r: Rgb)
        requires
            self.well_formed(),
            self.in_bounds(x as int, y as int),
        ensures
            r == self.at(x as int, y as int),
    {
        let n = self.pixels.len();
        proof {
            self.lemma_index_in_range(x as int, y as int);
            assert(0 <= (y as int) * (self.width as int)) by (nonlinear_arith)
                requires 0 <= y, 0 <= self.width;
        }
        let i = (y as usize) * (self.width as usize) + (x as usize);
        match self.overlay[i] {
            Some(c) => c,
            None => self.pixels[i],
        }
    }
}

} // verus!
