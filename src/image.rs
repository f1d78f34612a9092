//! Images placed by a transform, optionally moved along keyframes.
use vstd::prelude::*;
use crate::canvas::Canvas;
use crate::color::{RenderContext, Rgb};
use crate::fixed::ONE;
use crate::models::{ContentDetails, ImageAnimation, ImageKeyframe, ImageTransform, PlayListItem};

verus! {

/// Smallest scale an image is drawn at (about 0.01).
pub const MIN_SCALE: u32 = 655;

/// An RGB pixel buffer, row-major, three bytes per pixel.
pub struct DecodedImage {
    width: u32,
    height: u32,
    pixels: Vec<u8>,
}

impl DecodedImage {
    pub closed spec fn spec_width(&self) -> int {
        self.width as int
    }

    pub closed spec fn spec_height(&self) -> int {
        self.height as int
    }

    pub closed spec fn bytes(&self) -> Seq<u8> {
        self.pixels@
    }

    pub open spec fn well_formed(&self) -> bool {
        &&& self.bytes().len() == self.spec_width() * self.spec_height() * 3
        &&& self.spec_width() > 0
        &&& self.spec_height() > 0
    }

    /// Colour of pixel (`x`, `y`).
    pub open spec fn color_at(&self, x: int, y: int) -> Rgb {
        let i = (y * self.spec_width() + x) * 3;
        [self.bytes()[i], self.bytes()[i + 1], self.bytes()[i + 2]]
    }

    /// Wraps a decoded buffer; `None` unless it holds exactly
    /// `width * height` pixels and neither side is 0.
    pub fn new(width: u32, height: u32, pixels: Vec<u8>) -> (r: Option<Self>)
        ensures
            r is Some <==> (width > 0 && height > 0 && pixels@.len() == (width as int)
                * (height as int) * 3),
            r matches Some(img) ==> img.spec_width() == width && img.spec_height() == height
                && img.bytes() == pixels@,
    {
        if width == 0 || height == 0 {
            return None;
        }
        proof {
            assert((width as int) * (height as int) <= 0xffff_ffff * 0xffff_ffff) by (nonlinear_arith)
                requires width <= 0xffff_ffffu32, height <= 0xffff_ffffu32;
        }
        let n = (width as u128) * (height as u128) * 3;
        if pixels.len() as u128 != n {
            return None;
        }
        Some(DecodedImage { width, height, pixels })
    }

    pub fn width(&self) -> (r: u32)
        ensures
            r == self.spec_width(),
    {
        self.width
    }

    pub fn height(&self) -> (r: u32)
        ensures
            r == self.spec_height(),
    {
        self.height
    }

    /// The colour of pixel (`x`, `y`).
    pub fn sample(&self, x: u32, y: u32) -> (r: Rgb)
        requires
            self.well_formed(),
            x < self.spec_width(),
            y < self.spec_height(),
        ensures
            r == self.color_at(x as int, y as int),
    {
        proof {
            let (w, h) = (self.width as int, self.height as int);
            assert(w * h * 3 == self.pixels@.len());
            assert((y as int) * w + (x as int) < w * h) by (nonlinear_arith)
                requires x < w, y < h;
            assert(0 <= (y as int) * w) by (nonlinear_arith)
                requires 0 <= y, 0 <= w;
        }
        let n = self.pixels.len();
        assert((y as int) * (self.width as int) + (x as int) < n / 3);
        let i = ((y as usize) * (self.width as usize) + (x as usize)) * 3;
        [self.pixels[i], self.pixels[i + 1], self.pixels[i + 2]]
    }

    fn duplicate(&self) -> (r: Self)
        ensures
            r.spec_width() == self.spec_width(),
            r.spec_height() == self.spec_height(),
            r.bytes() == self.bytes(),
    {
        let mut out: Vec<u8> = Vec::new();
        let mut i: usize = 0;
        while i < self.pixels.len()
            invariant
                i <= self.pixels@.len(),
                out@ == self.pixels@.subrange(0, i as int),
            decreases self.pixels@.len() - i,
        {
            out.push(self.pixels[i]);
            i = i + 1;
            assert(out@ =~= self.pixels@.subrange(0, i as int));
        }
        assert(out@ =~= self.pixels@);
        DecodedImage { width: self.width, height: self.height, pixels: out }
    }
}

/// Decoded images by id, filled by whoever reads image files.
pub struct ImageStore {
    entries: Vec<(String, DecodedImage)>,
}

impl ImageStore {
    pub closed spec fn ids(&self) -> Seq<Seq<char>> {
        self.entries@.map_values(|e: (String, DecodedImage)| e.0@)
    }

    pub open spec fn well_formed(&self) -> bool {
        forall|i: int| 0 <= i < self.len_spec() ==> #[trigger] self.image_at(i).well_formed()
    }

    pub closed spec fn len_spec(&self) -> int {
        self.entries@.len() as int
    }

    pub closed spec fn image_at(&self, i: int) -> DecodedImage {
        self.entries@[i].1
    }

    pub fn new() -> (r: Self)
        ensures
            r.well_formed(),
            r.ids().len() == 0,
    {
        ImageStore { entries: Vec::new() }
    }

    /// Adds an image, in front of any earlier one with the same id.
    pub fn insert(&mut self, id: String, image: DecodedImage)
        requires
            old(self).well_formed(),
            image.well_formed(),
        ensures
            final(self).well_formed(),
            final(self).ids() == seq![id@] + old(self).ids(),
    {
        let ghost old_ids = self.ids();
        let ghost id_view = id@;
        self.entries.insert(0, (id, image));
        assert(self.ids() =~= seq![id_view] + old_ids);
        assert forall|i: int| 0 <= i < self.len_spec() implies #[trigger] self.image_at(i).well_formed() by {
            if i > 0 {
                assert(self.image_at(i) == old(self).image_at(i - 1));
            }
        }
    }

    /// A copy of the first image stored under `id`.
    pub fn get(&self, id: &String) -> (r: Option<DecodedImage>)
        requires
            self.well_formed(),
        ensures
            r is Some <==> self.ids().contains(id@),
            r matches Some(img) ==> img.well_formed(),
    {
        let mut i: usize = 0;
        while i < self.entries.len()
            invariant
                self.well_formed(),
                i <= self.entries@.len(),
                forall|k: int| 0 <= k < i ==> #[trigger] self.ids()[k] != id@,
            decreases self.entries@.len() - i,
        {
            if self.entries[i].0 == *id {
                assert(self.ids()[i as int] == id@);
                assert(self.image_at(i as int).well_formed());
                return Some(self.entries[i].1.duplicate());
            }
            i = i + 1;
        }
        assert forall|k: int| 0 <= k < self.ids().len() implies self.ids()[k] != id@ by {
            assert(self.ids()[k] != id@);
        }
        None
    }
}

/// A placement in fixed point: offsets in units of `1 / ONE` pixel.
#[derive(Clone, Copy, Debug, PartialEq, Eq, Structural)]
pub struct PreciseTransform {
    pub x: i64,
    pub y: i64,
    pub scale: u32,
}

/// The fixed-point form of a whole-pixel transform.
pub open spec fn precise(t: ImageTransform) -> PreciseTransform {
    PreciseTransform { x: (t.x as int * ONE) as i64, y: (t.y as int * ONE) as i64, scale: t.scale }
}

/// `a` moved toward `b` by `p / ONE`, in units of `1 / ONE`.
pub open spec fn lerp_fixed(a: i32, b: i32, p: int) -> int {
    (a as int) * (ONE as int) + ((b as int) - (a as int)) * p
}

/// Scale between `a` and `b` at `p / ONE`, at least `MIN_SCALE`.
pub open spec fn lerp_scale(a: u32, b: u32, p: int) -> int {
    let s = ((a as int) * (ONE - p) + (b as int) * p) / (ONE as int);
    if s < MIN_SCALE { MIN_SCALE as int } else { s }
}

/// How far `elapsed` lies between keyframes `prev` and `next`, clamped to `[0, 1]`.
pub open spec fn segment_progress(prev: ImageKeyframe, next: ImageKeyframe, elapsed: int) -> int {
    let len = if next.timestamp_ms > prev.timestamp_ms {
        next.timestamp_ms - prev.timestamp_ms
    } else {
        1
    };
    if elapsed <= prev.timestamp_ms {
        0
    } else {
        let p = (elapsed - prev.timestamp_ms) * (ONE as int) / (len as int);
        if p > ONE { ONE as int } else { p }
    }
}

/// The placement at `elapsed` ms, looking from keyframe `i` on: interpolated
/// between the first keyframe at or after `elapsed` and the one before it;
/// past the last keyframe, the last one.
pub open spec fn keyframe_transform(kfs: Seq<ImageKeyframe>, i: int, elapsed: int) -> PreciseTransform
    decreases kfs.len() - i,
{
    if i >= kfs.len() || i < 1 {
        let last = kfs.last();
        PreciseTransform {
            x: (last.x as int * ONE) as i64,
            y: (last.y as int * ONE) as i64,
            scale: if last.scale < MIN_SCALE { MIN_SCALE } else { last.scale },
        }
    } else if elapsed <= kfs[i].timestamp_ms {
        let p = segment_progress(kfs[i - 1], kfs[i], elapsed);
        PreciseTransform {
            x: lerp_fixed(kfs[i - 1].x, kfs[i].x, p) as i64,
            y: lerp_fixed(kfs[i - 1].y, kfs[i].y, p) as i64,
            scale: lerp_scale(kfs[i - 1].scale, kfs[i].scale, p) as u32,
        }
    } else {
        keyframe_transform(kfs, i + 1, elapsed)
    }
}

fn interpolate_transform(animation: &ImageAnimation, elapsed_ms: u64) -> (r: PreciseTransform)
    requires
        animation.keyframes@.len() >= 2,
    ensures
        r == keyframe_transform(animation.keyframes@, 1, elapsed_ms as int),
{
    let kfs = &animation.keyframes;
    let mut i: usize = 1;
    while i < kfs.len()
        invariant
            1 <= i <= kfs@.len(),
            kfs@.len() >= 2,
            kfs@ == animation.keyframes@,
            keyframe_transform(kfs@, 1, elapsed_ms as int) == keyframe_transform(
                kfs@,
                i as int,
                elapsed_ms as int,
            ),
        decreases kfs@.len() - i,
    {
        let prev = kfs[i - 1];
        let next = kfs[i];
        if elapsed_ms <= next.timestamp_ms as u64 {
            let len: u64 = if next.timestamp_ms > prev.timestamp_ms {
                (next.timestamp_ms - prev.timestamp_ms) as u64
            } else {
                1
            };
            let p: u64 = if elapsed_ms <= prev.timestamp_ms as u64 {
                0
            } else {
                let q = (elapsed_ms - prev.timestamp_ms as u64) * (ONE as u64) / len;
                if q > ONE as u64 {
                    ONE as u64
                } else {
                    q
                }
            };
            let pi = p as i64;
            proof {
                let dx = (next.x as int) - (prev.x as int);
                let dy = (next.y as int) - (prev.y as int);
                assert(-0x1_0000_0000 * (ONE as int) <= dx * (p as int) <= 0x1_0000_0000 * (ONE as int))
                    by (nonlinear_arith)
                    requires -0x1_0000_0000 <= dx <= 0x1_0000_0000, 0 <= p <= ONE;
                assert(-0x1_0000_0000 * (ONE as int) <= dy * (p as int) <= 0x1_0000_0000 * (ONE as int))
                    by (nonlinear_arith)
                    requires -0x1_0000_0000 <= dy <= 0x1_0000_0000, 0 <= p <= ONE;
                assert(p == segment_progress(prev, next, elapsed_ms as int));
            }
            let x = (prev.x as i64) * (ONE as i64) + ((next.x as i64) - (prev.x as i64)) * pi;
            let y = (prev.y as i64) * (ONE as i64) + ((next.y as i64) - (prev.y as i64)) * pi;
            proof {
                assert((prev.scale as int) * (ONE - p) + (next.scale as int) * (p as int)
                    <= 0xffff_ffff * (ONE as int)) by (nonlinear_arith)
                    requires p <= ONE, prev.scale <= 0xffff_ffffu32, next.scale <= 0xffff_ffffu32;
                assert(0 <= (prev.scale as int) * (ONE - p)) by (nonlinear_arith)
                    requires p <= ONE;
                assert(0 <= (next.scale as int) * (p as int)) by (nonlinear_arith)
                    requires 0 <= p;
            }
            let s = ((prev.scale as u64) * (ONE as u64 - p) + (next.scale as u64) * p) / (ONE as u64);
            proof {
                assert(s <= 0xffff_ffff) by (nonlinear_arith)
                    requires
                        s == ((prev.scale as int) * (ONE - p) + (next.scale as int) * (p as int))
                            / (ONE as int),
                        (prev.scale as int) * (ONE - p) + (next.scale as int) * (p as int)
                            <= 0xffff_ffff * (ONE as int);
            }
            let scale = if s < MIN_SCALE as u64 {
                MIN_SCALE
            } else {
                s as u32
            };
            proof {
                let pp = segment_progress(kfs@[i - 1], kfs@[i as int], elapsed_ms as int);
                assert(x == lerp_fixed(kfs@[i - 1].x, kfs@[i as int].x, pp));
                assert(y == lerp_fixed(kfs@[i - 1].y, kfs@[i as int].y, pp));
                assert(scale == lerp_scale(kfs@[i - 1].scale, kfs@[i as int].scale, pp));
            }
            return PreciseTransform { x, y, scale };
        }
        i = i + 1;
    }
    let last = kfs[kfs.len() - 1];
    PreciseTransform {
        x: (last.x as i64) * (ONE as i64),
        y: (last.y as i64) * (ONE as i64),
        scale: if last.scale < MIN_SCALE {
            MIN_SCALE
        } else {
            last.scale
        },
    }
}

/// `Some(n)` for a positive repeat count; 0 (forever) and none give `None`.
pub fn repeat_count_to_iterations(repeat_count: Option<u32>) -> (r: Option<u32>)
    ensures
        r == (match repeat_count {
            Some(n) if n != 0 => Some(n),
            _ => None,
        }),
{
    match repeat_count {
        Some(0) | None => None,
        Some(value) => Some(value),
    }
}

/// Length of one pass of the keyframe animation: the last keyframe's time.
pub fn animation_length_ms(animation: &ImageAnimation) -> (r: u32)
    ensures
        r == (if animation.keyframes@.len() == 0 {
            0
        } else {
            animation.keyframes@.last().timestamp_ms
        }),
{
    if animation.keyframes.len() == 0 {
        0
    } else {
        animation.keyframes[animation.keyframes.len() - 1].timestamp_ms
    }
}

/// Whole passes of the animation are taken off `anim` ms one at a time,
/// each counted; counting stops, pinned at the end of a pass, once `limit`
/// passes are reached or the item is already complete.
pub open spec fn run_passes(anim: int, done: int, cycle: int, limit: Option<u32>, complete: bool) -> (
    int,
    int,
    bool,
)
    decreases anim,
{
    if cycle <= 0 || anim < cycle {
        (anim, done, complete)
    } else {
        let d = if done >= u32::MAX { u32::MAX as int } else { done + 1 };
        let reached = match limit {
            Some(m) => m != 0 && d >= m,
            None => false,
        };
        if reached || complete {
            (cycle, d, true)
        } else {
            run_passes(anim - cycle, d, cycle, limit, complete)
        }
    }
}

/// `a / b` rounded down, for `b > 0`.
pub(crate) fn floor_div(a: i128, b: i128) -> (r: i128)
    requires
        b > 0,
        -0x1000_0000_0000_0000_0000_0000 <= a <= 0x1000_0000_0000_0000_0000_0000,
    ensures
        r == a / b,
{
    if a >= 0 {
        a / b
    } else {
        let q = (-a - 1) / b;
        proof {
            let (ai, bi, qi) = (a as int, b as int, q as int);
            let rr = (-ai - 1) % bi;
            assert(-ai - 1 == qi * bi + rr && 0 <= rr < bi) by (nonlinear_arith)
                requires qi == (-ai - 1) / bi, rr == (-ai - 1) % bi, bi > 0, -ai - 1 >= 0;
            assert(ai == (-qi - 1) * bi + (bi - rr - 1)) by (nonlinear_arith)
                requires -ai - 1 == qi * bi + rr;
            assert(ai / bi == -qi - 1) by (nonlinear_arith)
                requires ai == (-qi - 1) * bi + (bi - rr - 1), 0 <= bi - rr - 1 < bi, bi > 0;
        }
        -q - 1
    }
}

/// Where an image of `w` x `h` pixels lands under transform `t`: the first
/// and one-past-last panel columns and rows it covers (at least one each).
pub open spec fn covered(t: PreciseTransform, w: int, h: int) -> (int, int, int, int) {
    let scale = if t.scale < MIN_SCALE { MIN_SCALE as int } else { t.scale as int };
    let sx = (t.x as int) / (ONE as int);
    let ex0 = -((-(t.x as int + w * scale)) / (ONE as int));
    let sy = (t.y as int) / (ONE as int);
    let ey0 = -((-(t.y as int + h * scale)) / (ONE as int));
    (sx, if ex0 <= sx { sx + 1 } else { ex0 }, sy, if ey0 <= sy { sy + 1 } else { ey0 })
}

/// The source column or row that panel position `p` samples, nearest
/// neighbour, kept within `[0, len)`.
pub open spec fn source_index(p: int, offset: int, scale: int, len: int) -> int {
    let s = if scale < MIN_SCALE { MIN_SCALE as int } else { scale };
    let num = p * (ONE as int) - offset;
    if num < 0 {
        0
    } else if num / s > len - 1 {
        len - 1
    } else {
        num / s
    }
}

fn source_index_at(p: i64, offset: i64, scale: u32, len: u32) -> (r: u32)
    requires
        len > 0,
        0 <= p <= i32::MAX,
        -0x2_0000_0000_0000 <= offset <= 0x2_0000_0000_0000,
    ensures
        r == source_index(p as int, offset as int, scale as int, len as int),
        r < len,
{
    let s: i128 = if scale < MIN_SCALE {
        MIN_SCALE as i128
    } else {
        scale as i128
    };
    let num = (p as i128) * (ONE as i128) - (offset as i128);
    if num < 0 {
        0
    } else if num / s > (len - 1) as i128 {
        len - 1
    } else {
        (num / s) as u32
    }
}

/// Renders an image item; an image that could not be decoded draws nothing
/// and completes at once.
pub struct ImageRenderer {
    ctx: RenderContext,
    image_id: String,
    transform: ImageTransform,
    keyframes: Option<Vec<ImageKeyframe>>,
    decoded: Option<DecodedImage>,
    duration_seconds: Option<u64>,
    elapsed_ms: u64,
    animation_elapsed_ms: u64,
    completed_iterations: u32,
    max_iterations: Option<u32>,
    complete: bool,
}

fn copy_keyframes(v: &Vec<ImageKeyframe>) -> (r: Vec<ImageKeyframe>)
    ensures
        r@ == v@,
{
    let mut out: Vec<ImageKeyframe> = Vec::new();
    let mut i: usize = 0;
    while i < v.len()
        invariant
            i <= v@.len(),
            out@ == v@.subrange(0, i as int),
        decreases v@.len() - i,
    {
        out.push(v[i]);
        i = i + 1;
        assert(out@ =~= v@.subrange(0, i as int));
    }
    assert(out@ =~= v@);
    out
}

impl ImageRenderer {
    pub closed spec fn spec_ctx(&self) -> RenderContext {
        self.ctx
    }

    pub closed spec fn spec_image_id(&self) -> Seq<char> {
        self.image_id@
    }

    pub closed spec fn spec_transform(&self) -> ImageTransform {
        self.transform
    }

    pub closed spec fn spec_keyframes(&self) -> Option<Seq<ImageKeyframe>> {
        match self.keyframes {
            Some(k) => Some(k@),
            None => None,
        }
    }

    pub closed spec fn spec_decoded(&self) -> Option<DecodedImage> {
        self.decoded
    }

    pub closed spec fn spec_duration(&self) -> Option<u64> {
        self.duration_seconds
    }

    pub closed spec fn spec_elapsed(&self) -> int {
        self.elapsed_ms as int
    }

    pub closed spec fn spec_animation_elapsed(&self) -> int {
        self.animation_elapsed_ms as int
    }

    pub closed spec fn spec_completed_iterations(&self) -> int {
        self.completed_iterations as int
    }

    pub closed spec fn spec_max_iterations(&self) -> Option<u32> {
        self.max_iterations
    }

    pub closed spec fn spec_complete(&self) -> bool {
        self.complete
    }

    pub open spec fn well_formed(&self) -> bool {
        &&& self.spec_ctx().well_formed()
        &&& self.spec_decoded() matches Some(img) ==> img.well_formed()
        &&& 0 <= self.spec_elapsed()
        &&& 0 <= self.spec_animation_elapsed()
        &&& 0 <= self.spec_completed_iterations()
    }

    /// Length of one pass, when the image moves along at least two keyframes.
    pub open spec fn pass_length(&self) -> Option<int> {
        match self.spec_keyframes() {
            Some(k) if k.len() >= 2 => Some(if k.last().timestamp_ms == 0 {
                1
            } else {
                k.last().timestamp_ms as int
            }),
            _ => None,
        }
    }

    /// The placement for the current frame.
    pub open spec fn current_transform(&self) -> PreciseTransform {
        match self.spec_keyframes() {
            Some(k) if k.len() >= 2 => keyframe_transform(k, 1, self.spec_animation_elapsed()),
            _ => precise(self.spec_transform()),
        }
    }

    /// A renderer for an image item with its decoded pixels, if any.
    pub fn new(item: &PlayListItem, ctx: RenderContext, decoded: Option<DecodedImage>) -> (r: Self)
        requires
            item.content.data is Image,
            ctx.well_formed(),
            decoded matches Some(img) ==> img.well_formed(),
        ensures
            r.well_formed(),
            r.spec_ctx() == ctx,
            r.spec_decoded() == decoded,
            r.spec_image_id() == item.content.data->Image_0.image_id@,
            r.spec_transform() == item.content.data->Image_0.transform,
            r.spec_keyframes() == (match item.content.data->Image_0.animation {
                Some(a) => Some(a.keyframes@),
                None => None,
            }),
            r.spec_duration() == item.duration,
            r.spec_max_iterations() == (match item.repeat_count {
                Some(n) if n != 0 => Some(n),
                _ => None,
            }),
            r.spec_elapsed() == 0,
            r.spec_animation_elapsed() == 0,
            r.spec_completed_iterations() == 0,
            r.spec_complete() == (decoded is None),
    {
        let (image_id, transform, keyframes) = match &item.content.data {
            ContentDetails::Image(c) => (
                c.image_id.clone(),
                c.transform,
                match &c.animation {
                    Some(a) => Some(copy_keyframes(&a.keyframes)),
                    None => None,
                },
            ),
            _ => (String::new(), ImageTransform { x: 0, y: 0, scale: ONE }, None),
        };
        let complete = decoded.is_none();
        ImageRenderer {
            ctx,
            image_id,
            transform,
            keyframes,
            decoded,
            duration_seconds: item.duration,
            elapsed_ms: 0,
            animation_elapsed_ms: 0,
            completed_iterations: 0,
            max_iterations: repeat_count_to_iterations(item.repeat_count),
            complete,
        }
    }

    /// Whether the display cycle is over.
    pub fn is_complete(&self) -> (r: bool)
        ensures
            r == self.spec_complete(),
    {
        self.complete
    }

    /// Advances by `dt_ms`: the duration clock, and the animation, whose
    /// whole passes are counted against the repeat count.
    pub fn update(&mut self, dt_ms: u64)
        requires
            old(self).well_formed(),
        ensures
            final(self).well_formed(),
            final(self).spec_ctx() == old(self).spec_ctx(),
            final(self).spec_decoded() == old(self).spec_decoded(),
            final(self).spec_image_id() == old(self).spec_image_id(),
            final(self).spec_transform() == old(self).spec_transform(),
            final(self).spec_keyframes() == old(self).spec_keyframes(),
            final(self).spec_duration() == old(self).spec_duration(),
            final(self).spec_max_iterations() == old(self).spec_max_iterations(),
            old(self).spec_decoded() is None ==> final(self).spec_complete(),
            old(self).spec_decoded() is Some && old(self).spec_complete() ==> final(self).spec_complete(),
            old(self).spec_decoded() is Some && !old(self).spec_complete() ==> ({
                let elapsed = if old(self).spec_elapsed() + dt_ms > u64::MAX {
                    u64::MAX as int
                } else {
                    old(self).spec_elapsed() + dt_ms
                };
                let timed_out = match old(self).spec_duration() {
                    Some(d) => elapsed >= d * 1000,
                    None => false,
                };
                let anim = if old(self).spec_animation_elapsed() + dt_ms > u64::MAX {
                    u64::MAX as int
                } else {
                    old(self).spec_animation_elapsed() + dt_ms
                };
                &&& old(self).spec_duration() is Some ==> final(self).spec_elapsed() == elapsed
                &&& match old(self).pass_length() {
                    Some(cycle) => {
                        let (a, d, c) = run_passes(
                            anim,
                            old(self).spec_completed_iterations(),
                            cycle,
                            old(self).spec_max_iterations(),
                            timed_out,
                        );
                        final(self).spec_animation_elapsed() == a
                            && final(self).spec_completed_iterations() == d
                            && final(self).spec_complete() == c
                    },
                    None => final(self).spec_complete() == timed_out,
                }
            }),
    {
        if self.decoded.is_none() {
            self.complete = true;
            return;
        }
        if self.complete {
            return;
        }
        if let Some(d) = self.duration_seconds {
            self.elapsed_ms = self.elapsed_ms.saturating_add(dt_ms);
            if self.elapsed_ms as u128 >= (d as u128) * 1000 {
                self.complete = true;
            }
        }
        let cycle_opt: Option<u64> = match &self.keyframes {
            Some(k) => if k.len() >= 2 {
                let last = k[k.len() - 1].timestamp_ms as u64;
                Some(if last == 0 { 1 } else { last })
            } else {
                None
            },
            None => None,
        };
        if let Some(cycle) = cycle_opt {
            self.animation_elapsed_ms = self.animation_elapsed_ms.saturating_add(dt_ms);
            let ghost limit = self.max_iterations;
            let ghost timed_out = self.complete;
            assert(old(self).pass_length() == Some(cycle as int));
            assert(timed_out == (match old(self).spec_duration() {
                Some(d) => self.elapsed_ms >= d * 1000,
                None => false,
            }));
            while self.animation_elapsed_ms >= cycle
                invariant
                    cycle > 0,
                    old(self).pass_length() == Some(cycle as int),
                    timed_out == (match old(self).spec_duration() {
                        Some(d) => self.elapsed_ms >= d * 1000,
                        None => false,
                    }),
                    self.max_iterations == limit,
                    limit == old(self).max_iterations,
                    self.well_formed(),
                    self.complete == timed_out,
                    self.ctx == old(self).ctx,
                    self.decoded == old(self).decoded,
                    self.image_id == old(self).image_id,
                    self.transform == old(self).transform,
                    self.keyframes == old(self).keyframes,
                    self.duration_seconds == old(self).duration_seconds,
                    self.elapsed_ms == (if old(self).duration_seconds is Some {
                        if old(self).elapsed_ms + dt_ms > u64::MAX {
                            u64::MAX as int
                        } else {
                            old(self).elapsed_ms + dt_ms
                        }
                    } else {
                        old(self).elapsed_ms as int
                    }),
                    run_passes(
                        (if old(self).animation_elapsed_ms + dt_ms > u64::MAX {
                            u64::MAX as int
                        } else {
                            old(self).animation_elapsed_ms + dt_ms
                        }),
                        old(self).completed_iterations as int,
                        cycle as int,
                        limit,
                        timed_out,
                    ) == run_passes(
                        self.animation_elapsed_ms as int,
                        self.completed_iterations as int,
                        cycle as int,
                        limit,
                        timed_out,
                    ),
                decreases self.animation_elapsed_ms,
            {
                let ghost before_anim = self.animation_elapsed_ms as int;
                let ghost before_done = self.completed_iterations as int;
                self.completed_iterations = self.completed_iterations.saturating_add(1);
                let reached = match self.max_iterations {
                    Some(m) => m != 0 && self.completed_iterations >= m,
                    None => false,
                };
                if reached || self.complete {
                    self.animation_elapsed_ms = cycle;
                    self.complete = true;
                    assert(run_passes(before_anim, before_done, cycle as int, limit, timed_out) == (
                        cycle as int,
                        self.completed_iterations as int,
                        true,
                    ));
                    return;
                }
                self.animation_elapsed_ms = self.animation_elapsed_ms - cycle;
                assert(run_passes(before_anim, before_done, cycle as int, limit, timed_out)
                    == run_passes(
                    self.animation_elapsed_ms as int,
                    self.completed_iterations as int,
                    cycle as int,
                    limit,
                    timed_out,
                ));
            }
        }
    }

    /// Back to the start of the item.
    pub fn reset(&mut self)
        ensures
            final(self).spec_elapsed() == 0,
            final(self).spec_animation_elapsed() == 0,
            final(self).spec_completed_iterations() == 0,
            !final(self).spec_complete(),
            final(self).spec_ctx() == old(self).spec_ctx(),
            final(self).spec_decoded() == old(self).spec_decoded(),
            final(self).spec_image_id() == old(self).spec_image_id(),
            final(self).spec_transform() == old(self).spec_transform(),
            final(self).spec_keyframes() == old(self).spec_keyframes(),
            final(self).spec_duration() == old(self).spec_duration(),
            final(self).spec_max_iterations() == old(self).spec_max_iterations(),
    {
        self.elapsed_ms = 0;
        self.animation_elapsed_ms = 0;
        self.completed_iterations = 0;
        self.complete = false;
    }

    pub fn update_context(&mut self, ctx: RenderContext)
        requires
            old(self).well_formed(),
            ctx.well_formed(),
        ensures
            final(self).well_formed(),
            final(self).spec_ctx() == ctx,
            final(self).spec_elapsed() == old(self).spec_elapsed(),
            final(self).spec_animation_elapsed() == old(self).spec_animation_elapsed(),
            final(self).spec_completed_iterations() == old(self).spec_completed_iterations(),
            final(self).spec_complete() == old(self).spec_complete(),
            final(self).spec_decoded() == old(self).spec_decoded(),
            final(self).spec_keyframes() == old(self).spec_keyframes(),
            final(self).spec_image_id() == old(self).spec_image_id(),
            final(self).spec_transform() == old(self).spec_transform(),
            final(self).spec_duration() == old(self).spec_duration(),
            final(self).spec_max_iterations() == old(self).spec_max_iterations(),
    {
        self.ctx = ctx;
    }

    /// The image id this renderer shows.
    pub fn image_id(&self) -> (r: &String)
        ensures
            r@ == self.spec_image_id(),
    {
        &self.image_id
    }

    /// New placement, timing or image for this item; the clocks and pass
    /// count carry on. The caller hands over the pixels for the new image when
    /// its id changed; an image without pixels is complete at once.
    pub fn update_content(&mut self, item: &PlayListItem, decoded: Option<DecodedImage>)
        requires
            old(self).well_formed(),
            decoded matches Some(img) ==> img.well_formed(),
        ensures
            final(self).well_formed(),
            final(self).spec_ctx() == old(self).spec_ctx(),
            item.content.data is Image ==> {
                &&& final(self).spec_image_id() == item.content.data->Image_0.image_id@
                &&& final(self).spec_transform() == item.content.data->Image_0.transform
                &&& final(self).spec_decoded() == (if item.content.data->Image_0.image_id@ != old(
                    self,
                ).spec_image_id() {
                    decoded
                } else {
                    old(self).spec_decoded()
                })
                &&& final(self).spec_keyframes() == (match item.content.data->Image_0.animation {
                    Some(a) => Some(a.keyframes@),
                    None => None,
                })
                &&& final(self).spec_duration() == item.duration
                &&& final(self).spec_max_iterations() == (match item.repeat_count {
                    Some(n) if n != 0 => Some(n),
                    _ => None,
                })
                &&& final(self).spec_complete() == (old(self).spec_complete()
                    || final(self).spec_decoded() is None)
            },
            final(self).spec_elapsed() == old(self).spec_elapsed(),
            final(self).spec_animation_elapsed() == old(self).spec_animation_elapsed(),
            final(self).spec_completed_iterations() == old(self).spec_completed_iterations(),
            !(item.content.data is Image) ==> final(self).spec_decoded() == old(self).spec_decoded()
                && final(self).spec_complete() == old(self).spec_complete(),
    {
        if let ContentDetails::Image(c) = &item.content.data {
            if self.image_id != c.image_id {
                self.decoded = decoded;
            }
            self.image_id = c.image_id.clone();
            self.transform = c.transform;
            self.keyframes = match &c.animation {
                Some(a) => Some(copy_keyframes(&a.keyframes)),
                None => None,
            };
            self.duration_seconds = item.duration;
            self.max_iterations = repeat_count_to_iterations(item.repeat_count);
            if self.decoded.is_none() {
                self.complete = true;
            }
        }
    }

    /// What pixel (`x`, `y`) shows after the image is drawn over `prior`:
    /// inside the display and the image's footprint, the nearest source
    /// pixel at the user brightness.
    pub open spec fn image_shown(&self, prior: Rgb, x: int, y: int) -> Rgb {
        match self.spec_decoded() {
            None => prior,
            Some(img) => {
                let t = self.current_transform();
                let (sx, ex, sy, ey) = covered(t, img.spec_width(), img.spec_height());
                let ctx = self.spec_ctx();
                if 0 <= x < ctx.display_width && 0 <= y < ctx.display_height && sx <= x < ex && sy
                    <= y < ey {
                    RenderContext::dimmed(
                        img.color_at(
                            source_index(x, t.x as int, t.scale as int, img.spec_width()),
                            source_index(y, t.y as int, t.scale as int, img.spec_height()),
                        ),
                        ctx.brightness as int,
                    )
                } else {
                    prior
                }
            },
        }
    }

    fn current(&self) -> (r: PreciseTransform)
        ensures
            r == self.current_transform(),
            -0x2_0000_0000_0000 <= r.x <= 0x2_0000_0000_0000,
            -0x2_0000_0000_0000 <= r.y <= 0x2_0000_0000_0000,
    {
        match &self.keyframes {
            Some(k) => {
                if k.len() >= 2 {
                    let anim = ImageAnimation { keyframes: copy_keyframes(k), iterations: None };
                    let t = interpolate_transform(&anim, self.animation_elapsed_ms);
                    proof {
                        lemma_keyframe_transform_bounded(k@, 1, self.animation_elapsed_ms as int);
                    }
                    return t;
                }
            },
            None => {},
        }
        PreciseTransform {
            x: (self.transform.x as i64) * (ONE as i64),
            y: (self.transform.y as i64) * (ONE as i64),
            scale: self.transform.scale,
        }
    }

    /// Draws the image, clipped to the display.
    pub fn render(&self, canvas: &mut Canvas)
        requires
            self.well_formed(),
            old(canvas).well_formed(),
        ensures
            final(canvas).well_formed(),
            final(canvas).runs() == old(canvas).runs(),
            final(canvas).spec_width() == old(canvas).spec_width(),
            final(canvas).spec_height() == old(canvas).spec_height(),
            forall|px: int, py: int|
                old(canvas).in_bounds(px, py) ==> #[trigger] final(canvas).at(px, py)
                    == self.image_shown(old(canvas).at(px, py), px, py),
    {
        let img = match &self.decoded {
            Some(img) => img,
            None => return,
        };
        let ghost start = *canvas;
        let t = self.current();
        let scale: i128 = if t.scale < MIN_SCALE {
            MIN_SCALE as i128
        } else {
            t.scale as i128
        };
        let w = img.width();
        let h = img.height();
        proof {
            assert((w as int) * (scale as int) <= 0xffff_ffff * 0xffff_ffff) by (nonlinear_arith)
                requires w <= 0xffff_ffffu32, 0 <= scale <= 0xffff_ffff;
            assert((h as int) * (scale as int) <= 0xffff_ffff * 0xffff_ffff) by (nonlinear_arith)
                requires h <= 0xffff_ffffu32, 0 <= scale <= 0xffff_ffff;
            assert(0 <= (w as int) * (scale as int)) by (nonlinear_arith)
                requires 0 <= scale;
            assert(0 <= (h as int) * (scale as int)) by (nonlinear_arith)
                requires 0 <= scale;
        }
        let sx = floor_div(t.x as i128, ONE as i128);
        let ex0 = -floor_div(-((t.x as i128) + (w as i128) * scale), ONE as i128);
        let ex = if ex0 <= sx {
            sx + 1
        } else {
            ex0
        };
        let sy = floor_div(t.y as i128, ONE as i128);
        let ey0 = -floor_div(-((t.y as i128) + (h as i128) * scale), ONE as i128);
        let ey = if ey0 <= sy {
            sy + 1
        } else {
            ey0
        };
        let width = self.ctx.display_width as i128;
        let height = self.ctx.display_height as i128;
        let x_lo: i64 = if sx < 0 { 0 } else if sx > width { width as i64 } else { sx as i64 };
        let x_hi: i64 = if ex < x_lo as i128 { x_lo } else if ex > width { width as i64 } else { ex as i64 };
        let y_lo: i64 = if sy < 0 { 0 } else if sy > height { height as i64 } else { sy as i64 };
        let y_hi: i64 = if ey < y_lo as i128 { y_lo } else if ey > height { height as i64 } else { ey as i64 };
        let mut py: i64 = y_lo;
        while py < y_hi
            invariant
                self.well_formed(),
                self.spec_decoded() == Some(*img),
                t == self.current_transform(),
                -0x2_0000_0000_0000 <= t.x <= 0x2_0000_0000_0000,
                -0x2_0000_0000_0000 <= t.y <= 0x2_0000_0000_0000,
                (sx as int, ex as int, sy as int, ey as int) == covered(t, w as int, h as int),
                w == img.spec_width(),
                h == img.spec_height(),
                0 <= x_lo <= x_hi <= self.spec_ctx().display_width,
                0 <= y_lo <= py <= y_hi,
                y_hi <= self.spec_ctx().display_height,
                x_lo == (if sx < 0 { 0 } else if sx > self.spec_ctx().display_width {
                    self.spec_ctx().display_width as int } else { sx as int }),
                x_hi == (if ex < x_lo { x_lo as int } else if ex > self.spec_ctx().display_width {
                    self.spec_ctx().display_width as int } else { ex as int }),
                y_lo == (if sy < 0 { 0 } else if sy > self.spec_ctx().display_height {
                    self.spec_ctx().display_height as int } else { sy as int }),
                y_hi == (if ey < y_lo { y_lo as int } else if ey > self.spec_ctx().display_height {
                    self.spec_ctx().display_height as int } else { ey as int }),
                canvas.well_formed(),
                canvas.spec_width() == start.spec_width(),
                canvas.spec_height() == start.spec_height(),
                canvas.runs() == start.runs(),
                forall|px: int, qy: int|
                    start.in_bounds(px, qy) ==> #[trigger] canvas.at(px, qy) == if x_lo <= px < x_hi
                        && y_lo <= qy < py {
                        self.image_shown(start.at(px, qy), px, qy)
                    } else {
                        start.at(px, qy)
                    },
            decreases y_hi - py,
        {
            let src_y = source_index_at(py, t.y, t.scale, h);
            let mut px: i64 = x_lo;
            while px < x_hi
                invariant
                    self.well_formed(),
                    self.spec_decoded() == Some(*img),
                    t == self.current_transform(),
                    -0x2_0000_0000_0000 <= t.x <= 0x2_0000_0000_0000,
                    -0x2_0000_0000_0000 <= t.y <= 0x2_0000_0000_0000,
                    (sx as int, ex as int, sy as int, ey as int) == covered(t, w as int, h as int),
                    w == img.spec_width(),
                    h == img.spec_height(),
                    0 <= x_lo <= px <= x_hi,
                    x_hi <= self.spec_ctx().display_width,
                    0 <= y_lo <= py < y_hi,
                    y_hi <= self.spec_ctx().display_height,
                    src_y == source_index(py as int, t.y as int, t.scale as int, h as int),
                    src_y < h,
                x_lo == (if sx < 0 { 0 } else if sx > self.spec_ctx().display_width {
                    self.spec_ctx().display_width as int } else { sx as int }),
                x_hi == (if ex < x_lo { x_lo as int } else if ex > self.spec_ctx().display_width {
                    self.spec_ctx().display_width as int } else { ex as int }),
                y_lo == (if sy < 0 { 0 } else if sy > self.spec_ctx().display_height {
                    self.spec_ctx().display_height as int } else { sy as int }),
                y_hi == (if ey < y_lo { y_lo as int } else if ey > self.spec_ctx().display_height {
                    self.spec_ctx().display_height as int } else { ey as int }),
                    canvas.well_formed(),
                    canvas.spec_width() == start.spec_width(),
                    canvas.spec_height() == start.spec_height(),
                    canvas.runs() == start.runs(),
                canvas.runs() == start.runs(),
                    forall|qx: int, qy: int|
                        start.in_bounds(qx, qy) ==> #[trigger] canvas.at(qx, qy) == if x_lo <= qx
                            < x_hi && (y_lo <= qy < py || (qy == py && x_lo <= qx < px)) {
                            self.image_shown(start.at(qx, qy), qx, qy)
                        } else {
                            start.at(qx, qy)
                        },
                decreases x_hi - px,
            {
                let src_x = source_index_at(px, t.x, t.scale, w);
                let color = self.ctx.apply_brightness(img.sample(src_x, src_y));
                canvas.set_pixel(px, py, color);
                px = px + 1;
            }
            py = py + 1;
        }
    }
}

/// Every placement along the keyframes stays within a few times `2^47`
/// of the origin.
proof fn lemma_keyframe_transform_bounded(kfs: Seq<ImageKeyframe>, i: int, elapsed: int)
    requires
        kfs.len() >= 2,
        i >= 1,
    ensures
        -0x2_0000_0000_0000 <= keyframe_transform(kfs, i, elapsed).x <= 0x2_0000_0000_0000,
        -0x2_0000_0000_0000 <= keyframe_transform(kfs, i, elapsed).y <= 0x2_0000_0000_0000,
    decreases kfs.len() - i,
{
    if i >= kfs.len() {
    } else if elapsed <= kfs[i].timestamp_ms {
        let p = segment_progress(kfs[i - 1], kfs[i], elapsed);
        let (ax, bx) = (kfs[i - 1].x as int, kfs[i].x as int);
        let (ay, by) = (kfs[i - 1].y as int, kfs[i].y as int);
        assert(0 <= p <= ONE);
        assert(-0x2_0000_0000_0000 <= ax * (ONE as int) + (bx - ax) * p <= 0x2_0000_0000_0000)
            by (nonlinear_arith)
            requires -0x8000_0000 <= ax < 0x8000_0000, -0x8000_0000 <= bx < 0x8000_0000, 0 <= p <= ONE;
        assert(-0x2_0000_0000_0000 <= ay * (ONE as int) + (by - ay) * p <= 0x2_0000_0000_0000)
            by (nonlinear_arith)
            requires -0x8000_0000 <= ay < 0x8000_0000, -0x8000_0000 <= by < 0x8000_0000, 0 <= p <= ONE;
    } else {
        lemma_keyframe_transform_bounded(kfs, i + 1, elapsed);
    }
}

} // verus!
