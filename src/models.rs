//! What a playlist holds: items, their content variants and border effects.
use vstd::prelude::*;
use crate::color::Rgb;
use crate::fixed::ONE;

verus! {

/// Which renderer an item's content calls for.
#[derive(Clone, Copy, Debug, PartialEq, Eq, Structural)]
pub enum ContentType {
    Text,
    Image,
    Animation,
    Clock,
}

impl Default for ContentType {
    fn default() -> (r: Self)
        ensures
            r == ContentType::Text,
    {
        ContentType::Text
    }
}

/// Styling flags of a text segment.
#[derive(Clone, Copy, Debug, PartialEq, Eq, Structural)]
pub struct TextFormatting {
    pub bold: bool,
    pub underline: bool,
    pub strikethrough: bool,
}

impl Default for TextFormatting {
    fn default() -> (r: Self)
        ensures
            !r.bold && !r.underline && !r.strikethrough,
    {
        TextFormatting { bold: false, underline: false, strikethrough: false }
    }
}

/// A character range `[start, end)` of a text with its own colour and styling.
#[derive(Clone, Copy, Debug)]
pub struct TextSegment {
    pub start: usize,
    pub end: usize,
    pub color: Option<Rgb>,
    pub formatting: Option<TextFormatting>,
}

/// Text content; `speed` is the scroll speed in pixels per second.
#[derive(Clone, Debug)]
pub struct TextContent {
    pub text: String,
    pub scroll: bool,
    pub color: Rgb,
    pub speed: u32,
    pub text_segments: Option<Vec<TextSegment>>,
}

/// Placement of an image: offset in pixels and scale as a fraction of `ONE`.
#[derive(Clone, Copy, Debug, PartialEq, Eq, Structural)]
pub struct ImageTransform {
    pub x: i32,
    pub y: i32,
    pub scale: u32,
}

impl Default for ImageTransform {
    fn default() -> (r: Self)
        ensures
            r.x == 0 && r.y == 0 && r.scale == ONE,
    {
        ImageTransform { x: 0, y: 0, scale: default_scale() }
    }
}

/// The default image scale, 1.
pub fn default_scale() -> (r: u32)
    ensures
        r == ONE,
{
    ONE
}

/// An image placement at a point in time of its animation.
#[derive(Clone, Copy, Debug, PartialEq, Eq, Structural)]
pub struct ImageKeyframe {
    pub timestamp_ms: u32,
    pub x: i32,
    pub y: i32,
    pub scale: u32,
}

/// Keyframe motion of an image, looped `iterations` times (`None`: forever).
#[derive(Clone, Debug)]
pub struct ImageAnimation {
    pub keyframes: Vec<ImageKeyframe>,
    pub iterations: Option<u32>,
}

/// An uploaded image and how to place it.
#[derive(Clone, Debug)]
pub struct ImageContent {
    pub image_id: String,
    pub natural_width: u32,
    pub natural_height: u32,
    pub transform: ImageTransform,
    pub animation: Option<ImageAnimation>,
}

/// 24-hour or 12-hour clock face.
#[derive(Clone, Copy, Debug, PartialEq, Eq, Structural)]
pub enum ClockFormat {
    TwentyFourHour,
    TwelveHour,
}

impl Default for ClockFormat {
    fn default() -> (r: Self)
        ensures
            r == ClockFormat::TwentyFourHour,
    {
        ClockFormat::TwentyFourHour
    }
}

/// Seconds are hidden unless asked for.
pub fn default_show_seconds() -> (r: bool)
    ensures
        !r,
{
    false
}

/// Clocks are white unless a colour is given.
pub fn default_clock_color() -> (r: Rgb)
    ensures
        r == [255u8, 255u8, 255u8],
{
    [255, 255, 255]
}

/// A live clock.
#[derive(Clone, Copy, Debug)]
pub struct ClockContent {
    pub format: ClockFormat,
    pub show_seconds: bool,
    pub color: Rgb,
}

/// Procedural animation presets. Fractional parameters are fixed-point values
/// over `ONE`; speeds are in cycles per second.
#[derive(Clone, Debug)]
pub enum AnimationContent {
    Pulse { colors: Vec<Rgb>, cycle_ms: u32 },
    PaletteWave { colors: Vec<Rgb>, cycle_ms: u32, wave_count: u8 },
    DualPulse { colors: Vec<Rgb>, cycle_ms: u32, phase_offset: u32 },
    ColorFade { colors: Vec<Rgb>, drift_speed: u32 },
    Strobe {
        colors: Vec<Rgb>,
        flash_ms: u32,
        fade_ms: u32,
        randomize: bool,
        randomization_factor: u32,
    },
    Sparkle { colors: Vec<Rgb>, density: u32, twinkle_ms: u32 },
    MosaicTwinkle {
        colors: Vec<Rgb>,
        tile_size: u8,
        flow_speed: u32,
        border_size: u8,
        border_color: Rgb,
    },
    Plasma { colors: Vec<Rgb>, flow_speed: u32, noise_scale: u32 },
}

/// Pulse, palette wave and dual pulse loop every two seconds by default.
pub fn default_cycle_ms() -> (r: u32)
    ensures
        r == 2000,
{
    2_000
}

pub fn default_wave_count() -> (r: u8)
    ensures
        r == 3,
{
    3
}

/// Half a cycle.
pub fn default_phase_offset() -> (r: u32)
    ensures
        r == ONE / 2,
{
    ONE / 2
}

/// A quarter of the palette per second.
pub fn default_wash_speed() -> (r: u32)
    ensures
        r == ONE / 4,
{
    ONE / 4
}

pub fn default_flash_ms() -> (r: u32)
    ensures
        r == 180,
{
    180
}

pub fn default_fade_ms() -> (r: u32)
    ensures
        r == 220,
{
    220
}

/// About 0.35.
pub fn default_strobe_randomization_factor() -> (r: u32)
    ensures
        r == 22938,
{
    22938
}

/// About 0.12.
pub fn default_sparkle_density() -> (r: u32)
    ensures
        r == 7864,
{
    7864
}

pub fn default_sparkle_cycle_ms() -> (r: u32)
    ensures
        r == 600,
{
    600
}

pub fn default_mosaic_twinkle_tile_size() -> (r: u8)
    ensures
        r == 1,
{
    1
}

/// About 0.35.
pub fn default_mosaic_twinkle_speed() -> (r: u32)
    ensures
        r == 22938,
{
    22938
}

pub fn default_mosaic_twinkle_border_size() -> (r: u8)
    ensures
        r == 0,
{
    0
}

pub fn default_mosaic_twinkle_border_color() -> (r: Rgb)
    ensures
        r == [50u8, 0u8, 0u8],
{
    [50, 0, 0]
}

/// About 1.85.
pub fn default_plasma_flow_speed() -> (r: u32)
    ensures
        r == 121242,
{
    121242
}

/// 1.75.
pub fn default_plasma_noise_scale() -> (r: u32)
    ensures
        r == 114688,
{
    114688
}

/// An element-by-element copy of a list of colours.
pub fn copy_colors(colors: &Vec<Rgb>) -> (r: Vec<Rgb>)
    ensures
        r@ == colors@,
{
    let mut out: Vec<Rgb> = Vec::new();
    let mut i: usize = 0;
    while i < colors.len()
        invariant
            i <= colors@.len(),
            out@ == colors@.subrange(0, i as int),
        decreases colors@.len() - i,
    {
        out.push(colors[i]);
        i = i + 1;
        assert(out@ =~= colors@.subrange(0, i as int));
    }
    assert(out@ =~= colors@);
    out
}

/// Two presets of the same kind with the same palette and parameters.
pub open spec fn same_preset(a: AnimationContent, b: AnimationContent) -> bool {
    &&& a.colors() == b.colors()
    &&& match (a, b) {
        (AnimationContent::Pulse { cycle_ms: x, .. }, AnimationContent::Pulse { cycle_ms: y, .. }) =>
            x == y,
        (
            AnimationContent::PaletteWave { cycle_ms: x1, wave_count: x2, .. },
            AnimationContent::PaletteWave { cycle_ms: y1, wave_count: y2, .. },
        ) => x1 == y1 && x2 == y2,
        (
            AnimationContent::DualPulse { cycle_ms: x1, phase_offset: x2, .. },
            AnimationContent::DualPulse { cycle_ms: y1, phase_offset: y2, .. },
        ) => x1 == y1 && x2 == y2,
        (
            AnimationContent::ColorFade { drift_speed: x, .. },
            AnimationContent::ColorFade { drift_speed: y, .. },
        ) => x == y,
        (
            AnimationContent::Strobe {
                flash_ms: x1,
                fade_ms: x2,
                randomize: x3,
                randomization_factor: x4,
                ..
            },
            AnimationContent::Strobe {
                flash_ms: y1,
                fade_ms: y2,
                randomize: y3,
                randomization_factor: y4,
                ..
            },
        ) => x1 == y1 && x2 == y2 && x3 == y3 && x4 == y4,
        (
            AnimationContent::Sparkle { density: x1, twinkle_ms: x2, .. },
            AnimationContent::Sparkle { density: y1, twinkle_ms: y2, .. },
        ) => x1 == y1 && x2 == y2,
        (
            AnimationContent::MosaicTwinkle {
                tile_size: x1,
                flow_speed: x2,
                border_size: x3,
                border_color: x4,
                ..
            },
            AnimationContent::MosaicTwinkle {
                tile_size: y1,
                flow_speed: y2,
                border_size: y3,
                border_color: y4,
                ..
            },
        ) => x1 == y1 && x2 == y2 && x3 == y3 && x4 == y4,
        (
            AnimationContent::Plasma { flow_speed: x1, noise_scale: x2, .. },
            AnimationContent::Plasma { flow_speed: y1, noise_scale: y2, .. },
        ) => x1 == y1 && x2 == y2,
        _ => false,
    }
}

impl AnimationContent {
    /// A copy of this preset.
    pub fn duplicate(&self) -> (r: Self)
        ensures
            same_preset(r, *self),
    {
        match self {
            AnimationContent::Pulse { colors, cycle_ms } => AnimationContent::Pulse {
                colors: copy_colors(colors),
                cycle_ms: *cycle_ms,
            },
            AnimationContent::PaletteWave { colors, cycle_ms, wave_count } =>
                AnimationContent::PaletteWave {
                colors: copy_colors(colors),
                cycle_ms: *cycle_ms,
                wave_count: *wave_count,
            },
            AnimationContent::DualPulse { colors, cycle_ms, phase_offset } =>
                AnimationContent::DualPulse {
                colors: copy_colors(colors),
                cycle_ms: *cycle_ms,
                phase_offset: *phase_offset,
            },
            AnimationContent::ColorFade { colors, drift_speed } => AnimationContent::ColorFade {
                colors: copy_colors(colors),
                drift_speed: *drift_speed,
            },
            AnimationContent::Strobe { colors, flash_ms, fade_ms, randomize, randomization_factor } =>
                AnimationContent::Strobe {
                colors: copy_colors(colors),
                flash_ms: *flash_ms,
                fade_ms: *fade_ms,
                randomize: *randomize,
                randomization_factor: *randomization_factor,
            },
            AnimationContent::Sparkle { colors, density, twinkle_ms } => AnimationContent::Sparkle {
                colors: copy_colors(colors),
                density: *density,
                twinkle_ms: *twinkle_ms,
            },
            AnimationContent::MosaicTwinkle {
                colors,
                tile_size,
                flow_speed,
                border_size,
                border_color,
            } => AnimationContent::MosaicTwinkle {
                colors: copy_colors(colors),
                tile_size: *tile_size,
                flow_speed: *flow_speed,
                border_size: *border_size,
                border_color: *border_color,
            },
            AnimationContent::Plasma { colors, flow_speed, noise_scale } =>
                AnimationContent::Plasma {
                colors: copy_colors(colors),
                flow_speed: *flow_speed,
                noise_scale: *noise_scale,
            },
        }
    }

    pub open spec fn colors(&self) -> Seq<Rgb> {
        match self {
            AnimationContent::Pulse { colors, .. } => colors@,
            AnimationContent::PaletteWave { colors, .. } => colors@,
            AnimationContent::DualPulse { colors, .. } => colors@,
            AnimationContent::ColorFade { colors, .. } => colors@,
            AnimationContent::Strobe { colors, .. } => colors@,
            AnimationContent::Sparkle { colors, .. } => colors@,
            AnimationContent::MosaicTwinkle { colors, .. } => colors@,
            AnimationContent::Plasma { colors, .. } => colors@,
        }
    }

    /// Whether the preset's parameters are usable.
    pub open spec fn valid(&self) -> bool {
        &&& self.colors().len() > 0
        &&& match self {
            AnimationContent::Pulse { cycle_ms, .. } => *cycle_ms > 0,
            AnimationContent::PaletteWave { cycle_ms, wave_count, .. } => *cycle_ms > 0
                && *wave_count > 0,
            AnimationContent::DualPulse { cycle_ms, .. } => *cycle_ms > 0,
            AnimationContent::ColorFade { drift_speed, .. } => *drift_speed > 0,
            AnimationContent::Strobe { flash_ms, fade_ms, randomization_factor, .. } => *flash_ms
                > 0 && *fade_ms > 0 && *randomization_factor <= ONE,
            AnimationContent::Sparkle { density, twinkle_ms, .. } => 0 < *density <= ONE
                && *twinkle_ms > 0,
            AnimationContent::MosaicTwinkle { tile_size, flow_speed, border_size, .. } =>
                *tile_size > 0 && *flow_speed > 0 && *border_size <= *tile_size,
            AnimationContent::Plasma { flow_speed, noise_scale, .. } => *flow_speed > 0
                && *noise_scale > 0,
        }
    }

    /// Every preset draws from its palette.
    fn requires_palette(&self) -> (r: bool)
        ensures
            r,
    {
        true
    }

    /// The preset's colour palette.
    pub fn palette(&self) -> (r: &Vec<Rgb>)
        ensures
            r@ == self.colors(),
    {
        match self {
            AnimationContent::Pulse { colors, .. } => colors,
            AnimationContent::PaletteWave { colors, .. } => colors,
            AnimationContent::DualPulse { colors, .. } => colors,
            AnimationContent::ColorFade { colors, .. } => colors,
            AnimationContent::Strobe { colors, .. } => colors,
            AnimationContent::Sparkle { colors, .. } => colors,
            AnimationContent::MosaicTwinkle { colors, .. } => colors,
            AnimationContent::Plasma { colors, .. } => colors,
        }
    }

    /// Checks the parameters; the error names the first one found unusable.
    pub fn validate(&self) -> (r: Result<(), String>)
        ensures
            r is Ok <==> self.valid(),
    {
        let palette_len = self.palette().len();
        if self.requires_palette() && palette_len == 0 {
            return Err("Animation presets require at least one color".to_string());
        }
        match self {
            AnimationContent::Pulse { cycle_ms, .. } | AnimationContent::PaletteWave {
                cycle_ms,
                ..
            } | AnimationContent::DualPulse { cycle_ms, .. } => {
                if *cycle_ms == 0 {
                    return Err("cycle_ms must be greater than zero".to_string());
                }
            },
            AnimationContent::ColorFade { drift_speed, .. } => {
                if *drift_speed == 0 {
                    return Err("drift_speed must be a positive finite value".to_string());
                }
            },
            AnimationContent::Strobe { flash_ms, fade_ms, randomization_factor, .. } => {
                if *flash_ms == 0 {
                    return Err("flash_ms must be greater than zero".to_string());
                }
                if *fade_ms == 0 {
                    return Err("fade_ms must be greater than zero".to_string());
                }
                if *randomization_factor > ONE {
                    return Err("randomization_factor must be between 0.0 and 1.0".to_string());
                }
            },
            AnimationContent::Sparkle { density, twinkle_ms, .. } => {
                if *density == 0 || *density > ONE {
                    return Err("density must be in the range (0, 1]".to_string());
                }
                if *twinkle_ms == 0 {
                    return Err("twinkle_ms must be greater than zero".to_string());
                }
            },
            AnimationContent::MosaicTwinkle { tile_size, flow_speed, border_size, .. } => {
                if *tile_size == 0 {
                    return Err("tile_size must be at least 1".to_string());
                }
                if *flow_speed == 0 {
                    return Err("flow_speed must be a positive finite value".to_string());
                }
                if *border_size > *tile_size {
                    return Err("border_size must be less than or equal to tile_size".to_string());
                }
            },
            AnimationContent::Plasma { flow_speed, noise_scale, .. } => {
                if *flow_speed == 0 {
                    return Err("flow_speed must be a positive finite value".to_string());
                }
                if *noise_scale == 0 {
                    return Err("noise_scale must be a positive finite value".to_string());
                }
            },
        }
        match self {
            AnimationContent::PaletteWave { wave_count, .. } => {
                if *wave_count == 0 {
                    return Err("wave_count must be at least 1".to_string());
                }
            },
            _ => {},
        }
        Ok(())
    }
}

/// The content variant of an item.
#[derive(Clone, Debug)]
pub enum ContentDetails {
    Text(TextContent),
    Image(ImageContent),
    Animation(AnimationContent),
    Clock(ClockContent),
}

/// An item's content with its type tag.
#[derive(Clone, Debug)]
pub struct ContentData {
    pub content_type: ContentType,
    pub data: ContentDetails,
}

impl ContentData {
    /// The tag agrees with the variant.
    pub open spec fn consistent(&self) -> bool {
        match self.data {
            ContentDetails::Text(_) => self.content_type == ContentType::Text,
            ContentDetails::Image(_) => self.content_type == ContentType::Image,
            ContentDetails::Animation(_) => self.content_type == ContentType::Animation,
            ContentDetails::Clock(_) => self.content_type == ContentType::Clock,
        }
    }
}

/// An overlay drawn around the edge of the display.
#[derive(Clone, Debug)]
pub enum BorderEffect {
    Off,
    Rainbow,
    Pulse { colors: Vec<Rgb> },
    Sparkle { colors: Vec<Rgb> },
    Gradient { colors: Vec<Rgb> },
}

impl Default for BorderEffect {
    fn default() -> (r: Self)
        ensures
            r is Off,
    {
        BorderEffect::Off
    }
}

/// One entry of the playlist. Exactly one of `duration` (seconds) and
/// `repeat_count` (cycles, 0 meaning forever) is set.
#[derive(Clone, Debug)]
pub struct PlayListItem {
    pub id: String,
    pub duration: Option<u64>,
    pub repeat_count: Option<u32>,
    pub border_effect: Option<BorderEffect>,
    pub content: ContentData,
}

/// The ordered queue of items and where playback stands in it.
#[derive(Clone, Debug)]
pub struct Playlist {
    pub items: Vec<PlayListItem>,
    pub active_index: usize,
    pub repeat: bool,
}

impl Playlist {
    /// The active index points at an item whenever there is one.
    pub open spec fn well_formed(&self) -> bool {
        self.items@.len() > 0 ==> self.active_index < self.items@.len()
    }
}

impl Default for Playlist {
    fn default() -> (r: Self)
        ensures
            r.items@.len() == 0,
            r.active_index == 0,
            r.repeat,
    {
        Playlist { items: Vec::new(), active_index: 0, repeat: true }
    }
}

/// Whether preview mode is on, as reported to editors.
#[derive(Clone, Copy, Debug, PartialEq, Eq, Structural)]
pub struct PreviewModeState {
    pub active: bool,
}

/// The stored user brightness.
#[derive(Clone, Copy, Debug, PartialEq, Eq, Structural)]
pub struct BrightnessSettings {
    pub brightness: u8,
}

/// A new order for the playlist, by item id.
#[derive(Clone, Debug)]
pub struct ReorderRequest {
    pub item_ids: Vec<String>,
}

/// A string with leading and trailing whitespace removed.
pub uninterp spec fn trimmed(s: Seq<char>) -> Seq<char>;

/// Relies on `str::trim`: the string without surrounding whitespace; it is
/// no longer than the string, so an empty string stays empty.
#[verifier::external_body]
fn trim_str(s: &str) -> (r: &str)
    ensures
        r@ == trimmed(s@),
        r@.len() <= s@.len(),
{
    s.trim()
}

/// Whether a string is empty once surrounding whitespace is trimmed.
pub open spec fn blank(s: Seq<char>) -> bool {
    trimmed(s).len() == 0
}

fn is_blank(s: &String) -> (r: bool)
    ensures
        r == blank(s@),
{
    trim_str(s.as_str()).is_empty()
}

/// The rules an item must meet: exactly one of duration and repeat count;
/// scrolling text and animated images count repeats, everything else runs
/// for a duration; images need an id, a size and, when animated, at least
/// two keyframes; animation presets need usable parameters.
pub open spec fn item_valid(item: PlayListItem) -> bool {
    item_rules(
        item,
        match item.content.data {
            ContentDetails::Image(c) => blank(c.image_id@),
            _ => false,
        },
    )
}

/// [`item_valid`], given whether an image item's id is blank.
pub open spec fn item_rules(item: PlayListItem, id_blank: bool) -> bool {
    let timed = item.duration is Some;
    let counted = item.repeat_count is Some;
    &&& timed != counted
    &&& match item.content.data {
        ContentDetails::Text(t) => counted == t.scroll,
        ContentDetails::Image(c) => !id_blank && c.natural_width > 0 && c.natural_height
            > 0 && match c.animation {
            Some(a) => a.keyframes@.len() >= 2 && counted,
            None => timed,
        },
        ContentDetails::Clock(_) => timed,
        ContentDetails::Animation(a) => timed && a.valid(),
    }
}

impl PlayListItem {
    /// Checks the item against [`item_valid`]; the error says which rule failed.
    pub fn validate(&self) -> (r: Result<(), String>)
        ensures
            r is Ok <==> item_valid(*self),
    {
        let id_blank = match &self.content.data {
            ContentDetails::Image(c) => is_blank(&c.image_id),
            _ => false,
        };
        self.check_rules(id_blank)
    }

    /// Checks the item against [`item_rules`], with `id_blank` telling
    /// whether an image item's id is blank.
    pub fn check_rules(&self, id_blank: bool) -> (r: Result<(), String>)
        ensures
            r is Ok <==> item_rules(*self, id_blank),
    {
        let timed = self.duration.is_some();
        let counted = self.repeat_count.is_some();
        if timed && counted {
            return Err("Both 'duration' and 'repeat_count' cannot be provided together".to_string());
        }
        if !timed && !counted {
            return Err("Either 'duration' or 'repeat_count' must be provided".to_string());
        }
        match &self.content.data {
            ContentDetails::Text(t) => {
                if !t.scroll && counted {
                    return Err(
                        "When 'scroll' is false, 'duration' must be used instead of 'repeat_count'".to_string(),
                    );
                }
                if t.scroll && timed {
                    return Err(
                        "When 'scroll' is true, 'repeat_count' must be used instead of 'duration'".to_string(),
                    );
                }
            },
            ContentDetails::Image(c) => {
                if id_blank {
                    return Err("Image content requires a valid 'image_id'".to_string());
                }
                if c.natural_width == 0 || c.natural_height == 0 {
                    return Err("Image content requires non-zero natural dimensions".to_string());
                }
                match &c.animation {
                    Some(a) => {
                        if a.keyframes.len() < 2 {
                            return Err("Animated images require at least two keyframes".to_string());
                        }
                        if timed {
                            return Err(
                                "Animated images must use 'repeat_count' instead of 'duration'".to_string(),
                            );
                        }
                    },
                    None => {
                        if !timed {
                            return Err(
                                "Static images require 'duration' instead of 'repeat_count'".to_string(),
                            );
                        }
                    },
                }
            },
            ContentDetails::Clock(_) => {
                if !timed {
                    return Err(
                        "Clock content requires 'duration' instead of 'repeat_count'".to_string(),
                    );
                }
            },
            ContentDetails::Animation(a) => {
                if !timed {
                    return Err(
                        "Animation content requires 'duration' instead of 'repeat_count'".to_string(),
                    );
                }
                match a.validate() {
                    Ok(()) => {},
                    Err(e) => {
                        return Err(e);
                    },
                }
            },
        }
        Ok(())
    }
}

} // verus!
