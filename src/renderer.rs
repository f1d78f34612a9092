//! The content renderers as one closed set, and the factory that picks one.
use vstd::prelude::*;
use crate::animation::AnimationRenderer;
use crate::border::{BorderRenderer, effect_matches};
use crate::canvas::Canvas;
use crate::clock::ClockRenderer;
use crate::color::{RenderContext, Rgb};
use crate::image::{ImageRenderer, ImageStore};
use crate::models::{ContentDetails, ContentType, PlayListItem, same_preset};
use crate::text::same_text;
use crate::text::TextRenderer;
use crate::waves::Waveforms;

verus! {

/// A renderer for one kind of content.
pub enum Renderer {
    Text(TextRenderer),
    Image(ImageRenderer),
    Clock(ClockRenderer),
    Animation(AnimationRenderer),
}

impl Renderer {
    /// The content type this renderer draws.
    pub open spec fn kind(&self) -> ContentType {
        match self {
            Renderer::Text(_) => ContentType::Text,
            Renderer::Image(_) => ContentType::Image,
            Renderer::Clock(_) => ContentType::Clock,
            Renderer::Animation(_) => ContentType::Animation,
        }
    }

    pub open spec fn well_formed(&self) -> bool {
        match self {
            Renderer::Text(r) => r.well_formed(),
            Renderer::Image(r) => r.well_formed(),
            Renderer::Clock(r) => r.well_formed(),
            Renderer::Animation(r) => r.well_formed(),
        }
    }

    pub open spec fn context(&self) -> RenderContext {
        match self {
            Renderer::Text(r) => r.spec_ctx(),
            Renderer::Image(r) => r.spec_ctx(),
            Renderer::Clock(r) => r.spec_ctx(),
            Renderer::Animation(r) => r.spec_ctx(),
        }
    }

    /// Whether the item's display cycle is over.
    pub open spec fn complete(&self) -> bool {
        match self {
            Renderer::Text(r) => match r.spec_duration() {
                Some(d) => r.spec_elapsed() >= d * 1000,
                None => match r.spec_repeat_count() {
                    Some(n) => n != 0 && r.spec_completed_scrolls() >= n,
                    None => false,
                },
            },
            Renderer::Image(r) => r.spec_complete(),
            Renderer::Clock(r) => match r.spec_duration() {
                Some(d) => r.spec_elapsed() >= d * 1000,
                None => false,
            },
            Renderer::Animation(r) => match r.spec_duration() {
                Some(d) => r.spec_elapsed() >= d * 1000,
                None => false,
            },
        }
    }

    /// Whether this renderer shows `item`: its content and its timing (the
    /// duration, and the repeat count that ends it).
    pub open spec fn built_from(&self, item: PlayListItem) -> bool {
        match self {
            Renderer::Text(r) => item.content.data is Text && same_text(
                r.spec_content(),
                item.content.data->Text_0,
            ) && r.spec_duration() == item.duration && r.spec_repeat_count() == item.repeat_count,
            Renderer::Image(r) => item.content.data is Image && r.spec_image_id()
                == item.content.data->Image_0.image_id@ && r.spec_transform()
                == item.content.data->Image_0.transform && r.spec_keyframes() == (match item.content.data->Image_0.animation {
                Some(a) => Some(a.keyframes@),
                None => None,
            }) && r.spec_duration() == item.duration && r.spec_max_iterations() == (match item.repeat_count {
                Some(n) if n != 0 => Some(n),
                _ => None,
            }),
            Renderer::Clock(r) => item.content.data is Clock && r.spec_content()
                == item.content.data->Clock_0 && r.spec_duration() == item.duration,
            Renderer::Animation(r) => item.content.data is Animation && same_preset(
                r.spec_content(),
                item.content.data->Animation_0,
            ) && r.spec_duration() == item.duration,
        }
    }

    /// Time shown so far, for the renderers that count it.
    pub open spec fn shown_ms(&self) -> int {
        match self {
            Renderer::Text(r) => r.spec_elapsed(),
            Renderer::Image(r) => r.spec_elapsed(),
            Renderer::Clock(r) => r.spec_elapsed(),
            Renderer::Animation(r) => r.spec_elapsed(),
        }
    }

    /// Advances the renderer's clock by `dt_ms` milliseconds.
    pub fn update(&mut self, dt_ms: u64)
        requires
            old(self).well_formed(),
        ensures
            forall|item: PlayListItem| #[trigger] old(self).built_from(item) ==> final(self).built_from(item),
            final(self).well_formed(),
            final(self).kind() == old(self).kind(),
            final(self).context() == old(self).context(),
            old(self).kind() != ContentType::Image ==> final(self).shown_ms() == (if old(
                self,
            ).shown_ms() + dt_ms > u64::MAX {
                u64::MAX as int
            } else {
                old(self).shown_ms() + dt_ms
            }),
            old(self).complete() && old(self).kind() == ContentType::Image ==> final(self).complete(),
    {
        match self {
            Renderer::Text(r) => r.update(dt_ms),
            Renderer::Image(r) => r.update(dt_ms),
            Renderer::Clock(r) => r.update(dt_ms),
            Renderer::Animation(r) => r.update(dt_ms),
        }
    }

    /// What this renderer leaves at pixel (`x`, `y`) when it paints over
    /// `prior`; `None` for text, whose glyphs are drawn when presenting.
    pub open spec fn painted(&self, waves: Waveforms, prior: Rgb, x: int, y: int) -> Option<Rgb> {
        match self {
            Renderer::Animation(r) => Some(r.shown(waves, prior, x, y)),
            Renderer::Image(r) => Some(r.image_shown(prior, x, y)),
            Renderer::Clock(_) => Some(prior),
            Renderer::Text(_) => None,
        }
    }

    /// The text runs that painting leaves: the text's runs appended, the
    /// clock face appended, an image's left alone, an animation's left alone
    /// or cleared by a fill.
    pub open spec fn runs_rendered(&self, before: Canvas, after: Canvas) -> bool {
        match self {
            Renderer::Text(r) => r.text_rendered(before, after),
            Renderer::Clock(r) => r.clock_rendered(before, after),
            Renderer::Animation(_) => after.runs() == before.runs() || after.runs().len() == 0,
            Renderer::Image(_) => after.runs() == before.runs(),
        }
    }

    /// Paints the current frame.
    pub fn render(&self, canvas: &mut Canvas, waves: &Waveforms)
        requires
            self.well_formed(),
            waves.well_formed(),
            old(canvas).well_formed(),
        ensures
            final(canvas).well_formed(),
            final(canvas).spec_width() == old(canvas).spec_width(),
            final(canvas).spec_height() == old(canvas).spec_height(),
            forall|px: int, py: int|
                old(canvas).in_bounds(px, py) ==> match #[trigger] self.painted(
                    *waves,
                    old(canvas).at(px, py),
                    px,
                    py,
                ) {
                    Some(c) => final(canvas).at(px, py) == c,
                    None => true,
                },
            self.runs_rendered(*old(canvas), *final(canvas)),
    {
        match self {
            Renderer::Text(r) => r.render(canvas),
            Renderer::Image(r) => r.render(canvas),
            Renderer::Clock(r) => r.render(canvas),
            Renderer::Animation(r) => r.render(canvas, waves),
        }
    }

    pub fn is_complete(&self) -> (r: bool)
        ensures
            r == self.complete(),
    {
        match self {
            Renderer::Text(r) => r.is_complete(),
            Renderer::Image(r) => r.is_complete(),
            Renderer::Clock(r) => r.is_complete(),
            Renderer::Animation(r) => r.is_complete(),
        }
    }

    /// Rewinds all animation and timing state.
    pub fn reset(&mut self)
        requires
            old(self).well_formed(),
        ensures
            forall|item: PlayListItem| #[trigger] old(self).built_from(item) ==> final(self).built_from(item),
            final(self).well_formed(),
            final(self).kind() == old(self).kind(),
            final(self).context() == old(self).context(),
            final(self).shown_ms() == 0,
    {
        match self {
            Renderer::Text(r) => r.reset(),
            Renderer::Image(r) => r.reset(),
            Renderer::Clock(r) => r.reset(),
            Renderer::Animation(r) => r.reset(),
        }
    }

    /// New geometry or brightness, animation state kept.
    pub fn update_context(&mut self, ctx: RenderContext)
        requires
            old(self).well_formed(),
            ctx.well_formed(),
        ensures
            forall|item: PlayListItem| #[trigger] old(self).built_from(item) ==> final(self).built_from(item),
            final(self).well_formed(),
            final(self).kind() == old(self).kind(),
            final(self).context() == ctx,
            final(self).shown_ms() == old(self).shown_ms(),
    {
        match self {
            Renderer::Text(r) => r.update_context(ctx),
            Renderer::Image(r) => r.update_context(ctx),
            Renderer::Clock(r) => r.update_context(ctx),
            Renderer::Animation(r) => r.update_context(ctx),
        }
    }

    /// New content of the same type, animation kept where the type allows.
    pub fn update_content(&mut self, item: &PlayListItem, images: &ImageStore)
        requires
            old(self).well_formed(),
            images.well_formed(),
        ensures
            final(self).well_formed(),
            final(self).kind() == old(self).kind(),
            final(self).context() == old(self).context(),
    {
        match self {
            Renderer::Text(r) => r.update_content(item),
            Renderer::Image(r) => {
                let decoded = match &item.content.data {
                    ContentDetails::Image(c) => images.get(&c.image_id),
                    _ => None,
                };
                r.update_content(item, decoded);
            },
            Renderer::Clock(r) => r.update_content(item),
            Renderer::Animation(r) => r.update_content(item),
        }
    }
}

/// The content renderer for an item, chosen by its content type. A type tag
/// that disagrees with the content is a defect of the caller.
pub fn create_renderer(item: &PlayListItem, ctx: RenderContext, images: &ImageStore) -> (r: Renderer)
    requires
        item.content.consistent(),
        ctx.well_formed(),
        images.well_formed(),
    ensures
        r.well_formed(),
        r.kind() == item.content.content_type,
        r.context() == ctx,
        r.shown_ms() == 0,
        r.built_from(*item),
{
    match item.content.content_type {
        ContentType::Text => Renderer::Text(TextRenderer::new(item, ctx)),
        ContentType::Image => {
            let decoded = match &item.content.data {
                ContentDetails::Image(c) => images.get(&c.image_id),
                _ => None,
            };
            Renderer::Image(ImageRenderer::new(item, ctx, decoded))
        },
        ContentType::Clock => Renderer::Clock(ClockRenderer::new(item, ctx)),
        ContentType::Animation => Renderer::Animation(AnimationRenderer::new(item, ctx)),
    }
}

/// The border renderer for an item; no effect when the item has none.
pub fn create_border_renderer(item: &PlayListItem, ctx: RenderContext) -> (r: BorderRenderer)
    requires
        ctx.well_formed(),
    ensures
        r.well_formed(),
        r.spec_ctx() == ctx,
        r.spec_elapsed() == 0,
        effect_matches(r.spec_effect(), item.border_effect),
{
    BorderRenderer::new(item, ctx)
}

} // verus!
