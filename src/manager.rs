//! The playback controller: what is shown, when it changes, and the preview
//! session that can take the display over for a while.
use vstd::prelude::*;
use vstd::string::StringExecFns;
use crate::border::{BorderRenderer, effect_matches, on_ring};
use crate::canvas::Canvas;
use crate::color::{RenderContext, Rgb, black};
use crate::image::{DecodedImage, ImageStore};
use crate::models::{BorderEffect, ContentData, ContentDetails, ContentType, PlayListItem, Playlist,
    TextContent,
};
use crate::renderer::{Renderer, create_border_renderer, create_renderer};
use crate::waves::Waveforms;

verus! {

/// The index that follows `i` in a playlist of `len` items: the next one, or
/// back to the first when repeating, else the last one again.
pub open spec fn next_index(i: int, len: int, repeat: bool) -> int {
    if i + 1 < len {
        i + 1
    } else if repeat {
        0
    } else {
        i
    }
}

/// Whether some item has id `id`.
pub open spec fn has_id(items: Seq<PlayListItem>, id: Seq<char>) -> bool {
    exists|k: int| 0 <= k < items.len() && (#[trigger] items[k]).id@ == id
}

/// The position of the first item with id `id`.
#[verifier::opaque]
pub open spec fn first_with_id(items: Seq<PlayListItem>, id: Seq<char>) -> int {
    choose|k: int|
        0 <= k < items.len() && (#[trigger] items[k]).id@ == id && forall|j: int|
            0 <= j < k ==> (#[trigger] items[j]).id@ != id
}

/// Finds the first item with id `id`.
pub fn find_item(items: &Vec<PlayListItem>, id: &String) -> (r: Option<usize>)
    ensures
        r is Some <==> has_id(items@, id@),
        r matches Some(k) ==> k == first_with_id(items@, id@) && k < items@.len(),
{
    let mut i: usize = 0;
    while i < items.len()
        invariant
            i <= items@.len(),
            forall|j: int| 0 <= j < i ==> (#[trigger] items@[j]).id@ != id@,
        decreases items@.len() - i,
    {
        if items[i].id == *id {
            proof {
                reveal(first_with_id);
                let k = first_with_id(items@, id@);
                assert(0 <= (i as int) < items@.len() && items@[i as int].id@ == id@);
                if k < i {
                    assert(items@[k].id@ != id@);
                } else if k > i {
                    assert(items@[i as int].id@ != id@);
                }
            }
            return Some(i);
        }
        i = i + 1;
    }
    None
}

/// Whether every item's type tag agrees with its content.
pub open spec fn items_consistent(items: Seq<PlayListItem>) -> bool {
    forall|i: int| 0 <= i < items.len() ==> (#[trigger] items[i]).content.consistent()
}

/// Checks that every item's type tag agrees with its content.
pub fn playlist_consistent(playlist: &Playlist) -> (r: bool)
    ensures
        r == items_consistent(playlist.items@),
{
    let mut i: usize = 0;
    while i < playlist.items.len()
        invariant
            i <= playlist.items@.len(),
            forall|k: int| 0 <= k < i ==> (#[trigger] playlist.items@[k]).content.consistent(),
        decreases playlist.items@.len() - i,
    {
        let ok = match (&playlist.items[i].content.content_type, &playlist.items[i].content.data) {
            (ContentType::Text, ContentDetails::Text(_)) => true,
            (ContentType::Image, ContentDetails::Image(_)) => true,
            (ContentType::Animation, ContentDetails::Animation(_)) => true,
            (ContentType::Clock, ContentDetails::Clock(_)) => true,
            _ => false,
        };
        if !ok {
            return false;
        }
        i = i + 1;
    }
    true
}

/// The colours of the border shown while there is nothing to play.
pub open spec fn idle_border_colors() -> Seq<Rgb> {
    seq![[0u8, 255u8, 0u8], [0u8, 200u8, 0u8]]
}

/// Owns the playlist, the renderers and the frame; every change goes through
/// its operations.
pub struct DisplayManager {
    playlist: Playlist,
    canvas: Canvas,
    render_context: RenderContext,
    default_item: PlayListItem,
    preview_mode: bool,
    preview_content: Option<PlayListItem>,
    preview_session_id: Option<String>,
    clock_ms: u64,
    last_preview_ping_ms: u64,
    last_transition_ms: u64,
    current_repeat: u32,
    active_renderer: Option<Renderer>,
    border_renderer: Option<BorderRenderer>,
    preview_renderer: Option<Renderer>,
    preview_border_renderer: Option<BorderRenderer>,
    waves: Waveforms,
    images: ImageStore,
}

impl DisplayManager {
    pub closed spec fn spec_playlist(&self) -> Playlist {
        self.playlist
    }

    pub closed spec fn spec_context(&self) -> RenderContext {
        self.render_context
    }

    pub closed spec fn spec_canvas(&self) -> Canvas {
        self.canvas
    }

    pub closed spec fn spec_default_item(&self) -> PlayListItem {
        self.default_item
    }

    pub closed spec fn in_preview(&self) -> bool {
        self.preview_mode
    }

    pub closed spec fn spec_preview_item(&self) -> Option<PlayListItem> {
        self.preview_content
    }

    pub closed spec fn session(&self) -> Option<Seq<char>> {
        match self.preview_session_id {
            Some(s) => Some(s@),
            None => None,
        }
    }

    /// Milliseconds of playback counted so far.
    pub closed spec fn clock(&self) -> int {
        self.clock_ms as int
    }

    pub closed spec fn last_ping(&self) -> int {
        self.last_preview_ping_ms as int
    }

    pub closed spec fn active(&self) -> Option<Renderer> {
        self.active_renderer
    }

    pub closed spec fn border(&self) -> Option<BorderRenderer> {
        self.border_renderer
    }

    pub closed spec fn preview_active(&self) -> Option<Renderer> {
        self.preview_renderer
    }

    pub closed spec fn preview_border(&self) -> Option<BorderRenderer> {
        self.preview_border_renderer
    }

    pub closed spec fn spec_images(&self) -> ImageStore {
        self.images
    }

    pub closed spec fn spec_waves(&self) -> Waveforms {
        self.waves
    }

    /// The index of the item being shown.
    pub open spec fn index(&self) -> int {
        self.spec_playlist().active_index as int
    }

    /// Number of items in the playlist.
    pub open spec fn len(&self) -> int {
        self.spec_playlist().items@.len() as int
    }

    /// The item that normal playback shows: the active playlist item, or the
    /// idle message when the playlist is empty.
    pub open spec fn playing_item(&self) -> PlayListItem {
        if self.len() == 0 {
            self.spec_default_item()
        } else {
            self.spec_playlist().items@[self.index()]
        }
    }

    /// The content renderer that frames show: the preview's while previewing.
    pub open spec fn shown_renderer(&self) -> Option<Renderer> {
        if self.in_preview() {
            self.preview_active()
        } else {
            self.active()
        }
    }

    /// The border that frames show: the preview's when previewing an item
    /// with a border, else the playing item's.
    pub open spec fn shown_border(&self) -> Option<BorderRenderer> {
        if self.in_preview() && self.preview_border() is Some {
            self.preview_border()
        } else {
            self.border()
        }
    }

    /// The three steps of a frame: `cleared` is black with no text, `drawn`
    /// is the shown content painted over it, `after` is the shown border
    /// painted over that.
    pub open spec fn frame_steps(&self, cleared: Canvas, drawn: Canvas, after: Canvas) -> bool {
        let ctx = self.spec_context();
        &&& cleared.spec_width() == ctx.display_width
        &&& cleared.spec_height() == ctx.display_height
        &&& cleared.runs().len() == 0
        &&& forall|px: int, py: int| cleared.in_bounds(px, py) ==> #[trigger] cleared.at(px, py) == black()
        &&& drawn.spec_width() == ctx.display_width
        &&& drawn.spec_height() == ctx.display_height
        &&& self.shown_renderer() matches Some(r) && r.runs_rendered(cleared, drawn) && forall|
            px: int,
            py: int,
        |
            cleared.in_bounds(px, py) ==> match #[trigger] r.painted(
                self.spec_waves(),
                cleared.at(px, py),
                px,
                py,
            ) {
                Some(c) => drawn.at(px, py) == c,
                None => true,
            }
        &&& match self.shown_border() {
            Some(b) => b.bordered(drawn, after),
            None => after == drawn,
        }
    }

    /// Whether `after` is a frame of this state.
    pub open spec fn composes(&self, after: Canvas) -> bool {
        exists|cleared: Canvas, drawn: Canvas| #[trigger] self.frame_steps(cleared, drawn, after)
    }

    /// Whether the active item has finished and playback should move on.
    pub open spec fn transition_due(&self) -> bool {
        !self.in_preview() && self.len() > 0 && self.active().unwrap().complete()
    }

    /// The item on show; see [`DisplayManager::get_current_content`].
    pub open spec fn current_item(&self) -> PlayListItem {
        if self.in_preview() {
            self.spec_preview_item().unwrap()
        } else if self.len() == 0 {
            self.spec_default_item()
        } else {
            self.spec_playlist().items@[self.index()]
        }
    }

    pub open spec fn well_formed(&self) -> bool {
        let ctx = self.spec_context();
        &&& self.spec_playlist().well_formed()
        &&& items_consistent(self.spec_playlist().items@)
        &&& ctx.well_formed()
        &&& self.spec_canvas().well_formed()
        &&& self.spec_canvas().spec_width() == ctx.display_width
        &&& self.spec_canvas().spec_height() == ctx.display_height
        &&& self.spec_waves().well_formed()
        &&& self.spec_images().well_formed()
        &&& is_idle_item(self.spec_default_item())
        &&& self.active() matches Some(r) && r.well_formed() && r.context() == ctx && r.built_from(
            self.playing_item(),
        )
        &&& (self.border() is Some <==> self.playing_item().border_effect is Some)
        &&& (self.border() matches Some(b) ==> b.well_formed() && b.spec_ctx() == ctx
            && effect_matches(b.spec_effect(), self.playing_item().border_effect))
        &&& (self.preview_active() matches Some(r) ==> r.well_formed() && r.context() == ctx)
        &&& (self.preview_border() matches Some(b) ==> b.well_formed() && b.spec_ctx() == ctx)
        &&& (self.in_preview() <==> self.spec_preview_item() is Some)
        &&& (self.in_preview() <==> self.preview_active() is Some)
        &&& (!self.in_preview() ==> self.preview_border() is None && self.session() is None)
        &&& (self.spec_preview_item() matches Some(p) ==> p.content.consistent()
            && self.preview_active().unwrap().kind() == p.content.content_type)
        &&& self.last_ping() <= self.clock()
    }

    /// A manager for a display of the given size with an empty playlist.
    /// `local_ip` goes into the message shown while there is nothing to play.
    pub fn new(
        display_width: i32,
        display_height: i32,
        brightness: u8,
        waves: Waveforms,
        local_ip: &String,
    ) -> (r: Self)
        requires
            0 <= display_width,
            0 <= display_height,
            (display_width as int) * (display_height as int) <= usize::MAX,
            waves.well_formed(),
        ensures
            r.well_formed(),
            r.len() == 0,
            r.spec_playlist().repeat,
            !r.in_preview(),
            r.clock() == 0,
            is_idle_item(r.spec_default_item()),
            r.active() matches Some(a) && a.built_from(r.spec_default_item()) && a.shown_ms() == 0,
            r.spec_context() == (RenderContext {
                display_width,
                display_height,
                brightness: if brightness > 100 { 100u8 } else { brightness },
            }),
    {
        let b = if brightness > 100 {
            100
        } else {
            brightness
        };
        let ctx = RenderContext::new(display_width, display_height, b);
        let mut m = DisplayManager {
            playlist: Playlist::default(),
            canvas: Canvas::new(display_width as u32, display_height as u32),
            render_context: ctx,
            default_item: idle_item(local_ip),
            preview_mode: false,
            preview_content: None,
            preview_session_id: None,
            clock_ms: 0,
            last_preview_ping_ms: 0,
            last_transition_ms: 0,
            current_repeat: 0,
            active_renderer: None,
            border_renderer: None,
            preview_renderer: None,
            preview_border_renderer: None,
            waves,
            images: ImageStore::new(),
        };
        m.setup_active_renderer();
        m
    }

    /// A manager that starts playing `playlist` from its first item.
    pub fn with_playlist(
        playlist: Playlist,
        display_width: i32,
        display_height: i32,
        brightness: u8,
        waves: Waveforms,
        local_ip: &String,
    ) -> (r: Self)
        requires
            0 <= display_width,
            0 <= display_height,
            (display_width as int) * (display_height as int) <= usize::MAX,
            waves.well_formed(),
            items_consistent(playlist.items@),
        ensures
            r.well_formed(),
            r.spec_playlist().items@ == playlist.items@,
            r.spec_playlist().repeat == playlist.repeat,
            r.index() == 0,
            !r.in_preview(),
            r.active() matches Some(a) && a.shown_ms() == 0 && a.built_from(r.playing_item()),
    {
        let mut m = DisplayManager::new(display_width, display_height, brightness, waves, local_ip);
        m.playlist = playlist;
        m.playlist.active_index = 0;
        m.setup_active_renderer();
        m
    }

    /// Builds the renderers for the item that normal playback shows.
    pub fn setup_active_renderer(&mut self)
        requires
            old(self).spec_playlist().well_formed(),
            items_consistent(old(self).spec_playlist().items@),
            is_idle_item(old(self).spec_default_item()),
            old(self).spec_context().well_formed(),
            old(self).spec_images().well_formed(),
        ensures
            final(self).spec_playlist() == old(self).spec_playlist(),
            final(self).spec_context() == old(self).spec_context(),
            final(self).spec_canvas() == old(self).spec_canvas(),
            final(self).in_preview() == old(self).in_preview(),
            final(self).spec_preview_item() == old(self).spec_preview_item(),
            final(self).session() == old(self).session(),
            final(self).clock() == old(self).clock(),
            final(self).last_ping() == old(self).last_ping(),
            final(self).preview_active() == old(self).preview_active(),
            final(self).preview_border() == old(self).preview_border(),
            final(self).spec_images() == old(self).spec_images(),
            final(self).spec_waves() == old(self).spec_waves(),
            final(self).spec_default_item() == old(self).spec_default_item(),
            ({
                let item = old(self).playing_item();
                &&& final(self).active() matches Some(a) && a.well_formed() && a.built_from(item)
                    && a.kind() == item.content.content_type && a.shown_ms() == 0 && a.context()
                    == old(self).spec_context()
                &&& (final(self).border() is Some <==> item.border_effect is Some)
                &&& final(self).border() matches Some(b) ==> b.well_formed() && b.spec_ctx()
                    == old(self).spec_context() && b.spec_elapsed() == 0 && effect_matches(
                    b.spec_effect(),
                    item.border_effect,
                )
            }),
    {
        let item: &PlayListItem = if self.playlist.items.len() == 0 {
            &self.default_item
        } else {
            &self.playlist.items[self.playlist.active_index]
        };
        let r = create_renderer(item, self.render_context, &self.images);
        let b = if item.border_effect.is_some() {
            Some(create_border_renderer(item, self.render_context))
        } else {
            None
        };
        self.active_renderer = Some(r);
        self.border_renderer = b;
    }

    /// What is on show: the preview item, else the active playlist item, or
    /// the idle message when the playlist is empty.
    pub fn get_current_content(&self) -> (r: &PlayListItem)
        requires
            self.well_formed(),
        ensures
            *r == self.current_item(),
    {
        if self.preview_mode {
            match &self.preview_content {
                Some(p) => {
                    return p;
                },
                None => {},
            }
        }
        if self.playlist.items.len() == 0 {
            &self.default_item
        } else {
            &self.playlist.items[self.playlist.active_index]
        }
    }

    /// Moves to the next item when the active one has completed. Returns
    /// whether it moved; never during preview or with an empty playlist.
    pub fn check_transition(&mut self) -> (r: bool)
        requires
            old(self).well_formed(),
        ensures
            final(self).well_formed(),
            r == old(self).transition_due(),
            final(self).len() == old(self).len(),
            final(self).spec_playlist().repeat == old(self).spec_playlist().repeat,
            final(self).in_preview() == old(self).in_preview(),
            final(self).session() == old(self).session(),
            final(self).clock() == old(self).clock(),
            final(self).last_ping() == old(self).last_ping(),
            final(self).spec_context() == old(self).spec_context(),
            r ==> final(self).index() == next_index(
                old(self).index(),
                old(self).len(),
                old(self).spec_playlist().repeat,
            ),
            r ==> (final(self).active() matches Some(a) && a.shown_ms() == 0 && a.kind()
                == final(self).spec_playlist().items@[final(self).index()].content.content_type
                && a.built_from(final(self).spec_playlist().items@[final(self).index()])),
            r ==> final(self).spec_playlist().items == old(self).spec_playlist().items,
            r ==> (final(self).border() matches Some(b) ==> b.spec_elapsed() == 0),
            final(self).spec_preview_item() == old(self).spec_preview_item(),
            final(self).preview_active() == old(self).preview_active(),
            final(self).preview_border() == old(self).preview_border(),
            !r ==> *final(self) == *old(self),
    {
        if self.preview_mode {
            return false;
        }
        if self.playlist.items.len() == 0 {
            return false;
        }
        let done = match &self.active_renderer {
            Some(a) => a.is_complete(),
            None => false,
        };
        if done {
            self.advance_playlist();
            return true;
        }
        false
    }

    /// Advances every live renderer, and the playback clock, by `dt_ms`.
    pub fn update_renderer(&mut self, dt_ms: u64)
        requires
            old(self).well_formed(),
        ensures
            final(self).well_formed(),
            final(self).clock() == (if old(self).clock() + dt_ms > u64::MAX {
                u64::MAX as int
            } else {
                old(self).clock() + dt_ms
            }),
            final(self).spec_playlist() == old(self).spec_playlist(),
            final(self).in_preview() == old(self).in_preview(),
            final(self).session() == old(self).session(),
            final(self).last_ping() == old(self).last_ping(),
            final(self).spec_context() == old(self).spec_context(),
            final(self).spec_preview_item() == old(self).spec_preview_item(),
            final(self).active() matches Some(a) ==> ({
                let before = old(self).active().unwrap();
                &&& a.kind() == before.kind()
                &&& before.kind() != ContentType::Image ==> a.shown_ms() == (if before.shown_ms()
                    + dt_ms > u64::MAX {
                    u64::MAX as int
                } else {
                    before.shown_ms() + dt_ms
                })
            }),
    {
        self.clock_ms = self.clock_ms.saturating_add(dt_ms);
        match &mut self.active_renderer {
            Some(r) => r.update(dt_ms),
            None => {},
        }
        match &mut self.border_renderer {
            Some(r) => r.update(dt_ms),
            None => {},
        }
        if self.preview_mode {
            match &mut self.preview_renderer {
                Some(r) => r.update(dt_ms),
                None => {},
            }
            match &mut self.preview_border_renderer {
                Some(r) => r.update(dt_ms),
                None => {},
            }
        }
    }

    /// Composes the next frame: cleared to black, the content (the preview's
    /// while previewing), then the border on top.
    pub fn update_display(&mut self)
        requires
            old(self).well_formed(),
        ensures
            final(self).well_formed(),
            final(self).spec_playlist() == old(self).spec_playlist(),
            final(self).in_preview() == old(self).in_preview(),
            final(self).session() == old(self).session(),
            final(self).clock() == old(self).clock(),
            final(self).last_ping() == old(self).last_ping(),
            final(self).spec_context() == old(self).spec_context(),
            final(self).active() == old(self).active(),
            final(self).preview_active() == old(self).preview_active(),
            final(self).border() == old(self).border(),
            final(self).preview_border() == old(self).preview_border(),
            old(self).composes(final(self).spec_canvas()),
            ({
                let shown = if old(self).in_preview() { old(self).preview_active() } else { old(self).active() };
                let c = final(self).spec_canvas();
                let ctx = old(self).spec_context();
                shown matches Some(r) ==> forall|px: int, py: int|
                    c.in_bounds(px, py) && !on_ring(ctx.display_width as int, ctx.display_height as int, px, py)
                        ==> match #[trigger] r.painted(old(self).spec_waves(), black(), px, py) {
                        Some(color) => c.at(px, py) == color,
                        None => true,
                    }
            }),
    {
        self.canvas.fill([0, 0, 0]);
        let ghost cleared = self.canvas;
        let ghost shown = if self.preview_mode { self.preview_renderer } else { self.active_renderer };
        let use_preview = self.preview_mode && self.preview_renderer.is_some();
        if use_preview {
            match &self.preview_renderer {
                Some(r) => r.render(&mut self.canvas, &self.waves),
                None => {},
            }
        } else {
            match &self.active_renderer {
                Some(r) => r.render(&mut self.canvas, &self.waves),
                None => {},
            }
        }
        let ghost drawn = self.canvas;
        assert(shown matches Some(r) ==> forall|px: int, py: int|
            drawn.in_bounds(px, py) ==> match #[trigger] r.painted(self.waves, black(), px, py) {
                Some(color) => drawn.at(px, py) == color,
                None => true,
            }) by {
            if let Some(r) = shown {
                assert forall|px: int, py: int| drawn.in_bounds(px, py) implies match #[trigger] r.painted(
                    self.waves,
                    black(),
                    px,
                    py,
                ) {
                    Some(color) => drawn.at(px, py) == color,
                    None => true,
                } by {
                    assert(cleared.at(px, py) == black());
                }
            }
        }
        let use_preview_border = self.preview_mode && self.preview_border_renderer.is_some();
        if use_preview_border {
            match &self.preview_border_renderer {
                Some(b) => b.render(&mut self.canvas),
                None => {},
            }
        } else {
            match &self.border_renderer {
                Some(b) => b.render(&mut self.canvas),
                None => {},
            }
        }
        assert(old(self).frame_steps(cleared, drawn, self.canvas));
    }

    /// The frame most recently composed.
    pub fn canvas(&self) -> (r: &Canvas)
        ensures
            *r == self.spec_canvas(),
    {
        &self.canvas
    }

    /// Clears the frame to black and composes one last frame, ready to be
    /// presented before the display is shut down.
    pub fn shutdown(&mut self)
        requires
            old(self).well_formed(),
        ensures
            final(self).well_formed(),
            final(self).spec_playlist() == old(self).spec_playlist(),
            final(self).in_preview() == old(self).in_preview(),
            final(self).active() == old(self).active(),
            final(self).border() == old(self).border(),
            old(self).composes(final(self).spec_canvas()),
    {
        self.canvas.fill([0, 0, 0]);
        let ghost cleared_state = *self;
        self.update_display();
        proof {
            let (c, d) = choose|c: Canvas, d: Canvas| #[trigger] cleared_state.frame_steps(
                c,
                d,
                self.canvas,
            );
            assert(old(self).frame_steps(c, d, self.canvas));
        }
    }

    /// The user brightness, 0 to 100.
    pub fn get_brightness(&self) -> (r: u8)
        ensures
            r == self.spec_context().brightness,
    {
        self.render_context.brightness
    }

    /// Sets the brightness, clamped to 100, for every live renderer without
    /// restarting any animation.
    pub fn set_brightness(&mut self, brightness: u8)
        requires
            old(self).well_formed(),
        ensures
            final(self).well_formed(),
            final(self).spec_context().brightness == (if brightness > 100 {
                100u8
            } else {
                brightness
            }),
            final(self).spec_context().display_width == old(self).spec_context().display_width,
            final(self).spec_context().display_height == old(self).spec_context().display_height,
            final(self).spec_playlist() == old(self).spec_playlist(),
            final(self).in_preview() == old(self).in_preview(),
            final(self).session() == old(self).session(),
            final(self).clock() == old(self).clock(),
            final(self).last_ping() == old(self).last_ping(),
            final(self).spec_preview_item() == old(self).spec_preview_item(),
            final(self).active() matches Some(a) ==> a.shown_ms() == old(self).active().unwrap().shown_ms()
                && a.kind() == old(self).active().unwrap().kind(),
            final(self).preview_active() matches Some(a) ==> a.shown_ms() == old(
                self,
            ).preview_active().unwrap().shown_ms(),
            final(self).border() is Some == old(self).border() is Some,
            final(self).border() matches Some(b) ==> b.spec_elapsed() == old(self).border().unwrap().spec_elapsed()
                && b.spec_effect() == old(self).border().unwrap().spec_effect(),
            final(self).preview_border() is Some == old(self).preview_border() is Some,
            final(self).preview_border() matches Some(b) ==> b.spec_elapsed() == old(
                self,
            ).preview_border().unwrap().spec_elapsed() && b.spec_effect() == old(
                self,
            ).preview_border().unwrap().spec_effect(),
    {
        let b = if brightness > 100 {
            100
        } else {
            brightness
        };
        self.render_context = RenderContext::new(
            self.render_context.display_width,
            self.render_context.display_height,
            b,
        );
        let ctx = self.render_context;
        match &mut self.active_renderer {
            Some(r) => r.update_context(ctx),
            None => {},
        }
        match &mut self.border_renderer {
            Some(r) => r.update_context(ctx),
            None => {},
        }
        match &mut self.preview_renderer {
            Some(r) => r.update_context(ctx),
            None => {},
        }
        match &mut self.preview_border_renderer {
            Some(r) => r.update_context(ctx),
            None => {},
        }
    }

    fn update_preview_renderers(&mut self, item: PlayListItem)
        requires
            old(self).well_formed(),
            item.content.consistent(),
        ensures
            final(self).spec_playlist() == old(self).spec_playlist(),
            final(self).spec_context() == old(self).spec_context(),
            final(self).spec_canvas() == old(self).spec_canvas(),
            final(self).spec_waves() == old(self).spec_waves(),
            final(self).spec_images() == old(self).spec_images(),
            final(self).active() == old(self).active(),
            final(self).border() == old(self).border(),
            final(self).clock() == old(self).clock(),
            final(self).session() == old(self).session(),
            final(self).in_preview() == old(self).in_preview(),
            final(self).last_ping() == old(self).clock(),
            final(self).spec_preview_item() == Some(item),
            final(self).spec_default_item() == old(self).spec_default_item(),
            final(self).preview_active() matches Some(r) && r.well_formed() && r.kind()
                == item.content.content_type && r.context() == old(self).spec_context(),
            ({
                let before = old(self).preview_active();
                before is Some && old(self).spec_preview_item() is Some && before.unwrap().kind()
                    == item.content.content_type ==> final(self).preview_active().unwrap().kind()
                    == before.unwrap().kind()
            }),
            (final(self).preview_border() is Some <==> item.border_effect is Some),
            final(self).preview_border() matches Some(b) ==> b.well_formed() && b.spec_ctx()
                == old(self).spec_context(),
    {
        let same_type = match &self.preview_content {
            Some(prev) => prev.content.content_type == item.content.content_type,
            None => false,
        };
        let ctx = self.render_context;
        let keep = same_type && self.preview_renderer.is_some();
        if keep {
            match &mut self.preview_renderer {
                Some(r) => r.update_content(&item, &self.images),
                None => {},
            }
        } else {
            self.preview_renderer = Some(create_renderer(&item, ctx, &self.images));
        }
        if item.border_effect.is_some() {
            match &mut self.preview_border_renderer {
                Some(b) => b.update_content(&item),
                None => {
                    self.preview_border_renderer = Some(create_border_renderer(&item, ctx));
                },
            }
        } else {
            self.preview_border_renderer = None;
        }
        self.preview_content = Some(item);
        self.last_preview_ping_ms = self.clock_ms;
    }

    /// Shows `item` in place of the playlist for the editor session
    /// `session_id`, which becomes the holder of the preview.
    pub fn enter_preview_mode(&mut self, item: PlayListItem, session_id: String)
        requires
            old(self).well_formed(),
            item.content.consistent(),
        ensures
            final(self).well_formed(),
            final(self).in_preview(),
            final(self).session() == Some(session_id@),
            final(self).last_ping() == old(self).clock(),
            final(self).clock() == old(self).clock(),
            final(self).spec_preview_item() == Some(item),
            final(self).preview_active().unwrap().kind() == item.content.content_type,
            final(self).spec_playlist() == old(self).spec_playlist(),
            final(self).active() == old(self).active(),
            final(self).border() == old(self).border(),
            (final(self).preview_border() is Some <==> item.border_effect is Some),
            final(self).spec_context() == old(self).spec_context(),
    {
        self.update_preview_renderers(item);
        self.preview_mode = true;
        self.preview_session_id = Some(session_id);
    }

    /// Replaces the previewed item, keeping the session; ignored outside
    /// preview. Counts as a sign of life.
    pub fn update_preview_content(&mut self, item: PlayListItem)
        requires
            old(self).well_formed(),
            item.content.consistent(),
        ensures
            final(self).well_formed(),
            final(self).in_preview() == old(self).in_preview(),
            final(self).session() == old(self).session(),
            final(self).clock() == old(self).clock(),
            final(self).spec_playlist() == old(self).spec_playlist(),
            old(self).in_preview() ==> final(self).spec_preview_item() == Some(item)
                && final(self).last_ping() == old(self).clock(),
            !old(self).in_preview() ==> *final(self) == *old(self),
            final(self).active() == old(self).active(),
            final(self).border() == old(self).border(),
    {
        if !self.preview_mode {
            return;
        }
        self.update_preview_renderers(item);
    }

    /// Whether no sign of life has come for more than `timeout_seconds`
    /// whole seconds.
    pub open spec fn preview_expired(&self, timeout_seconds: int) -> bool {
        self.in_preview() && (self.clock() - self.last_ping()) / 1000 > timeout_seconds
    }

    /// Ends a preview that has gone quiet for longer than `timeout_seconds`,
    /// returning the session that held it.
    pub fn check_preview_timeout(&mut self, timeout_seconds: u64) -> (r: Option<String>)
        requires
            old(self).well_formed(),
        ensures
            final(self).well_formed(),
            final(self).spec_playlist() == old(self).spec_playlist(),
            final(self).clock() == old(self).clock(),
            old(self).preview_expired(timeout_seconds as int) ==> !final(self).in_preview() && (match r {
                Some(s) => old(self).session() == Some(s@),
                None => old(self).session() is None,
            }),
            !old(self).preview_expired(timeout_seconds as int) ==> r is None && *final(self) == *old(
                self,
            ),
            final(self).active() == old(self).active(),
            final(self).border() == old(self).border(),
    {
        if self.preview_mode {
            let elapsed_s = (self.clock_ms - self.last_preview_ping_ms) / 1000;
            if elapsed_s > timeout_seconds {
                let session = self.preview_session_id.take();
                proof {
                    assert(session matches Some(s) ==> old(self).session() == Some(s@));
                }
                self.exit_preview_mode();
                return session;
            }
        }
        None
    }

    /// Whether preview mode is on.
    pub fn is_in_preview_mode(&self) -> (r: bool)
        ensures
            r == self.in_preview(),
    {
        self.preview_mode
    }

    /// A sign of life from the preview holder; false outside preview.
    pub fn update_preview_ping(&mut self) -> (r: bool)
        requires
            old(self).well_formed(),
        ensures
            final(self).well_formed(),
            r == old(self).in_preview(),
            final(self).in_preview() == old(self).in_preview(),
            final(self).session() == old(self).session(),
            final(self).clock() == old(self).clock(),
            final(self).spec_playlist() == old(self).spec_playlist(),
            final(self).last_ping() == (if r { old(self).clock() } else { old(self).last_ping() }),
    {
        if self.preview_mode {
            self.last_preview_ping_ms = self.clock_ms;
            true
        } else {
            false
        }
    }

    /// Restarts the active item from its beginning.
    pub fn reset_display_state(&mut self)
        requires
            old(self).well_formed(),
        ensures
            final(self).well_formed(),
            final(self).spec_playlist() == old(self).spec_playlist(),
            final(self).in_preview() == old(self).in_preview(),
            final(self).session() == old(self).session(),
            final(self).clock() == old(self).clock(),
            final(self).active() matches Some(a) ==> a.shown_ms() == 0,
    {
        self.last_transition_ms = self.clock_ms;
        self.current_repeat = 0;
        self.setup_active_renderer();
    }

    /// Whether `session_id` holds the preview.
    pub fn is_preview_session_owner(&self, session_id: &String) -> (r: bool)
        ensures
            r == (self.in_preview() && self.session() == Some(session_id@)),
    {
        if !self.preview_mode {
            return false;
        }
        match &self.preview_session_id {
            Some(id) => *id == *session_id,
            None => false,
        }
    }

    /// Leaves preview mode and drops everything it held.
    pub fn exit_preview_mode(&mut self)
        requires
            old(self).well_formed(),
        ensures
            final(self).well_formed(),
            !final(self).in_preview(),
            final(self).session() is None,
            final(self).spec_preview_item() is None,
            final(self).spec_playlist() == old(self).spec_playlist(),
            final(self).clock() == old(self).clock(),
            final(self).active() == old(self).active(),
            final(self).border() == old(self).border(),
            final(self).spec_context() == old(self).spec_context(),
            !old(self).in_preview() ==> *final(self) == *old(self),
    {
        if !self.preview_mode {
            return;
        }
        self.preview_mode = false;
        self.preview_content = None;
        self.preview_renderer = None;
        self.preview_border_renderer = None;
        self.preview_session_id = None;
    }

    /// The playlist.
    pub fn playlist(&self) -> (r: &Playlist)
        ensures
            *r == self.spec_playlist(),
    {
        &self.playlist
    }

    /// Replaces the playlist, keeping the position when it still points at
    /// an item and otherwise going back to the first, and restarts the item.
    pub fn set_playlist(&mut self, playlist: Playlist)
        requires
            old(self).well_formed(),
            items_consistent(playlist.items@),
        ensures
            final(self).well_formed(),
            final(self).spec_playlist().items == playlist.items,
            final(self).spec_playlist().repeat == playlist.repeat,
            final(self).index() == (if playlist.active_index < playlist.items@.len() {
                playlist.active_index as int
            } else {
                0
            }),
            final(self).in_preview() == old(self).in_preview(),
            final(self).session() == old(self).session(),
    {
        self.playlist = playlist;
        if self.playlist.active_index >= self.playlist.items.len() {
            self.playlist.active_index = 0;
        }
        self.last_transition_ms = self.clock_ms;
        self.current_repeat = 0;
        self.setup_active_renderer();
    }

    /// Makes a decoded image available to image items with id `id`.
    pub fn add_image(&mut self, id: String, image: DecodedImage)
        requires
            old(self).well_formed(),
            image.well_formed(),
        ensures
            final(self).well_formed(),
            final(self).spec_playlist() == old(self).spec_playlist(),
            final(self).in_preview() == old(self).in_preview(),
    {
        self.images.insert(id, image);
    }

    /// Appends an item to the playlist; playback of the current item goes on,
    /// except that a first item replaces the idle message.
    pub fn add_playlist_item(&mut self, item: PlayListItem)
        requires
            old(self).well_formed(),
            item.content.consistent(),
        ensures
            final(self).well_formed(),
            final(self).spec_playlist().items@ == old(self).spec_playlist().items@.push(item),
            final(self).index() == if old(self).len() == 0 { 0 } else { old(self).index() },
            final(self).spec_playlist().repeat == old(self).spec_playlist().repeat,
            final(self).in_preview() == old(self).in_preview(),
            final(self).session() == old(self).session(),
            old(self).len() > 0 ==> final(self).active() == old(self).active()
                && final(self).border() == old(self).border(),
    {
        let was_empty = self.playlist.items.len() == 0;
        self.playlist.items.push(item);
        if was_empty {
            self.playlist.active_index = 0;
            self.setup_active_renderer();
        }
    }

    /// Replaces the item with id `id` by `item`, which keeps that id; the
    /// active item restarts when it is the one replaced. False, and nothing
    /// changes, when no item has that id.
    pub fn update_playlist_item(&mut self, id: &String, item: PlayListItem) -> (r: bool)
        requires
            old(self).well_formed(),
            item.content.consistent(),
        ensures
            final(self).well_formed(),
            r == has_id(old(self).spec_playlist().items@, id@),
            !r ==> *final(self) == *old(self),
            r ==> ({
                let k = first_with_id(old(self).spec_playlist().items@, id@);
                let items = final(self).spec_playlist().items@;
                &&& items.len() == old(self).len()
                &&& forall|j: int| 0 <= j < items.len() && j != k ==> #[trigger] items[j] == old(self).spec_playlist().items@[j]
                &&& items[k] == (PlayListItem { id: items[k].id, ..item })
                &&& items[k].id@ == id@
                &&& final(self).index() == old(self).index()
                &&& final(self).spec_playlist().repeat == old(self).spec_playlist().repeat
                &&& final(self).in_preview() == old(self).in_preview()
            }),
    {
        let found = find_item(&self.playlist.items, id);
        match found {
            None => false,
            Some(k) => {
                let mut replacement = item;
                replacement.id = id.clone();
                let ghost before = self.playlist.items@;
                self.playlist.items.set(k, replacement);
                assert(self.playlist.items@ == before.update(k as int, replacement));
                if self.playlist.active_index == k {
                    self.setup_active_renderer();
                } else {
                    assert(self.playing_item() == old(self).playing_item());
                }
                true
            },
        }
    }

    #[verifier::rlimit(60)]
    /// Removes the item with id `id`. The active index steps back by one when
    /// it was at or after the removed item (and to 0 once the list is
    /// empty), and the item now active starts from its beginning. False, and
    /// nothing changes, when no item has that id.
    pub fn delete_playlist_item(&mut self, id: &String) -> (r: bool)
        requires
            old(self).well_formed(),
        ensures
            final(self).well_formed(),
            r == has_id(old(self).spec_playlist().items@, id@),
            !r ==> *final(self) == *old(self),
            r ==> ({
                let k = first_with_id(old(self).spec_playlist().items@, id@);
                let i = old(self).index();
                &&& final(self).spec_playlist().items@ == old(self).spec_playlist().items@.remove(k)
                &&& final(self).index() == (if final(self).len() == 0 {
                    0
                } else if i >= k {
                    if i > 0 { i - 1 } else { 0 }
                } else {
                    i
                })
                &&& final(self).spec_playlist().repeat == old(self).spec_playlist().repeat
                &&& final(self).in_preview() == old(self).in_preview()
                &&& final(self).active() matches Some(a) && a.shown_ms() == 0
            }),
    {
        let found = find_item(&self.playlist.items, id);
        match found {
            None => false,
            Some(k) => {
                self.playlist.items.remove(k);
                if self.playlist.items.len() == 0 {
                    self.playlist.active_index = 0;
                } else if self.playlist.active_index >= k {
                    self.playlist.active_index = if self.playlist.active_index > 0 {
                        self.playlist.active_index - 1
                    } else {
                        0
                    };
                }
                self.setup_active_renderer();
                true
            },
        }
    }

    /// For a requested order of item ids, the position in the playlist of the
    /// item for each id (the first with that id); `None` when an id is
    /// unknown or the request does not name as many ids as there are items.
    pub fn reorder_plan(&self, ids: &Vec<String>) -> (r: Option<Vec<usize>>)
        ensures
            r is Some <==> ids@.len() == self.len() && forall|j: int|
                0 <= j < ids@.len() ==> has_id(self.spec_playlist().items@, (#[trigger] ids@[j])@),
            r matches Some(order) ==> order@.len() == ids@.len() && forall|j: int|
                0 <= j < order@.len() ==> #[trigger] order@[j] == first_with_id(
                    self.spec_playlist().items@,
                    ids@[j]@,
                ),
    {
        let items = &self.playlist.items;
        let mut order: Vec<usize> = Vec::new();
        let mut j: usize = 0;
        while j < ids.len()
            invariant
                j <= ids@.len(),
                order@.len() == j,
                items@ == self.spec_playlist().items@,
                forall|q: int| 0 <= q < j ==> has_id(items@, (#[trigger] ids@[q])@),
                forall|q: int| 0 <= q < j ==> #[trigger] order@[q] == first_with_id(items@, ids@[q]@),
            decreases ids@.len() - j,
        {
            match find_item(items, &ids[j]) {
                Some(k) => {
                    order.push(k);
                },
                None => {
                    return None;
                },
            }
            j = j + 1;
        }
        if ids.len() != items.len() {
            return None;
        }
        Some(order)
    }

    fn advance_playlist(&mut self)
        requires
            old(self).well_formed(),
            old(self).len() > 0,
        ensures
            final(self).well_formed(),
            final(self).spec_playlist().items == old(self).spec_playlist().items,
            final(self).spec_playlist().repeat == old(self).spec_playlist().repeat,
            final(self).index() == next_index(old(self).index(), old(self).len(), old(self).spec_playlist().repeat),
            final(self).in_preview() == old(self).in_preview(),
            final(self).session() == old(self).session(),
            final(self).clock() == old(self).clock(),
            final(self).last_ping() == old(self).last_ping(),
            final(self).spec_context() == old(self).spec_context(),
            final(self).active() matches Some(a) && a.shown_ms() == 0 && a.kind()
                == final(self).spec_playlist().items@[final(self).index()].content.content_type
                && a.built_from(final(self).spec_playlist().items@[final(self).index()]),
            final(self).border() matches Some(b) ==> b.spec_elapsed() == 0,
            final(self).spec_preview_item() == old(self).spec_preview_item(),
            final(self).preview_active() == old(self).preview_active(),
            final(self).preview_border() == old(self).preview_border(),
    {
        let old_index = self.playlist.active_index;
        let length = self.playlist.items.len();
        if old_index + 1 < length {
            self.playlist.active_index = old_index + 1;
        } else if self.playlist.repeat {
            self.playlist.active_index = 0;
        }
        self.last_transition_ms = self.clock_ms;
        self.current_repeat = 0;
        self.setup_active_renderer();
        match &mut self.active_renderer {
            Some(r) => r.reset(),
            None => {},
        }
    }
}

/// The idle message: scrolling green text that repeats forever, under a
/// green pulsing border.
pub open spec fn is_idle_item(item: PlayListItem) -> bool {
    &&& item.content.consistent()
    &&& item.content.content_type == ContentType::Text
    &&& item.duration is None
    &&& item.repeat_count == Some(0u32)
    &&& item.border_effect matches Some(BorderEffect::Pulse { colors }) && colors@
        == idle_border_colors()
    &&& item.content.data matches ContentDetails::Text(t) && t.scroll && t.color == [
        0u8,
        255u8,
        0u8,
    ] && t.speed == 30 && t.text_segments is None
}

/// The message shown while the playlist is empty: scrolling green text with
/// the address of the web interface, under a green pulsing border.
fn idle_item(local_ip: &String) -> (r: PlayListItem)
    ensures
        is_idle_item(r),
        r.content.consistent(),
        r.content.content_type == ContentType::Text,
        r.duration is None,
        r.repeat_count == Some(0u32),
        r.border_effect matches Some(BorderEffect::Pulse { colors }) && colors@ == idle_border_colors(),
        r.content.data matches ContentDetails::Text(t) && t.scroll && t.color == [0u8, 255u8, 0u8]
            && t.speed == 30,
{
    let mut text = String::from_str("LED Matrix Controller | Web interface: http://");
    text.append(local_ip.as_str());
    text.append(":3000 | Use web UI to configure display");
    let colors: Vec<Rgb> = vec![[0, 255, 0], [0, 200, 0]];
    assert(colors@ =~= idle_border_colors());
    PlayListItem {
        id: String::from_str("default"),
        duration: None,
        repeat_count: Some(0),
        border_effect: Some(BorderEffect::Pulse { colors }),
        content: ContentData {
            content_type: ContentType::Text,
            data: ContentDetails::Text(
                TextContent {
                    text,
                    scroll: true,
                    color: [0, 255, 0],
                    speed: 30,
                    text_segments: None,
                },
            ),
        },
    }
}

/// With an empty playlist nothing is ever due to change, and outside preview
/// the idle message is what is on show.
pub proof fn lemma_empty_playlist(m: DisplayManager)
    requires
        m.len() == 0,
    ensures
        !m.transition_due(),
        !m.in_preview() ==> m.current_item() == m.spec_default_item(),
{
}

/// Without repeat, moving on from the last item stays on it; with repeat it
/// wraps to the first.
pub proof fn lemma_last_item_successor(len: int)
    requires
        len > 0,
    ensures
        next_index(len - 1, len, false) == len - 1,
        next_index(len - 1, len, true) == 0,
{
}

/// A preview entered when the clock read `clock()` and not pinged since is
/// expired, still held by the same session, once more than `timeout_seconds`
/// whole seconds have passed on the clock.
pub proof fn lemma_quiet_preview_expires(
    entered: DisplayManager,
    later: DisplayManager,
    timeout_seconds: int,
)
    requires
        entered.in_preview(),
        entered.last_ping() == entered.clock(),
        later.in_preview(),
        later.session() == entered.session(),
        later.last_ping() == entered.last_ping(),
        (later.clock() - entered.clock()) / 1000 > timeout_seconds,
    ensures
        later.preview_expired(timeout_seconds),
        later.session() == entered.session(),
{
}

} // verus!
