//! The primitive layer: what draws pixels, decodes images, allocates sprite
//! buffers and knows the fonts. The library drives it through
//! [`PrimitiveLayer`] and reasons about it through the calls it has received.

use crate::datum::textdatum_t;
use crate::metrics::GlyphMetrics;
use vstd::prelude::*;

verus! {

/// Raw identity of one drawing surface, the root panel or a sprite. Zero is
/// the null handle, which names no surface.
#[derive(Debug, Clone, Copy, PartialEq, Eq, Structural)]
pub struct DisplayHandle {
    pub raw: usize,
}

impl DisplayHandle {
    pub open spec fn is_null_spec(&self) -> bool {
        self.raw == 0
    }

    #[verifier::when_used_as_spec(is_null_spec)]
    pub fn is_null(&self) -> (null: bool)
        ensures
            null == self.is_null_spec(),
    {
        self.raw == 0
    }
}

/// Raw identity of one font table. Zero is the null font.
#[derive(Debug, Clone, Copy, PartialEq, Eq, Structural)]
pub struct LgfxFont {
    pub ptr: usize,
}

/// A colour as the primitive layer takes it: the packed value and its
/// encoding.
#[derive(Debug, Clone, Copy, PartialEq, Eq, Structural)]
pub enum RawColor {
    Rgb332(u8),
    Rgb888(u32),
}

/// Where and how an image is placed. Scales are 16.16 fixed point.
#[derive(Debug, Clone, Copy, PartialEq, Eq, Structural)]
pub struct Placement {
    pub x: i32,
    pub y: i32,
    pub max_width: i32,
    pub max_height: i32,
    pub offset_x: i32,
    pub offset_y: i32,
    pub scale_x: i32,
    pub scale_y: i32,
    pub datum: textdatum_t,
}

/// One call that changes what the primitive layer holds or shows, with what
/// the layer answered where it answers. Scales are 16.16 fixed point.
#[derive(Debug, Clone, PartialEq, Eq)]
pub enum Call {
    Setup { root: DisplayHandle },
    SetupWithSize { width: i32, height: i32, root: DisplayHandle },
    PumpEvents,
    StartWrite { target: DisplayHandle },
    EndWrite { target: DisplayHandle },
    SetEpdMode { target: DisplayHandle, mode: u32 },
    SetRotation { target: DisplayHandle, rotation: u8 },
    Clear { target: DisplayHandle, color: RawColor },
    FillRect { target: DisplayHandle, x: i32, y: i32, w: i32, h: i32, color: RawColor },
    DrawRect { target: DisplayHandle, x: i32, y: i32, w: i32, h: i32, color: RawColor },
    DrawLine { target: DisplayHandle, x0: i32, y0: i32, x1: i32, y1: i32, color: RawColor },
    Glyph {
        target: DisplayHandle,
        x: i32,
        y: i32,
        unit: u16,
        fg: RawColor,
        bg: RawColor,
        scale_x: i32,
        scale_y: i32,
        width: i32,
    },
    PushImage { target: DisplayHandle, x: i32, y: i32, w: i32, h: i32, data: Vec<u8> },
    DrawPng { target: DisplayHandle, data: Vec<u8>, placement: Placement },
    CreateSprite { parent: DisplayHandle, w: i32, h: i32, sprite: DisplayHandle },
    PushSprite { sprite: DisplayHandle, x: i32, y: i32 },
    DeleteSprite { sprite: DisplayHandle },
    SetFont { target: DisplayHandle, font: LgfxFont, accepted: bool },
    SetTextSize { target: DisplayHandle, scale_x: i32, scale_y: i32 },
    SetTextDatum { target: DisplayHandle, datum: textdatum_t },
}

/// Whether `call` pushes the image `data` of `w` by `h` pixels to `target`
/// at `(x, y)`.
pub open spec fn is_push_image(
    call: Call,
    target: DisplayHandle,
    x: i32,
    y: i32,
    w: i32,
    h: i32,
    data: Seq<u8>,
) -> bool {
    call matches Call::PushImage { target: t, x: cx, y: cy, w: cw, h: ch, data: d } && t == target
        && cx == x && cy == y && cw == w && ch == h && d@ == data
}

/// Whether `call` draws the encoded image `data` on `target` as `placement`
/// says.
pub open spec fn is_draw_png(call: Call, target: DisplayHandle, data: Seq<u8>, placement: Placement) -> bool {
    call matches Call::DrawPng { target: t, data: d, placement: p } && t == target && d@ == data
        && p == placement
}

/// Whether `after` is `before` with one more call, for which `last` holds.
pub open spec fn extended_by(before: Seq<Call>, after: Seq<Call>, last: spec_fn(Call) -> bool) -> bool {
    &&& after.len() == before.len() + 1
    &&& after.drop_last() == before
    &&& last(after.last())
}

/// The capability set of the primitive layer, keyed by raw handles.
///
/// `calls` is the record of every changing call the layer has received, in
/// order. Each changing method appends its own call and nothing else; a
/// query leaves the record as it is and answers what the layer holds, which
/// the spec functions name. The library is proved for every answer.
///
/// The spec functions have bodies for the sake of layers that keep no model
/// of themselves; a layer that is verified states its own. Nothing proved of
/// a layer in general rests on these bodies.
pub trait PrimitiveLayer {
    /// The changing calls received so far.
    open spec fn calls(&self) -> Seq<Call> {
        Seq::empty()
    }

    /// Whether the panel behind `target` is of the slow-refresh class.
    open spec fn panel_is_epd(&self, target: DisplayHandle) -> bool {
        false
    }

    /// The number of the refresh mode of the panel behind `target`.
    open spec fn panel_epd_mode(&self, target: DisplayHandle) -> u32 {
        0
    }

    /// Width and height of `target` in pixels.
    open spec fn extent(&self, target: DisplayHandle) -> (i32, i32) {
        (0, 0)
    }

    /// The line height of the font of `target`.
    open spec fn line_height(&self, target: DisplayHandle) -> i32 {
        0
    }

    /// The font that `target` draws text with; null where it has none.
    open spec fn font_of(&self, target: DisplayHandle) -> LgfxFont {
        LgfxFont { ptr: 0 }
    }

    /// The metrics a font falls back on.
    open spec fn default_glyph(&self, font: LgfxFont) -> GlyphMetrics {
        GlyphMetrics {
            width: 0,
            x_advance: 0,
            x_offset: 0,
            height: 0,
            y_advance: 0,
            y_offset: 0,
            baseline: 0,
        }
    }

    /// `base` made specific to the glyph of one code unit, or `None` where
    /// the font has no such glyph.
    open spec fn glyph(&self, font: LgfxFont, base: GlyphMetrics, unit: u16) -> Option<GlyphMetrics> {
        None
    }

    /// Brings up the root display.
    fn setup(&mut self) -> (root: DisplayHandle)
        ensures
            final(self).calls() == old(self).calls().push(Call::Setup { root }),
    ;

    /// Brings up a root display of the given size.
    fn setup_with_size(&mut self, width: i32, height: i32) -> (root: DisplayHandle)
        ensures
            final(self).calls() == old(self).calls().push(
                Call::SetupWithSize { width, height, root },
            ),
    ;

    /// Lets the host window system handle its pending events.
    fn pump_events(&mut self)
        ensures
            final(self).calls() == old(self).calls().push(Call::PumpEvents),
    ;

    /// Begins a batched write: what is drawn is held back.
    fn start_write(&mut self, target: DisplayHandle)
        ensures
            final(self).calls() == old(self).calls().push(Call::StartWrite { target }),
    ;

    /// Ends a batched write: what was held back is shown.
    fn end_write(&mut self, target: DisplayHandle)
        ensures
            final(self).calls() == old(self).calls().push(Call::EndWrite { target }),
    ;

    /// Whether the panel is of the slow-refresh class.
    fn is_epd(&self, target: DisplayHandle) -> (epd: bool)
        ensures
            epd == self.panel_is_epd(target),
    ;

    /// The number of the panel's refresh mode.
    fn epd_mode(&self, target: DisplayHandle) -> (mode: u32)
        ensures
            mode == self.panel_epd_mode(target),
    ;

    fn set_epd_mode(&mut self, target: DisplayHandle, mode: u32)
        ensures
            final(self).calls() == old(self).calls().push(Call::SetEpdMode { target, mode }),
    ;

    fn set_rotation(&mut self, target: DisplayHandle, rotation: u8)
        ensures
            final(self).calls() == old(self).calls().push(Call::SetRotation { target, rotation }),
    ;

    fn width(&self, target: DisplayHandle) -> (width: i32)
        ensures
            width == self.extent(target).0,
    ;

    fn height(&self, target: DisplayHandle) -> (height: i32)
        ensures
            height == self.extent(target).1,
    ;

    fn clear(&mut self, target: DisplayHandle, color: RawColor)
        ensures
            final(self).calls() == old(self).calls().push(Call::Clear { target, color }),
    ;

    fn fill_rect(&mut self, target: DisplayHandle, x: i32, y: i32, w: i32, h: i32, color: RawColor)
        ensures
            final(self).calls() == old(self).calls().push(
                Call::FillRect { target, x, y, w, h, color },
            ),
    ;

    fn draw_rect(&mut self, target: DisplayHandle, x: i32, y: i32, w: i32, h: i32, color: RawColor)
        ensures
            final(self).calls() == old(self).calls().push(
                Call::DrawRect { target, x, y, w, h, color },
            ),
    ;

    fn draw_line(&mut self, target: DisplayHandle, x0: i32, y0: i32, x1: i32, y1: i32, color: RawColor)
        ensures
            final(self).calls() == old(self).calls().push(
                Call::DrawLine { target, x0, y0, x1, y1, color },
            ),
    ;

    /// Draws the glyph of one code unit and answers its rendered width.
    fn draw_glyph(
        &mut self,
        target: DisplayHandle,
        x: i32,
        y: i32,
        unit: u16,
        fg: RawColor,
        bg: RawColor,
        scale_x: i32,
        scale_y: i32,
    ) -> (width: i32)
        ensures
            final(self).calls() == old(self).calls().push(
                Call::Glyph { target, x, y, unit, fg, bg, scale_x, scale_y, width },
            ),
    ;

    /// Copies raw 24-bit pixels to the surface.
    fn push_image_rgb888(&mut self, target: DisplayHandle, x: i32, y: i32, w: i32, h: i32, data: &[u8])
        ensures
            extended_by(
                old(self).calls(),
                final(self).calls(),
                |call: Call| is_push_image(call, target, x, y, w, h, data@),
            ),
    ;

    /// Decodes a PNG image and draws it.
    fn draw_png(&mut self, target: DisplayHandle, data: &[u8], placement: Placement)
        ensures
            extended_by(
                old(self).calls(),
                final(self).calls(),
                |call: Call| is_draw_png(call, target, data@, placement),
            ),
    ;

    /// Asks for a new off-screen surface. The null handle answers a request
    /// that could not be met.
    fn create_sprite(&mut self, parent: DisplayHandle, w: i32, h: i32) -> (sprite: DisplayHandle)
        ensures
            final(self).calls() == old(self).calls().push(
                Call::CreateSprite { parent, w, h, sprite },
            ),
    ;

    /// Composites a sprite onto its parent.
    fn push_sprite(&mut self, sprite: DisplayHandle, x: i32, y: i32)
        ensures
            final(self).calls() == old(self).calls().push(Call::PushSprite { sprite, x, y }),
    ;

    /// Gives a sprite's surface back.
    fn delete_sprite(&mut self, sprite: DisplayHandle)
        ensures
            final(self).calls() == old(self).calls().push(Call::DeleteSprite { sprite }),
    ;

    fn font_default_metrics(&self, font: LgfxFont) -> (metrics: GlyphMetrics)
        ensures
            metrics == self.default_glyph(font),
    ;

    fn font_glyph_metrics(&self, font: LgfxFont, base: GlyphMetrics, unit: u16) -> (metrics: Option<
        GlyphMetrics,
    >)
        ensures
            metrics == self.glyph(font, base, unit),
    ;

    fn font_height(&self, target: DisplayHandle) -> (height: i32)
        ensures
            height == self.line_height(target),
    ;

    fn get_font(&self, target: DisplayHandle) -> (font: LgfxFont)
        ensures
            font == self.font_of(target),
    ;

    /// Makes `font` the font of `target`; answers whether it was taken.
    fn set_font(&mut self, target: DisplayHandle, font: LgfxFont) -> (accepted: bool)
        ensures
            final(self).calls() == old(self).calls().push(Call::SetFont { target, font, accepted }),
    ;

    fn set_text_size(&mut self, target: DisplayHandle, scale_x: i32, scale_y: i32)
        ensures
            final(self).calls() == old(self).calls().push(
                Call::SetTextSize { target, scale_x, scale_y },
            ),
    ;

    fn set_text_datum(&mut self, target: DisplayHandle, datum: textdatum_t)
        ensures
            final(self).calls() == old(self).calls().push(Call::SetTextDatum { target, datum }),
    ;
}

} // verus!
