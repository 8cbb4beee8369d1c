//! Drawing primitives, images and font settings on any target.

use crate::color::{Color, ColorRgb332, ColorRgb888};
use crate::datum::{textdatum_t, textdatum_top_left};
use crate::layer::{
    extended_by, is_draw_png, is_push_image, Call, DisplayHandle, LgfxFont, Placement,
    PrimitiveLayer, RawColor,
};
use crate::target::LgfxTarget;
use vstd::prelude::*;

verus! {

/// The size of a target.
pub trait Screen: LgfxTarget {
    /// Width and height in pixels.
    fn size<L: PrimitiveLayer>(&self, layer: &L) -> (size: (i32, i32))
        ensures
            size == layer.extent(self.handle()),
    ;
}

impl<Target: LgfxTarget> Screen for Target {
    fn size<L: PrimitiveLayer>(&self, layer: &L) -> (size: (i32, i32)) {
        let target = self.target();
        (layer.width(target), layer.height(target))
    }
}

/// Filling and outlining in one colour encoding.
pub trait DrawPrimitives<C: Color>: LgfxTarget {
    /// The colour as the primitive layer takes it.
    spec fn raw_color(color: C) -> RawColor;

    fn clear<L: PrimitiveLayer>(&mut self, layer: &mut L, color: C)
        ensures
            final(self).handle() == old(self).handle(),
            final(layer).calls() == old(layer).calls().push(
                Call::Clear { target: old(self).handle(), color: Self::raw_color(color) },
            ),
    ;

    fn draw_rect<L: PrimitiveLayer>(&mut self, layer: &mut L, x: i32, y: i32, w: i32, h: i32, color: C)
        ensures
            final(self).handle() == old(self).handle(),
            final(layer).calls() == old(layer).calls().push(
                Call::DrawRect { target: old(self).handle(), x, y, w, h, color: Self::raw_color(color) },
            ),
    ;

    fn fill_rect<L: PrimitiveLayer>(&mut self, layer: &mut L, x: i32, y: i32, w: i32, h: i32, color: C)
        ensures
            final(self).handle() == old(self).handle(),
            final(layer).calls() == old(layer).calls().push(
                Call::FillRect { target: old(self).handle(), x, y, w, h, color: Self::raw_color(color) },
            ),
    ;

    fn draw_line<L: PrimitiveLayer>(&mut self, layer: &mut L, x0: i32, y0: i32, x1: i32, y1: i32, color: C)
        ensures
            final(self).handle() == old(self).handle(),
            final(layer).calls() == old(layer).calls().push(
                Call::DrawLine {
                    target: old(self).handle(),
                    x0,
                    y0,
                    x1,
                    y1,
                    color: Self::raw_color(color),
                },
            ),
    ;
}

impl<Target: LgfxTarget> DrawPrimitives<ColorRgb332> for Target {
    open spec fn raw_color(color: ColorRgb332) -> RawColor {
        RawColor::Rgb332(color@)
    }

    fn clear<L: PrimitiveLayer>(&mut self, layer: &mut L, color: ColorRgb332) {
        layer.clear(self.target(), RawColor::Rgb332(color.raw()));
    }

    fn draw_rect<L: PrimitiveLayer>(&mut self, layer: &mut L, x: i32, y: i32, w: i32, h: i32, color: ColorRgb332) {
        layer.draw_rect(self.target(), x, y, w, h, RawColor::Rgb332(color.raw()));
    }

    fn fill_rect<L: PrimitiveLayer>(&mut self, layer: &mut L, x: i32, y: i32, w: i32, h: i32, color: ColorRgb332) {
        layer.fill_rect(self.target(), x, y, w, h, RawColor::Rgb332(color.raw()));
    }

    fn draw_line<L: PrimitiveLayer>(
        &mut self,
        layer: &mut L,
        x0: i32,
        y0: i32,
        x1: i32,
        y1: i32,
        color: ColorRgb332,
    ) {
        layer.draw_line(self.target(), x0, y0, x1, y1, RawColor::Rgb332(color.raw()));
    }
}

impl<Target: LgfxTarget> DrawPrimitives<ColorRgb888> for Target {
    open spec fn raw_color(color: ColorRgb888) -> RawColor {
        RawColor::Rgb888(color@)
    }

    fn clear<L: PrimitiveLayer>(&mut self, layer: &mut L, color: ColorRgb888) {
        layer.clear(self.target(), RawColor::Rgb888(color.raw()));
    }

    fn draw_rect<L: PrimitiveLayer>(&mut self, layer: &mut L, x: i32, y: i32, w: i32, h: i32, color: ColorRgb888) {
        layer.draw_rect(self.target(), x, y, w, h, RawColor::Rgb888(color.raw()));
    }

    fn fill_rect<L: PrimitiveLayer>(&mut self, layer: &mut L, x: i32, y: i32, w: i32, h: i32, color: ColorRgb888) {
        layer.fill_rect(self.target(), x, y, w, h, RawColor::Rgb888(color.raw()));
    }

    fn draw_line<L: PrimitiveLayer>(
        &mut self,
        layer: &mut L,
        x0: i32,
        y0: i32,
        x1: i32,
        y1: i32,
        color: ColorRgb888,
    ) {
        layer.draw_line(self.target(), x0, y0, x1, y1, RawColor::Rgb888(color.raw()));
    }
}

/// A request to draw a PNG image, filled in step by step and then executed.
#[must_use]
pub struct DrawPng<'a> {
    target: DisplayHandle,
    data: &'a [u8],
    placement: Placement,
}

/// The placement of a request nothing was said about: at the origin, no size
/// limit, no offset, horizontal scale one, vertical scale zero (which
/// follows the horizontal one), anchored top-left.
pub open spec fn default_placement() -> Placement {
    Placement {
        x: 0,
        y: 0,
        max_width: 0,
        max_height: 0,
        offset_x: 0,
        offset_y: 0,
        scale_x: 0x1_0000,
        scale_y: 0,
        datum: textdatum_top_left,
    }
}

impl<'a> DrawPng<'a> {
    /// The surface the image goes to.
    pub closed spec fn surface(&self) -> DisplayHandle {
        self.target
    }

    /// The encoded image.
    pub closed spec fn image(&self) -> Seq<u8> {
        self.data@
    }

    /// Where and how the image is placed.
    pub closed spec fn placement(&self) -> Placement {
        self.placement
    }

    fn new(target: DisplayHandle, data: &'a [u8]) -> (request: Self)
        ensures
            request.surface() == target,
            request.image() == data@,
            request.placement() == default_placement(),
    {
        Self {
            target,
            data,
            placement: Placement {
                x: 0,
                y: 0,
                max_width: 0,
                max_height: 0,
                offset_x: 0,
                offset_y: 0,
                scale_x: 0x1_0000,
                scale_y: 0,
                datum: textdatum_top_left,
            },
        }
    }

    /// Sets the position.
    pub fn postion(self, x: i32, y: i32) -> (request: Self)
        ensures
            request.surface() == self.surface(),
            request.image() == self.image(),
            request.placement() == (Placement { x, y, ..self.placement() }),
    {
        let mut request = self;
        request.placement.x = x;
        request.placement.y = y;
        request
    }

    /// Sets the largest size drawn.
    pub fn max_size(self, max_width: i32, max_height: i32) -> (request: Self)
        ensures
            request.surface() == self.surface(),
            request.image() == self.image(),
            request.placement() == (Placement { max_width, max_height, ..self.placement() }),
    {
        let mut request = self;
        request.placement.max_width = max_width;
        request.placement.max_height = max_height;
        request
    }

    /// Sets the offset into the image.
    pub fn offset(self, offset_x: i32, offset_y: i32) -> (request: Self)
        ensures
            request.surface() == self.surface(),
            request.image() == self.image(),
            request.placement() == (Placement { offset_x, offset_y, ..self.placement() }),
    {
        let mut request = self;
        request.placement.offset_x = offset_x;
        request.placement.offset_y = offset_y;
        request
    }

    /// Sets the scale, in 16.16 fixed point.
    pub fn scale(self, scale_x: i32, scale_y: i32) -> (request: Self)
        ensures
            request.surface() == self.surface(),
            request.image() == self.image(),
            request.placement() == (Placement { scale_x, scale_y, ..self.placement() }),
    {
        let mut request = self;
        request.placement.scale_x = scale_x;
        request.placement.scale_y = scale_y;
        request
    }

    /// Sets the anchor.
    pub fn datum(self, datum: textdatum_t) -> (request: Self)
        ensures
            request.surface() == self.surface(),
            request.image() == self.image(),
            request.placement() == (Placement { datum, ..self.placement() }),
    {
        let mut request = self;
        request.placement.datum = datum;
        request
    }

    /// Hands the request to the primitive layer.
    pub fn execute<L: PrimitiveLayer>(self, layer: &mut L)
        ensures
            extended_by(
                old(layer).calls(),
                final(layer).calls(),
                |call: Call| is_draw_png(call, self.surface(), self.image(), self.placement()),
            ),
    {
        layer.draw_png(self.target, self.data, self.placement);
    }
}

/// Images on a target.
pub trait DrawImage: LgfxTarget {
    /// Starts a request to draw the PNG image `data` on this target.
    fn draw_png<'a>(&mut self, data: &'a [u8]) -> (request: DrawPng<'a>)
        ensures
            final(self).handle() == old(self).handle(),
            request.surface() == old(self).handle(),
            request.image() == data@,
            request.placement() == default_placement(),
    ;

    /// Copies raw 24-bit pixels, `w` by `h` of them, to `(x, y)`.
    fn push_image_rgb888<L: PrimitiveLayer>(
        &mut self,
        layer: &mut L,
        x: i32,
        y: i32,
        w: i32,
        h: i32,
        data: &[u8],
    )
        ensures
            final(self).handle() == old(self).handle(),
            extended_by(
                old(layer).calls(),
                final(layer).calls(),
                |call: Call| is_push_image(call, old(self).handle(), x, y, w, h, data@),
            ),
    ;
}

impl<Target: LgfxTarget> DrawImage for Target {
    fn draw_png<'a>(&mut self, data: &'a [u8]) -> (request: DrawPng<'a>) {
        DrawPng::new(self.target(), data)
    }

    fn push_image_rgb888<L: PrimitiveLayer>(
        &mut self,
        layer: &mut L,
        x: i32,
        y: i32,
        w: i32,
        h: i32,
        data: &[u8],
    ) {
        let target = self.target();
        layer.push_image_rgb888(target, x, y, w, h, data);
    }
}

/// The font settings of a target.
pub trait FontManupulation: LgfxTarget {
    /// The line height of the target's font.
    fn font_height<L: PrimitiveLayer>(&self, layer: &L) -> (height: i32)
        ensures
            height == layer.line_height(self.handle()),
    ;

    /// The target's font, or `Err` where it has none.
    fn get_font<L: PrimitiveLayer>(&self, layer: &L) -> (font: Result<LgfxFont, ()>)
        ensures
            font == if layer.font_of(self.handle()).is_null() {
                Err::<LgfxFont, ()>(())
            } else {
                Ok::<LgfxFont, ()>(layer.font_of(self.handle()))
            },
    ;

    /// Makes `font` the target's font; `Err` where the layer refuses it.
    fn set_font<L: PrimitiveLayer>(&mut self, layer: &mut L, font: LgfxFont) -> (done: Result<(), ()>)
        ensures
            final(self).handle() == old(self).handle(),
            final(layer).calls() == old(layer).calls().push(
                Call::SetFont { target: old(self).handle(), font, accepted: done is Ok },
            ),
    ;

    /// Sets the scale of text, in 16.16 fixed point.
    fn set_text_size<L: PrimitiveLayer>(&mut self, layer: &mut L, sx: i32, sy: i32)
        ensures
            final(self).handle() == old(self).handle(),
            final(layer).calls() == old(layer).calls().push(
                Call::SetTextSize { target: old(self).handle(), scale_x: sx, scale_y: sy },
            ),
    ;

    /// Sets the anchor of text.
    fn set_text_datum<L: PrimitiveLayer>(&mut self, layer: &mut L, datum: textdatum_t)
        ensures
            final(self).handle() == old(self).handle(),
            final(layer).calls() == old(layer).calls().push(
                Call::SetTextDatum { target: old(self).handle(), datum },
            ),
    ;
}

impl<Target: LgfxTarget> FontManupulation for Target {
    fn font_height<L: PrimitiveLayer>(&self, layer: &L) -> (height: i32) {
        layer.font_height(self.target())
    }

    fn get_font<L: PrimitiveLayer>(&self, layer: &L) -> (font: Result<LgfxFont, ()>) {
        let font = layer.get_font(self.target());
        if font.is_null() {
            Err(())
        } else {
            Ok(font)
        }
    }

    fn set_font<L: PrimitiveLayer>(&mut self, layer: &mut L, font: LgfxFont) -> (done: Result<(), ()>) {
        let success = layer.set_font(self.target(), font);
        if success {
            Ok(())
        } else {
            Err(())
        }
    }

    fn set_text_size<L: PrimitiveLayer>(&mut self, layer: &mut L, sx: i32, sy: i32) {
        layer.set_text_size(self.target(), sx, sy);
    }

    fn set_text_datum<L: PrimitiveLayer>(&mut self, layer: &mut L, datum: textdatum_t) {
        layer.set_text_datum(self.target(), datum);
    }
}

} // verus!
