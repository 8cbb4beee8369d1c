//! A target seen as a grid of 24-bit pixels, for drawing code that works
//! pixel by pixel or in filled rectangles.

use crate::color::{rgb888, ColorRgb888};
use crate::draw::{DrawPrimitives, Screen};
use crate::layer::{Call, DisplayHandle, PrimitiveLayer, RawColor};
use crate::target::LgfxTarget;
use vstd::prelude::*;

verus! {

/// One pixel: where it lies and its three channels.
#[derive(Debug, Clone, Copy, PartialEq, Eq, Structural)]
pub struct Pixel {
    pub x: i32,
    pub y: i32,
    pub red: u8,
    pub green: u8,
    pub blue: u8,
}

/// A target borrowed for pixel-wise drawing.
pub struct LgfxDisplay<'a, Target: LgfxTarget> {
    target: &'a mut Target,
}

/// The call that draws one pixel on `target`: a line from the pixel to
/// itself, in the pixel's colour.
pub open spec fn pixel_call(target: DisplayHandle, pixel: Pixel) -> Call {
    Call::DrawLine {
        target,
        x0: pixel.x,
        y0: pixel.y,
        x1: pixel.x,
        y1: pixel.y,
        color: RawColor::Rgb888(
            rgb888(pixel.red as int, pixel.green as int, pixel.blue as int) as u32,
        ),
    }
}

/// The calls that draw `pixels` on `target`, one for each in order.
pub open spec fn pixel_calls(target: DisplayHandle, pixels: Seq<Pixel>) -> Seq<Call> {
    Seq::new(pixels.len(), |i: int| pixel_call(target, pixels[i]))
}

impl<'a, Target: LgfxTarget> LgfxDisplay<'a, Target> {
    pub fn new(target: &'a mut Target) -> (display: Self)
        ensures
            display.handle() == old(target).handle(),
    {
        Self { target }
    }

    /// Width and height as unsigned numbers; a negative size wraps around.
    pub fn size<L: PrimitiveLayer>(&self, layer: &L) -> (size: (u32, u32))
        ensures
            size == (layer.extent(self.handle()).0 as u32, layer.extent(self.handle()).1 as u32),
    {
        let size = Screen::size(self, layer);
        (
            #[verifier::truncate]
            (size.0 as u32),
            #[verifier::truncate]
            (size.1 as u32),
        )
    }

    /// Draws the pixels in order, each as a line from the pixel to itself.
    pub fn draw_iter<L: PrimitiveLayer>(&mut self, layer: &mut L, pixels: &[Pixel])
        ensures
            final(self).handle() == old(self).handle(),
            final(layer).calls() == old(layer).calls() + pixel_calls(old(self).handle(), pixels@),
    {
        let ghost before = layer.calls();
        let ghost target = self.handle();
        let mut i: usize = 0;
        proof {
            assert(before + pixel_calls(target, pixels@.take(0)) =~= before);
        }
        while i < pixels.len()
            invariant
                i <= pixels.len(),
                self.handle() == target,
                layer.calls() == before + pixel_calls(target, pixels@.take(i as int)),
            decreases pixels.len() - i,
        {
            let pixel = pixels[i];
            let color = ColorRgb888::from_channels(pixel.red, pixel.green, pixel.blue);
            self.draw_line(layer, pixel.x, pixel.y, pixel.x, pixel.y, color);
            proof {
                assert(0 <= rgb888(pixel.red as int, pixel.green as int, pixel.blue as int)
                    <= 0xff_ffff);
                assert(pixel_calls(target, pixels@.take(i + 1)) =~= pixel_calls(
                    target,
                    pixels@.take(i as int),
                ).push(pixel_call(target, pixel)));
                assert(layer.calls() =~= before + pixel_calls(target, pixels@.take(i + 1)));
            }
            i = i + 1;
        }
        proof {
            assert(pixels@.take(i as int) =~= pixels@);
        }
    }

    /// Fills the rectangle of the given corner and size. A width or height
    /// beyond the signed range wraps around.
    pub fn fill_solid<L: PrimitiveLayer>(
        &mut self,
        layer: &mut L,
        x: i32,
        y: i32,
        width: u32,
        height: u32,
        red: u8,
        green: u8,
        blue: u8,
    )
        ensures
            final(self).handle() == old(self).handle(),
            final(layer).calls() == old(layer).calls().push(
                Call::FillRect {
                    target: old(self).handle(),
                    x,
                    y,
                    w: width as i32,
                    h: height as i32,
                    color: RawColor::Rgb888(rgb888(red as int, green as int, blue as int) as u32),
                },
            ),
    {
        let color = ColorRgb888::from_channels(red, green, blue);
        proof {
            assert(0 <= rgb888(red as int, green as int, blue as int) <= 0xff_ffff);
        }
        self.fill_rect(
            layer,
            x,
            y,
            #[verifier::truncate]
            (width as i32),
            #[verifier::truncate]
            (height as i32),
            color,
        );
    }
}

impl<'a, Target: LgfxTarget> LgfxTarget for LgfxDisplay<'a, Target> {
    closed spec fn handle(&self) -> DisplayHandle {
        self.target.handle()
    }

    fn target(&self) -> (h: DisplayHandle) {
        self.target.target()
    }
}

} // verus!
