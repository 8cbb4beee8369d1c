//! Drawing text: glyph after glyph from an anchored origin.

use crate::color::{Color, ColorRgb332, ColorRgb888};
use crate::datum::{
    anchor_origin, anchor_x, anchor_y, is_coordinate, lemma_anchor_left_right, textdatum_t,
    textdatum_top_left, textdatum_top_right,
};
use crate::layer::{Call, DisplayHandle, PrimitiveLayer, RawColor};
use crate::layout::{fits, measure, measure_text, scale_metric, scaled, text_glyphs};
use crate::metrics::{code_units, encode_units, text_units};
use crate::target::LgfxTarget;
use vstd::prelude::*;

verus! {

/// What all glyphs of one run share: the surface, the point the run starts
/// at, the colours and the scale (16.16 fixed point).
pub struct Pen {
    pub target: DisplayHandle,
    pub x: i32,
    pub y: i32,
    pub fg: RawColor,
    pub bg: RawColor,
    pub scale_x: i32,
    pub scale_y: i32,
}

/// The rendered width that the layer answered to a glyph call.
pub open spec fn glyph_width(call: Call) -> i32 {
    match call {
        Call::Glyph { width, .. } => width,
        _ => 0,
    }
}

/// The rendered widths of a run of glyph calls, added up as coordinates are:
/// in 32 bits, wrapping around.
pub open spec fn run_width(run: Seq<Call>) -> i32
    decreases run.len(),
{
    if run.len() == 0 {
        0
    } else {
        run_width(run.drop_last()).wrapping_add(glyph_width(run.last()))
    }
}

/// Whether `call` draws the glyph of `unit` with `pen`, `moved` pixels right
/// of where the pen starts.
pub open spec fn is_glyph_at(call: Call, unit: u16, pen: Pen, moved: i32) -> bool {
    call matches Call::Glyph { target, x, y, unit: u, fg, bg, scale_x, scale_y, .. } && target
        == pen.target && x == pen.x.wrapping_add(moved) && y == pen.y && u == unit && fg == pen.fg
        && bg == pen.bg && scale_x == pen.scale_x && scale_y == pen.scale_y
}

/// Whether `run` draws `units` one after the other with `pen`: one glyph
/// call per unit, in order, each placed right of the pen's start by the
/// rendered widths of the glyphs before it.
pub open spec fn is_glyph_run(run: Seq<Call>, units: Seq<u16>, pen: Pen) -> bool
    decreases run.len(),
{
    &&& run.len() == units.len()
    &&& run.len() > 0 ==> {
        &&& is_glyph_run(run.drop_last(), units.drop_last(), pen)
        &&& is_glyph_at(run.last(), units.last(), pen, run_width(run.drop_last()))
    }
}

/// The calls that `after` has beyond `before`.
pub open spec fn appended(before: Seq<Call>, after: Seq<Call>) -> Seq<Call> {
    after.skip(before.len() as int)
}

/// Whether `after` is `before` with a glyph run for `units` behind it, of
/// the rendered width `width`.
pub open spec fn glyphs_drawn(before: Seq<Call>, after: Seq<Call>, units: Seq<u16>, pen: Pen, width: i32) -> bool {
    &&& before.len() <= after.len()
    &&& after.take(before.len() as int) == before
    &&& is_glyph_run(appended(before, after), units, pen)
    &&& width == run_width(appended(before, after))
}

/// A run followed by a run that starts where the first ended is one run.
pub proof fn lemma_run_concat(
    first: Seq<Call>,
    first_units: Seq<u16>,
    second: Seq<Call>,
    second_units: Seq<u16>,
    pen: Pen,
)
    requires
        is_glyph_run(first, first_units, pen),
        is_glyph_run(second, second_units, Pen { x: pen.x.wrapping_add(run_width(first)), ..pen }),
    ensures
        is_glyph_run(first + second, first_units + second_units, pen),
        run_width(first + second) == run_width(first).wrapping_add(run_width(second)),
    decreases second.len(),
{
    if second.len() == 0 {
        assert(first + second =~= first);
        assert(first_units + second_units =~= first_units);
    } else {
        lemma_run_concat(first, first_units, second.drop_last(), second_units.drop_last(), pen);
        assert((first + second).drop_last() =~= first + second.drop_last());
        assert((first_units + second_units).drop_last() =~= first_units + second_units.drop_last());
        assert((first + second).last() == second.last());
        assert((first_units + second_units).last() == second_units.last());
    }
}

/// Draws the one or two code units of a character back to back.
fn draw_encoded<L: PrimitiveLayer>(
    layer: &mut L,
    target: DisplayHandle,
    c: char,
    x: i32,
    y: i32,
    fg: RawColor,
    bg: RawColor,
    scale_x: i32,
    scale_y: i32,
) -> (width: i32)
    ensures
        glyphs_drawn(
            old(layer).calls(),
            final(layer).calls(),
            code_units(c),
            Pen { target, x, y, fg, bg, scale_x, scale_y },
            width,
        ),
{
    let ghost before = layer.calls();
    let ghost pen = Pen { target, x, y, fg, bg, scale_x, scale_y };
    let (first, second) = encode_units(c);
    let first_width = layer.draw_glyph(target, x, y, first, fg, bg, scale_x, scale_y);
    proof {
        let run = appended(before, layer.calls());
        assert(run =~= seq![layer.calls().last()]);
        assert(run.drop_last() =~= Seq::<Call>::empty());
        assert(layer.calls().take(before.len() as int) =~= before);
        assert(is_glyph_run(run.drop_last(), seq![first].drop_last(), pen));
        assert(is_glyph_run(run, seq![first], pen));
    }
    match second {
        None => first_width,
        Some(low) => {
            let ghost middle = layer.calls();
            let second_width = layer.draw_glyph(
                target,
                x.wrapping_add(first_width),
                y,
                low,
                fg,
                bg,
                scale_x,
                scale_y,
            );
            proof {
                let run = appended(before, layer.calls());
                assert(run.drop_last() =~= appended(before, middle));
                assert(seq![first, low].drop_last() =~= seq![first]);
                assert(layer.calls().take(before.len() as int) =~= before);
            }
            first_width.wrapping_add(second_width)
        },
    }
}

/// Single characters in one colour encoding.
pub trait DrawChar<C: Color>: LgfxTarget {
    /// The colour as the primitive layer takes it.
    spec fn glyph_color(color: C) -> RawColor;

    /// Draws one character at `(x, y)` and gives its rendered width. A
    /// character of two code units is drawn as two glyphs, the second right
    /// of the first by the first's rendered width.
    fn draw_char<L: PrimitiveLayer>(
        &self,
        layer: &mut L,
        c: char,
        x: i32,
        y: i32,
        fg: C,
        bg: C,
        size_x: i32,
        size_y: i32,
    ) -> (width: i32)
        ensures
            glyphs_drawn(
                old(layer).calls(),
                final(layer).calls(),
                code_units(c),
                Pen {
                    target: self.handle(),
                    x,
                    y,
                    fg: Self::glyph_color(fg),
                    bg: Self::glyph_color(bg),
                    scale_x: size_x,
                    scale_y: size_y,
                },
                width,
            ),
    ;
}

impl<Target: LgfxTarget> DrawChar<ColorRgb332> for Target {
    open spec fn glyph_color(color: ColorRgb332) -> RawColor {
        RawColor::Rgb332(color@)
    }

    fn draw_char<L: PrimitiveLayer>(
        &self,
        layer: &mut L,
        c: char,
        x: i32,
        y: i32,
        fg: ColorRgb332,
        bg: ColorRgb332,
        size_x: i32,
        size_y: i32,
    ) -> (width: i32) {
        draw_encoded(
            layer,
            self.target(),
            c,
            x,
            y,
            RawColor::Rgb332(fg.raw()),
            RawColor::Rgb332(bg.raw()),
            size_x,
            size_y,
        )
    }
}

impl<Target: LgfxTarget> DrawChar<ColorRgb888> for Target {
    open spec fn glyph_color(color: ColorRgb888) -> RawColor {
        RawColor::Rgb888(color@)
    }

    fn draw_char<L: PrimitiveLayer>(
        &self,
        layer: &mut L,
        c: char,
        x: i32,
        y: i32,
        fg: ColorRgb888,
        bg: ColorRgb888,
        size_x: i32,
        size_y: i32,
    ) -> (width: i32) {
        draw_encoded(
            layer,
            self.target(),
            c,
            x,
            y,
            RawColor::Rgb888(fg.raw()),
            RawColor::Rgb888(bg.raw()),
            size_x,
            size_y,
        )
    }
}

/// Runs of characters.
pub trait DrawChars<C: Color + Copy>: DrawChar<C> {
    /// Draws the characters of `s` from `(x, y)` rightwards, each where the
    /// one before it ended, and gives the rendered width of all.
    fn draw_chars<L: PrimitiveLayer>(
        &self,
        layer: &mut L,
        s: &str,
        x: i32,
        y: i32,
        fg: C,
        bg: C,
        size_x: i32,
        size_y: i32,
    ) -> (width: i32)
        ensures
            glyphs_drawn(
                old(layer).calls(),
                final(layer).calls(),
                text_units(s@),
                Pen {
                    target: self.handle(),
                    x,
                    y,
                    fg: Self::glyph_color(fg),
                    bg: Self::glyph_color(bg),
                    scale_x: size_x,
                    scale_y: size_y,
                },
                width,
            ),
    ;
}

impl<Target, C> DrawChars<C> for Target where Target: LgfxTarget + DrawChar<C>, C: Color + Copy {
    fn draw_chars<L: PrimitiveLayer>(
        &self,
        layer: &mut L,
        s: &str,
        x: i32,
        y: i32,
        fg: C,
        bg: C,
        size_x: i32,
        size_y: i32,
    ) -> (width: i32) {
        let ghost before = layer.calls();
        let ghost pen = Pen {
            target: self.handle(),
            x,
            y,
            fg: Self::glyph_color(fg),
            bg: Self::glyph_color(bg),
            scale_x: size_x,
            scale_y: size_y,
        };
        let mut width: i32 = 0;
        proof {
            assert(appended(before, layer.calls()) =~= Seq::<Call>::empty());
            assert(layer.calls().take(before.len() as int) =~= before);
            assert(s@.take(0) =~= Seq::<char>::empty());
        }
        for c in it: s.chars()
            invariant
                it.seq() == s@,
                glyphs_drawn(before, layer.calls(), text_units(s@.take(it.index() as int)), pen, width),
                pen == (Pen {
                    target: self.handle(),
                    x,
                    y,
                    fg: Self::glyph_color(fg),
                    bg: Self::glyph_color(bg),
                    scale_x: size_x,
                    scale_y: size_y,
                }),
        {
            let ghost i = it.index() as int;
            let ghost middle = layer.calls();
            let char_width = self.draw_char(layer, c, x.wrapping_add(width), y, fg, bg, size_x, size_y);
            proof {
                let first = appended(before, middle);
                let second = appended(middle, layer.calls());
                lemma_run_concat(first, text_units(s@.take(i)), second, code_units(c), pen);
                assert(first + second =~= appended(before, layer.calls()));
                assert(s@.take(i + 1).drop_last() =~= s@.take(i));
                assert(layer.calls().take(before.len() as int) =~= before);
            }
            width = width.wrapping_add(char_width);
        }
        proof {
            assert(s@.take(s@.len() as int) =~= s@);
        }
        width
    }
}


/// Width and height of a text on a target, measured in the target's font.
pub open spec fn string_size<L: PrimitiveLayer>(
    layer: &L,
    target: DisplayHandle,
    text: Seq<char>,
    size_x: i32,
    size_y: i32,
) -> (int, int) {
    measure(text_glyphs(layer, layer.font_of(target), text), size_x as int, size_y as int)
}

/// Whether a text can be measured on a target: the target has a font, and
/// the width of the text is a coordinate.
pub open spec fn can_measure<L: PrimitiveLayer>(
    layer: &L,
    target: DisplayHandle,
    text: Seq<char>,
    size_x: i32,
    size_y: i32,
) -> bool {
    &&& !layer.font_of(target).is_null()
    &&& fits(text_glyphs(layer, layer.font_of(target), text), size_x as int, size_y as int)
}

/// The top-left corner of a text anchored at `(x, y)`: the anchor applied to
/// the measured size, with the scaled baseline and vertical offset of the
/// font's default metrics.
pub open spec fn string_origin<L: PrimitiveLayer>(
    layer: &L,
    target: DisplayHandle,
    text: Seq<char>,
    x: i32,
    y: i32,
    size_x: i32,
    size_y: i32,
    datum: textdatum_t,
) -> (int, int) {
    let size = string_size(layer, target, text, size_x, size_y);
    let base = layer.default_glyph(layer.font_of(target));
    (
        anchor_x(datum, x as int, size.0),
        anchor_y(
            datum,
            y as int,
            size.1,
            scaled(base.baseline as int, size_y as int),
            scaled(base.y_offset as int, size_y as int),
        ),
    )
}

/// Whether a text can be drawn anchored at `(x, y)`: it can be measured, and
/// its top-left corner is a pair of coordinates.
pub open spec fn can_draw<L: PrimitiveLayer>(
    layer: &L,
    target: DisplayHandle,
    text: Seq<char>,
    x: i32,
    y: i32,
    size_x: i32,
    size_y: i32,
    datum: textdatum_t,
) -> bool {
    &&& can_measure(layer, target, text, size_x, size_y)
    &&& is_coordinate(string_origin(layer, target, text, x, y, size_x, size_y, datum).0)
    &&& is_coordinate(string_origin(layer, target, text, x, y, size_x, size_y, datum).1)
}

/// Measuring and drawing strings. Scales are 16.16 fixed point.
pub trait DrawString<C: Color + Copy>: DrawChar<C> {
    /// Width of `s` and height of its tallest glyph, in device pixels.
    fn measure_string<L: PrimitiveLayer>(&self, layer: &L, s: &str, size_x: i32, size_y: i32) -> (size: (
        i32,
        i32,
    ))
        requires
            can_measure(layer, self.handle(), s@, size_x, size_y),
        ensures
            (size.0 as int, size.1 as int) == string_size(layer, self.handle(), s@, size_x, size_y),
    ;

    /// As `measure_string`, and `None` where the text cannot be measured.
    fn try_measure_string<L: PrimitiveLayer>(&self, layer: &L, s: &str, size_x: i32, size_y: i32) -> (size:
        Option<(i32, i32)>)
        ensures
            size is Some <==> can_measure(layer, self.handle(), s@, size_x, size_y),
            size matches Some(sz) ==> (sz.0 as int, sz.1 as int) == string_size(
                layer,
                self.handle(),
                s@,
                size_x,
                size_y,
            ),
    ;

    /// Draws `s` anchored at `(x, y)` as `datum` says and gives its measured
    /// size. The glyphs go from the anchored top-left corner rightwards,
    /// each where the one before it ended by its rendered width.
    fn draw_string<L: PrimitiveLayer>(
        &self,
        layer: &mut L,
        s: &str,
        x: i32,
        y: i32,
        fg: C,
        bg: C,
        size_x: i32,
        size_y: i32,
        datum: textdatum_t,
    ) -> (size: (i32, i32))
        requires
            can_draw(old(layer), self.handle(), s@, x, y, size_x, size_y, datum),
        ensures
            (size.0 as int, size.1 as int) == string_size(old(layer), self.handle(), s@, size_x, size_y),
            glyphs_drawn(
                old(layer).calls(),
                final(layer).calls(),
                text_units(s@),
                Pen {
                    target: self.handle(),
                    x: string_origin(old(layer), self.handle(), s@, x, y, size_x, size_y, datum).0 as i32,
                    y: string_origin(old(layer), self.handle(), s@, x, y, size_x, size_y, datum).1 as i32,
                    fg: Self::glyph_color(fg),
                    bg: Self::glyph_color(bg),
                    scale_x: size_x,
                    scale_y: size_y,
                },
                run_width(appended(old(layer).calls(), final(layer).calls())),
            ),
    ;

    /// As `draw_string`, and `None` with nothing drawn where the text cannot
    /// be drawn.
    fn try_draw_string<L: PrimitiveLayer>(
        &self,
        layer: &mut L,
        s: &str,
        x: i32,
        y: i32,
        fg: C,
        bg: C,
        size_x: i32,
        size_y: i32,
        datum: textdatum_t,
    ) -> (size: Option<(i32, i32)>)
        ensures
            size is Some <==> can_draw(old(layer), self.handle(), s@, x, y, size_x, size_y, datum),
            size is None ==> final(layer).calls() == old(layer).calls(),
            size matches Some(sz) ==> {
                &&& (sz.0 as int, sz.1 as int) == string_size(
                    old(layer),
                    self.handle(),
                    s@,
                    size_x,
                    size_y,
                )
                &&& glyphs_drawn(
                    old(layer).calls(),
                    final(layer).calls(),
                    text_units(s@),
                    Pen {
                        target: self.handle(),
                        x: string_origin(old(layer), self.handle(), s@, x, y, size_x, size_y, datum).0 as i32,
                        y: string_origin(old(layer), self.handle(), s@, x, y, size_x, size_y, datum).1 as i32,
                        fg: Self::glyph_color(fg),
                        bg: Self::glyph_color(bg),
                        scale_x: size_x,
                        scale_y: size_y,
                    },
                    run_width(appended(old(layer).calls(), final(layer).calls())),
                )
            },
    ;
}

impl<Target, C> DrawString<C> for Target where Target: LgfxTarget + DrawChar<C>, C: Color + Copy {
    fn measure_string<L: PrimitiveLayer>(&self, layer: &L, s: &str, size_x: i32, size_y: i32) -> (size: (
        i32,
        i32,
    )) {
        let font = layer.get_font(self.target());
        measure_text(layer, font, s, size_x, size_y).unwrap()
    }

    fn try_measure_string<L: PrimitiveLayer>(&self, layer: &L, s: &str, size_x: i32, size_y: i32) -> (size:
        Option<(i32, i32)>) {
        let font = layer.get_font(self.target());
        if font.is_null() {
            None
        } else {
            measure_text(layer, font, s, size_x, size_y)
        }
    }

    fn draw_string<L: PrimitiveLayer>(
        &self,
        layer: &mut L,
        s: &str,
        x: i32,
        y: i32,
        fg: C,
        bg: C,
        size_x: i32,
        size_y: i32,
        datum: textdatum_t,
    ) -> (size: (i32, i32)) {
        self.try_draw_string(layer, s, x, y, fg, bg, size_x, size_y, datum).unwrap()
    }

    fn try_draw_string<L: PrimitiveLayer>(
        &self,
        layer: &mut L,
        s: &str,
        x: i32,
        y: i32,
        fg: C,
        bg: C,
        size_x: i32,
        size_y: i32,
        datum: textdatum_t,
    ) -> (size: Option<(i32, i32)>) {
        let font = layer.get_font(self.target());
        if font.is_null() {
            return None;
        }
        let (string_width, string_height) = match measure_text(layer, font, s, size_x, size_y) {
            Some(size) => size,
            None => {
                return None;
            },
        };
        let metrics = font.default_metrics(layer);
        let baseline = scale_metric(metrics.baseline, size_y);
        let offset = scale_metric(metrics.y_offset, size_y);
        let (left, top) = match anchor_origin(datum, x, y, string_width, string_height, baseline, offset) {
            Some(origin) => origin,
            None => {
                return None;
            },
        };
        self.draw_chars(layer, s, left, top, fg, bg, size_x, size_y);
        Some((string_width, string_height))
    }
}


/// A glyph run is made of glyph calls only: drawing text ends no write and
/// touches no sprite.
pub proof fn lemma_glyph_run_calls(run: Seq<Call>, units: Seq<u16>, pen: Pen)
    requires
        is_glyph_run(run, units, pen),
    ensures
        forall|i: int| 0 <= i < run.len() ==> #[trigger] run[i] is Glyph,
    decreases run.len(),
{
    if run.len() > 0 {
        lemma_glyph_run_calls(run.drop_last(), units.drop_last(), pen);
        assert forall|i: int| 0 <= i < run.len() implies #[trigger] run[i] is Glyph by {
            if i < run.len() - 1 {
                assert(run[i] == run.drop_last()[i]);
            }
        }
    }
}

/// The empty text measures `(0, 0)` on any target, at any scale.
pub proof fn lemma_empty_string_size<L: PrimitiveLayer>(layer: &L, target: DisplayHandle, size_x: i32, size_y: i32)
    ensures
        string_size(layer, target, Seq::<char>::empty(), size_x, size_y) == (0int, 0int),
{
    assert(text_glyphs(layer, layer.font_of(target), Seq::<char>::empty()) =~= Seq::empty());
}

/// A text drawn from its top-left corner at `(x, y)` starts at the same
/// point as the same text drawn from its top-right corner at
/// `(x + width, y)`, where `width` is its measured width and `x + width` is
/// a coordinate.
pub proof fn lemma_anchor_invariance<L: PrimitiveLayer>(
    layer: &L,
    target: DisplayHandle,
    text: Seq<char>,
    x: i32,
    y: i32,
    size_x: i32,
    size_y: i32,
)
    requires
        is_coordinate(x + string_size(layer, target, text, size_x, size_y).0),
    ensures
        string_origin(layer, target, text, x, y, size_x, size_y, textdatum_top_left)
            == string_origin(
            layer,
            target,
            text,
            (x + string_size(layer, target, text, size_x, size_y).0) as i32,
            y,
            size_x,
            size_y,
            textdatum_top_right,
        ),
{
    let size = string_size(layer, target, text, size_x, size_y);
    let base = layer.default_glyph(layer.font_of(target));
    lemma_anchor_left_right(
        x as int,
        y as int,
        size.0,
        size.1,
        scaled(base.baseline as int, size_y as int),
        scaled(base.y_offset as int, size_y as int),
    );
}

} // verus!
