//! Text measurement: from the metrics of each glyph to the width and height
//! of a string.

use crate::layer::{LgfxFont, PrimitiveLayer};
use crate::metrics::{narrow_unit, GlyphMetrics, LgfxError};
use vstd::prelude::*;
use vstd::string::StringSliceAdditionalSpecFns;
use vstd::utf8::encode_utf8;

verus! {

/// A font-unit value at a 16.16 fixed-point scale, rounded down.
pub open spec fn scaled(value: int, scale: int) -> int {
    (value * scale) / 0x1_0000
}

/// The larger of two numbers.
pub open spec fn larger(a: int, b: int) -> int {
    if a >= b {
        a
    } else {
        b
    }
}

/// How far a measured string reaches. `left` is where the next glyph starts,
/// `right` the right edge of what was measured, `height` the tallest glyph;
/// `started` says whether any glyph was measured.
pub struct Extent {
    pub left: int,
    pub right: int,
    pub height: int,
    pub started: bool,
}

/// The extent of no glyph at all.
pub open spec fn no_extent() -> Extent {
    Extent { left: 0, right: 0, height: 0, started: false }
}

/// The extent after one more glyph. Only the first glyph of a string, if its
/// scaled offset is negative, moves the start right by that offset. The
/// right edge is the start plus the larger of the advance and of offset plus
/// width; then the start moves by the advance.
pub open spec fn with_glyph(before: Extent, glyph: GlyphMetrics, scale_x: int, scale_y: int) -> Extent {
    let offset = scaled(glyph.x_offset as int, scale_x);
    let advance = scaled(glyph.x_advance as int, scale_x);
    let width = scaled(glyph.width as int, scale_x);
    let height = scaled(glyph.height as int, scale_y);
    let start = if !before.started && offset < 0 {
        -offset
    } else {
        before.left
    };
    Extent {
        left: start + advance,
        right: start + larger(advance, width + offset),
        height: larger(before.height, height),
        started: true,
    }
}

/// The extent of a run of characters, each given by its glyph or by `None`
/// where it has none. A character without a glyph adds nothing.
pub open spec fn extent_of(glyphs: Seq<Option<GlyphMetrics>>, scale_x: int, scale_y: int) -> Extent
    decreases glyphs.len(),
{
    if glyphs.len() == 0 {
        no_extent()
    } else {
        let before = extent_of(glyphs.drop_last(), scale_x, scale_y);
        match glyphs.last() {
            Some(glyph) => with_glyph(before, glyph, scale_x, scale_y),
            None => before,
        }
    }
}

/// Width and height of a run of glyphs.
pub open spec fn measure(glyphs: Seq<Option<GlyphMetrics>>, scale_x: int, scale_y: int) -> (int, int) {
    let extent = extent_of(glyphs, scale_x, scale_y);
    (extent.right, extent.height)
}

/// The metrics of a character in a font: the font's defaults made specific
/// to the character's code unit. `Unicode` where the character takes two
/// code units, `Metrics` where the font has no glyph for it.
pub open spec fn char_metrics<L: PrimitiveLayer>(layer: &L, font: LgfxFont, c: char) -> Result<
    GlyphMetrics,
    LgfxError,
> {
    if (c as int) >= 0x1_0000 {
        Err(LgfxError::Unicode)
    } else {
        match layer.glyph(font, layer.default_glyph(font), c as u16) {
            Some(metrics) => Ok(metrics),
            None => Err(LgfxError::Metrics),
        }
    }
}

/// The glyph of each character of a text, `None` where it has no metrics.
pub open spec fn text_glyphs<L: PrimitiveLayer>(layer: &L, font: LgfxFont, text: Seq<char>) -> Seq<
    Option<GlyphMetrics>,
> {
    Seq::new(
        text.len(),
        |i: int|
            match char_metrics(layer, font, text[i]) {
                Ok(metrics) => Some(metrics),
                Err(_) => None,
            },
    )
}

/// Scales one metric.
pub fn scale_metric(value: i16, scale: i32) -> (r: i32)
    ensures
        r == scaled(value as int, scale as int),
        -0x4000_0000 <= r <= 0x4000_0000,
{
    let wide_value: i64 = value as i64;
    let wide_scale: i64 = scale as i64;
    assert(-0x4000_0000_0000 <= wide_value * wide_scale <= 0x4000_0000_0000) by (nonlinear_arith)
        requires
            -0x8000 <= wide_value <= 0x7fff,
            -0x8000_0000 <= wide_scale <= 0x7fff_ffff,
    ;
    let product: i64 = wide_value * wide_scale;
    let shifted: i64 = product >> 16;
    assert(shifted == product as int / 0x1_0000) by (bit_vector)
        requires
            shifted == product >> 16,
    ;
    shifted as i32
}

impl LgfxFont {
    pub open spec fn is_null_spec(&self) -> bool {
        self.ptr == 0
    }

    #[verifier::when_used_as_spec(is_null_spec)]
    pub fn is_null(&self) -> (null: bool)
        ensures
            null == self.is_null_spec(),
    {
        self.ptr == 0
    }

    /// The metrics this font falls back on.
    pub fn default_metrics<L: PrimitiveLayer>(&self, layer: &L) -> (metrics: GlyphMetrics)
        ensures
            metrics == layer.default_glyph(*self),
    {
        layer.font_default_metrics(*self)
    }

    /// The metrics of one character.
    pub fn metrics<L: PrimitiveLayer>(&self, layer: &L, c: char) -> (metrics: Result<
        GlyphMetrics,
        LgfxError,
    >)
        ensures
            metrics == char_metrics(layer, *self, c),
    {
        let base = self.default_metrics(layer);
        match narrow_unit(c) {
            Err(e) => Err(e),
            Ok(unit) => {
                match layer.font_glyph_metrics(*self, base, unit) {
                    Some(metrics) => Ok(metrics),
                    None => Err(LgfxError::Metrics),
                }
            },
        }
    }
}

/// Whether a measured width can be handed back as a coordinate.
pub open spec fn fits(glyphs: Seq<Option<GlyphMetrics>>, scale_x: int, scale_y: int) -> bool {
    i32::MIN <= measure(glyphs, scale_x, scale_y).0 <= i32::MAX
}

/// Adding one character to a run adds its glyph to the extent.
pub proof fn lemma_extent_push(
    glyphs: Seq<Option<GlyphMetrics>>,
    next: Option<GlyphMetrics>,
    scale_x: int,
    scale_y: int,
)
    ensures
        extent_of(glyphs.push(next), scale_x, scale_y) == match next {
            Some(glyph) => with_glyph(extent_of(glyphs, scale_x, scale_y), glyph, scale_x, scale_y),
            None => extent_of(glyphs, scale_x, scale_y),
        },
{
    assert(glyphs.push(next).drop_last() =~= glyphs);
}

/// A text has no more characters than its encoding has bytes.
proof fn lemma_encoded_len(chars: Seq<char>)
    ensures
        chars.len() <= encode_utf8(chars).len(),
    decreases chars.len(),
{
    if chars.len() > 0 {
        lemma_encoded_len(chars.drop_first());
    }
}

/// Measures a text in a font: the width and the height of the tallest glyph,
/// the width in a wide integer that holds it whatever the text.
fn measure_wide<L: PrimitiveLayer>(layer: &L, font: LgfxFont, text: &str, scale_x: i32, scale_y: i32) -> (size:
    (i128, i32))
    ensures
        (size.0 as int, size.1 as int) == measure(
            text_glyphs(layer, font, text@),
            scale_x as int,
            scale_y as int,
        ),
{
    let encoded_len = text.as_bytes().len();
    proof {
        lemma_encoded_len(text@);
        assert(text@.len() <= encoded_len);
    }
    let mut left: i128 = 0;
    let mut right: i128 = 0;
    let mut max_height: i32 = 0;
    let mut started: bool = false;
    let ghost glyphs = text_glyphs(layer, font, text@);
    for c in it: text.chars()
        invariant
            it.seq() == text@,
            text@.len() <= usize::MAX,
            glyphs == text_glyphs(layer, font, text@),
            extent_of(glyphs.take(it.index() as int), scale_x as int, scale_y as int) == (Extent {
                left: left as int,
                right: right as int,
                height: max_height as int,
                started,
            }),
            -0x8000_0000 * (it.index() + 1) <= left <= 0x8000_0000 * (it.index() + 1),
            0 <= max_height <= 0x4000_0000,
    {
        let ghost i = it.index() as int;
        proof {
            assert(glyphs.take(i + 1) =~= glyphs.take(i).push(glyphs[i]));
            lemma_extent_push(glyphs.take(i), glyphs[i], scale_x as int, scale_y as int);
        }
        match font.metrics(layer, c) {
            Ok(metrics) => {
                let offset = scale_metric(metrics.x_offset, scale_x);
                let advance = scale_metric(metrics.x_advance, scale_x);
                let width = scale_metric(metrics.width, scale_x);
                let height = scale_metric(metrics.height, scale_y);
                if !started && offset < 0 {
                    left = -(offset as i128);
                }
                let ink: i64 = width as i64 + offset as i64;
                let reach: i64 = if advance as i64 >= ink {
                    advance as i64
                } else {
                    ink
                };
                right = left + reach as i128;
                left = left + advance as i128;
                if height > max_height {
                    max_height = height;
                }
                started = true;
            },
            Err(_) => {},
        }
    }
    proof {
        assert(glyphs.take(glyphs.len() as int) =~= glyphs);
    }
    (right, max_height)
}

/// Measures a text in a font: `(width, height)` in device pixels, or `None`
/// where the width is no coordinate.
pub fn measure_text<L: PrimitiveLayer>(layer: &L, font: LgfxFont, text: &str, scale_x: i32, scale_y: i32) -> (size:
    Option<(i32, i32)>)
    ensures
        size is Some <==> fits(text_glyphs(layer, font, text@), scale_x as int, scale_y as int),
        size matches Some(sz) ==> (sz.0 as int, sz.1 as int) == measure(
            text_glyphs(layer, font, text@),
            scale_x as int,
            scale_y as int,
        ),
{
    let (width, height) = measure_wide(layer, font, text, scale_x, scale_y);
    if width < i32::MIN as i128 || width > i32::MAX as i128 {
        None
    } else {
        Some((width as i32, height))
    }
}


/// A glyph that moves the cursor forward and keeps its ink within its
/// advance.
pub open spec fn is_regular(glyph: GlyphMetrics) -> bool {
    glyph.x_advance >= 0 && glyph.width + glyph.x_offset <= glyph.x_advance
}

/// Whether every glyph of a run is regular.
pub open spec fn all_regular(glyphs: Seq<Option<GlyphMetrics>>) -> bool {
    forall|i: int| 0 <= i < glyphs.len() ==> (#[trigger] glyphs[i] matches Some(glyph) ==> is_regular(glyph))
}

/// Whether a run ends with no ink right of the cursor.
pub open spec fn is_settled(extent: Extent) -> bool {
    extent.right <= extent.left
}

/// The empty text measures `(0, 0)` at any scale.
pub proof fn lemma_measure_empty(scale_x: int, scale_y: int)
    ensures
        measure(Seq::<Option<GlyphMetrics>>::empty(), scale_x, scale_y) == (0int, 0int),
{
}

/// Scaling by a positive factor keeps the order of two values, and the
/// scaled parts of a sum are together no more than the scaled sum.
proof fn lemma_scaled_order(a: int, b: int, c: int, scale: int)
    requires
        scale > 0,
        a + b <= c,
    ensures
        scaled(a, scale) + scaled(b, scale) <= scaled(c, scale),
        c >= 0 ==> scaled(c, scale) >= 0,
{
    assert(a * scale + b * scale <= c * scale) by (nonlinear_arith)
        requires
            scale > 0,
            a + b <= c,
    ;
    assert(c >= 0 ==> c * scale >= 0) by (nonlinear_arith)
        requires
            scale > 0,
    ;
}

/// Until a glyph is measured the extent is that of no glyph.
pub proof fn lemma_unstarted_extent(glyphs: Seq<Option<GlyphMetrics>>, scale_x: int, scale_y: int)
    ensures
        !extent_of(glyphs, scale_x, scale_y).started ==> extent_of(glyphs, scale_x, scale_y)
            == no_extent(),
    decreases glyphs.len(),
{
    if glyphs.len() > 0 {
        lemma_unstarted_extent(glyphs.drop_last(), scale_x, scale_y);
    }
}

/// A regular glyph added at a positive horizontal scale to a settled run
/// leaves the run settled and makes it no narrower and no lower.
proof fn lemma_regular_glyph(before: Extent, glyph: GlyphMetrics, scale_x: int, scale_y: int)
    requires
        scale_x > 0,
        is_settled(before),
        !before.started ==> before.left == 0,
        is_regular(glyph),
    ensures
        is_settled(with_glyph(before, glyph, scale_x, scale_y)),
        with_glyph(before, glyph, scale_x, scale_y).right >= before.right,
        with_glyph(before, glyph, scale_x, scale_y).height >= before.height,
{
    lemma_scaled_order(glyph.width as int, glyph.x_offset as int, glyph.x_advance as int, scale_x);
}

/// Appending characters never makes a text narrower or lower, where the
/// horizontal scale is positive, the text so far ends with no ink right of
/// its cursor, and every appended glyph is regular.
pub proof fn lemma_measure_monotonic(
    glyphs: Seq<Option<GlyphMetrics>>,
    more: Seq<Option<GlyphMetrics>>,
    scale_x: int,
    scale_y: int,
)
    requires
        scale_x > 0,
        is_settled(extent_of(glyphs, scale_x, scale_y)),
        all_regular(more),
    ensures
        measure(glyphs + more, scale_x, scale_y).0 >= measure(glyphs, scale_x, scale_y).0,
        measure(glyphs + more, scale_x, scale_y).1 >= measure(glyphs, scale_x, scale_y).1,
        is_settled(extent_of(glyphs + more, scale_x, scale_y)),
    decreases more.len(),
{
    if more.len() == 0 {
        assert(glyphs + more =~= glyphs);
    } else {
        let shorter = more.drop_last();
        assert(all_regular(shorter)) by {
            assert forall|i: int| 0 <= i < shorter.len() implies (#[trigger] shorter[i] matches Some(
                glyph,
            ) ==> is_regular(glyph)) by {
                assert(shorter[i] == more[i]);
            }
        }
        lemma_measure_monotonic(glyphs, shorter, scale_x, scale_y);
        assert(glyphs + more =~= (glyphs + shorter).push(more.last()));
        lemma_extent_push(glyphs + shorter, more.last(), scale_x, scale_y);
        match more.last() {
            Some(glyph) => {
                assert(more[more.len() - 1] == Some(glyph));
                lemma_unstarted_extent(glyphs + shorter, scale_x, scale_y);
                lemma_regular_glyph(
                    extent_of(glyphs + shorter, scale_x, scale_y),
                    glyph,
                    scale_x,
                    scale_y,
                );
            },
            None => {},
        }
    }
}

/// A text of regular glyphs only, measured at a positive horizontal scale,
/// is no narrower and no lower than any of its beginnings.
pub proof fn lemma_measure_prefix(glyphs: Seq<Option<GlyphMetrics>>, len: int, scale_x: int, scale_y: int)
    requires
        scale_x > 0,
        0 <= len <= glyphs.len(),
        all_regular(glyphs),
    ensures
        measure(glyphs.take(len), scale_x, scale_y).0 <= measure(glyphs, scale_x, scale_y).0,
        measure(glyphs.take(len), scale_x, scale_y).1 <= measure(glyphs, scale_x, scale_y).1,
{
    let head = glyphs.take(len);
    let tail = glyphs.skip(len);
    assert(all_regular(head)) by {
        assert forall|i: int| 0 <= i < head.len() implies (#[trigger] head[i] matches Some(glyph)
            ==> is_regular(glyph)) by {
            assert(head[i] == glyphs[i]);
        }
    }
    assert(all_regular(tail)) by {
        assert forall|i: int| 0 <= i < tail.len() implies (#[trigger] tail[i] matches Some(glyph)
            ==> is_regular(glyph)) by {
            assert(tail[i] == glyphs[i + len]);
        }
    }
    assert(Seq::<Option<GlyphMetrics>>::empty() + head =~= head);
    lemma_measure_monotonic(Seq::empty(), head, scale_x, scale_y);
    assert(head + tail =~= glyphs);
    lemma_measure_monotonic(head, tail, scale_x, scale_y);
}

} // verus!
