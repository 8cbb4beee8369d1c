//! Glyph metrics and the narrow encoding of characters.

use vstd::prelude::*;

verus! {

/// Geometry of one glyph, in the font's own unit.
#[derive(Debug, Clone, Copy, PartialEq, Eq, Structural)]
pub struct GlyphMetrics {
    pub width: i16,
    pub x_advance: i16,
    pub x_offset: i16,
    pub height: i16,
    pub y_advance: i16,
    pub y_offset: i16,
    pub baseline: i16,
}

impl Default for GlyphMetrics {
    fn default() -> (metrics: Self)
        ensures
            metrics == (GlyphMetrics {
                width: 0,
                x_advance: 0,
                x_offset: 0,
                height: 0,
                y_advance: 0,
                y_offset: 0,
                baseline: 0,
            }),
    {
        GlyphMetrics {
            width: 0,
            x_advance: 0,
            x_offset: 0,
            height: 0,
            y_advance: 0,
            y_offset: 0,
            baseline: 0,
        }
    }
}

/// Why a character has no metrics.
#[derive(Debug, Clone, Copy, PartialEq, Eq, Structural)]
pub enum LgfxError {
    /// The character takes more than one code unit.
    Unicode,
    /// The font has no glyph for the character.
    Metrics,
}

/// The code units of a character in the narrow encoding, which is UTF-16: one
/// unit for a character below `0x10000`, else a high and a low surrogate.
pub open spec fn code_units(c: char) -> Seq<u16> {
    let v = c as int;
    if v < 0x1_0000 {
        seq![v as u16]
    } else {
        seq![(0xD800 + (v - 0x1_0000) / 0x400) as u16, (0xDC00 + (v - 0x1_0000) % 0x400) as u16]
    }
}

/// The code units of every character of a text, in order.
pub open spec fn text_units(text: Seq<char>) -> Seq<u16>
    decreases text.len(),
{
    if text.len() == 0 {
        Seq::empty()
    } else {
        text_units(text.drop_last()) + code_units(text.last())
    }
}

/// Encodes a character: its first code unit, and its second if it has one.
pub fn encode_units(c: char) -> (units: (u16, Option<u16>))
    ensures
        code_units(c) == match units.1 {
            Some(low) => seq![units.0, low],
            None => seq![units.0],
        },
        units.1 is None <==> (c as int) < 0x1_0000,
{
    let v: u32 = c as u32;
    if v < 0x1_0000 {
        (v as u16, None)
    } else {
        let w: u32 = v - 0x1_0000;
        let upper: u32 = w >> 10;
        let lower: u32 = w & 0x3FF;
        assert(upper == w / 0x400 && lower == w % 0x400) by (bit_vector)
            requires
                upper == w >> 10,
                lower == w & 0x3FF,
        ;
        let high: u32 = 0xD800 + upper;
        let low: u32 = 0xDC00 + lower;
        (high as u16, Some(low as u16))
    }
}

/// The single code unit of a character, or `Unicode` where it takes two.
pub fn narrow_unit(c: char) -> (unit: Result<u16, LgfxError>)
    ensures
        unit == if (c as int) < 0x1_0000 {
            Ok::<u16, LgfxError>(c as u16)
        } else {
            Err::<u16, LgfxError>(LgfxError::Unicode)
        },
{
    let (first, second) = encode_units(c);
    match second {
        None => {
            assert(code_units(c)[0] == first);
            Ok(first)
        },
        Some(_) => Err(LgfxError::Unicode),
    }
}

/// A character has one or two code units, and two exactly from `0x10000` on.
pub proof fn lemma_code_units_len(c: char)
    ensures
        code_units(c).len() == if (c as int) < 0x1_0000 { 1nat } else { 2nat },
{
}

} // verus!
