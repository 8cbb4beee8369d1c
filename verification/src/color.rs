//! Packed pixel colours and their canonical 24-bit form.

use embedded_graphics::pixelcolor::{IntoStorage, Rgb888};
use vstd::prelude::*;

verus! {

/// Widens a three-bit channel to eight bits: the channel fills the top three
/// bits, and its most significant bit is copied into the five bits below.
pub open spec fn widen3(channel: int) -> int {
    32 * channel + if channel >= 4 { 31int } else { 0int }
}

/// Widens a two-bit channel to eight bits: the channel fills the top two
/// bits, and its most significant bit is copied into the six bits below.
pub open spec fn widen2(channel: int) -> int {
    64 * channel + if channel >= 2 { 63int } else { 0int }
}

/// The 24-bit value `0xRRGGBB` of three eight-bit channels.
pub open spec fn rgb888(red: int, green: int, blue: int) -> int {
    red * 0x1_0000 + green * 0x100 + blue
}

/// The canonical 24-bit value of a 3-3-2 packed byte.
pub open spec fn expand_332(raw: u8) -> int {
    rgb888(widen3(raw as int / 32), widen3((raw as int / 4) % 8), widen2(raw as int % 4))
}

/// The 3-3-2 byte made of the top three, three and two bits of the channels
/// of a 24-bit value. Bits above the low 24 are ignored.
pub open spec fn pack_332(rgb: u32) -> int {
    let red = (rgb as int / 0x1_0000) % 0x100;
    let green = (rgb as int / 0x100) % 0x100;
    let blue = rgb as int % 0x100;
    (red / 32) * 32 + (green / 32) * 4 + blue / 64
}

/// A colour that reduces to a canonical 24-bit `0xRRGGBB` value.
pub trait Color: Clone {
    /// The canonical value of this colour.
    spec fn canonical(&self) -> int;

    fn as_u32(&self) -> (rgb: u32)
        ensures
            rgb == self.canonical(),
    ;
}

/// An 8-bit colour: three bits of red, three of green, two of blue.
#[derive(Debug, Clone, Copy, PartialEq, Eq, Structural)]
pub struct ColorRgb332 {
    raw: u8,
}

impl ColorRgb332 {
    pub closed spec fn view(&self) -> u8 {
        self.raw
    }

    pub fn new(raw: u8) -> (color: Self)
        ensures
            color@ == raw,
    {
        Self { raw }
    }

    /// The packed byte.
    pub fn raw(&self) -> (raw: u8)
        ensures
            raw == self@,
    {
        self.raw
    }

    /// Keeps the top three, three and two bits of the channels of `rgb`.
    pub fn downsample(rgb: u32) -> (color: Self)
        ensures
            color@ == pack_332(rgb),
    {
        let red: u32 = (rgb >> 16) & 0xe0;
        let green: u32 = (rgb >> 11) & 0x1c;
        let blue: u32 = (rgb >> 6) & 0x03;
        let packed: u32 = red | green | blue;
        assert(packed <= 0xff && packed == (((rgb / 0x1_0000) % 0x100) / 32) * 32 + (((rgb / 0x100)
            % 0x100) / 32) * 4 + (rgb % 0x100) / 64) by (bit_vector)
            requires
                packed == ((rgb >> 16) & 0xe0) | ((rgb >> 11) & 0x1c) | ((rgb >> 6) & 0x03),
        ;
        Self { raw: packed as u8 }
    }
}

impl Color for ColorRgb332 {
    open spec fn canonical(&self) -> int {
        expand_332(self@)
    }

    fn as_u32(&self) -> (rgb: u32) {
        let raw: u8 = self.raw;
        let r: u8 = raw & 0xe0;
        let g: u8 = (raw & 0x1c) << 3;
        let b: u8 = (raw & 0x03) << 6;
        let red: u8 = r | if r & 0x80 != 0 { 0x1f } else { 0 };
        let green: u8 = g | if g & 0x80 != 0 { 0x1f } else { 0 };
        let blue: u8 = b | if b & 0x80 != 0 { 0x3f } else { 0 };
        assert(red == 32 * (raw / 32) + if raw / 32 >= 4 { 31int } else { 0int }) by (bit_vector)
            requires
                red == (raw & 0xe0) | if (raw & 0xe0) & 0x80 != 0 { 0x1fu8 } else { 0u8 },
        ;
        assert(green == 32 * ((raw / 4) % 8) + if (raw / 4) % 8 >= 4 { 31int } else { 0int })
            by (bit_vector)
            requires
                green == ((raw & 0x1c) << 3) | if ((raw & 0x1c) << 3) & 0x80 != 0 {
                    0x1fu8
                } else {
                    0u8
                },
        ;
        assert(blue == 64 * (raw % 4) + if raw % 4 >= 2 { 63int } else { 0int }) by (bit_vector)
            requires
                blue == ((raw & 0x03) << 6) | if ((raw & 0x03) << 6) & 0x80 != 0 {
                    0x3fu8
                } else {
                    0u8
                },
        ;
        let rgb: u32 = ((red as u32) << 16) | ((green as u32) << 8) | (blue as u32);
        assert(rgb == red * 0x1_0000 + green * 0x100 + blue) by (bit_vector)
            requires
                rgb == ((red as u32) << 16) | ((green as u32) << 8) | (blue as u32),
        ;
        rgb
    }
}

/// The storage word of `embedded_graphics`' `Rgb888` colour with the given
/// channels, as `Rgb888::new` and `IntoStorage::into_storage` make it. The
/// contract claims that red lies in bits 16 to 23, green in bits 8 to 15 and
/// blue in bits 0 to 7, with nothing above.
#[verifier::external_body]
fn rgb888_storage(red: u8, green: u8, blue: u8) -> (raw: u32)
    ensures
        raw == rgb888(red as int, green as int, blue as int),
{
    Rgb888::new(red, green, blue).into_storage()
}

/// A 24-bit colour, `0xRRGGBB`, held in the low bits of a word.
#[derive(Debug, Clone, Copy, PartialEq, Eq, Structural)]
pub struct ColorRgb888 {
    raw: u32,
}

impl ColorRgb888 {
    pub closed spec fn view(&self) -> u32 {
        self.raw
    }

    pub fn new(raw: u32) -> (color: Self)
        ensures
            color@ == raw,
    {
        Self { raw }
    }

    /// The colour of three eight-bit channels.
    pub fn from_channels(red: u8, green: u8, blue: u8) -> (color: Self)
        ensures
            color@ == rgb888(red as int, green as int, blue as int),
    {
        Self { raw: rgb888_storage(red, green, blue) }
    }

    /// The word as it was given, bits above the low 24 included.
    pub fn raw(&self) -> (raw: u32)
        ensures
            raw == self@,
    {
        self.raw
    }
}

impl Color for ColorRgb888 {
    open spec fn canonical(&self) -> int {
        self@ as int % 0x100_0000
    }

    fn as_u32(&self) -> (rgb: u32) {
        let raw: u32 = self.raw;
        assert(raw & 0xffffff == raw % 0x100_0000) by (bit_vector);
        raw & 0xffffff
    }
}


/// Packing the canonical value of a 3-3-2 colour gives the colour back, so
/// that expanding, packing and expanding again changes nothing; and a
/// canonical value has 24 bits.
pub proof fn lemma_expand_pack_round_trip(raw: u8)
    ensures
        0 <= expand_332(raw) <= 0xff_ffff,
        pack_332(expand_332(raw) as u32) == raw,
        expand_332(pack_332(expand_332(raw) as u32) as u8) == expand_332(raw),
{
    let r = raw as int / 32;
    let g = (raw as int / 4) % 8;
    let b = raw as int % 4;
    assert(0 <= widen3(r) <= 255 && 0 <= widen3(g) <= 255 && 0 <= widen2(b) <= 255);
    assert(widen3(r) / 32 == r && widen3(g) / 32 == g && widen2(b) / 64 == b);
    let rgb = expand_332(raw);
    assert(rgb == widen3(r) * 0x1_0000 + widen3(g) * 0x100 + widen2(b));
    assert((rgb / 0x1_0000) % 0x100 == widen3(r));
    assert((rgb / 0x100) % 0x100 == widen3(g));
    assert(rgb % 0x100 == widen2(b));
    assert(raw as int == r * 32 + g * 4 + b);
}

} // verus!
