//! A primitive layer without a panel: it keeps the calls it receives, hands
//! out surfaces and serves glyph metrics from font tables held in memory.

use crate::datum::textdatum_t;
use crate::layer::{Call, DisplayHandle, LgfxFont, Placement, PrimitiveLayer, RawColor};
use crate::layout::{scale_metric, scaled};
use crate::metrics::GlyphMetrics;
use vstd::prelude::*;
use vstd::slice::slice_to_vec;

verus! {

/// One surface the layer has handed out.
#[derive(Debug, Clone, Copy, PartialEq, Eq, Structural)]
pub struct Surface {
    pub handle: DisplayHandle,
    pub width: i32,
    pub height: i32,
    pub font: LgfxFont,
    pub sprite: bool,
}

/// The glyph of one code unit in a font table.
#[derive(Debug, Clone, Copy, PartialEq, Eq, Structural)]
pub struct Glyph {
    pub unit: u16,
    pub metrics: GlyphMetrics,
}

/// A font held in memory: its default metrics and its glyphs.
pub struct FontTable {
    pub base: GlyphMetrics,
    pub glyphs: Vec<Glyph>,
}

/// Where the surface of a handle lies in the list: the first place that has
/// the handle.
pub open spec fn place_of(surfaces: Seq<Surface>, handle: DisplayHandle) -> Option<int>
    decreases surfaces.len(),
{
    if surfaces.len() == 0 {
        None
    } else if surfaces[0].handle == handle {
        Some(0)
    } else {
        match place_of(surfaces.drop_first(), handle) {
            Some(i) => Some(i + 1),
            None => None,
        }
    }
}

/// The surface of a handle, if the list has one.
pub open spec fn surface_of(surfaces: Seq<Surface>, handle: DisplayHandle) -> Option<Surface> {
    match place_of(surfaces, handle) {
        Some(i) => Some(surfaces[i]),
        None => None,
    }
}

/// The place of a handle is the least index that has it.
pub proof fn lemma_place_of(surfaces: Seq<Surface>, handle: DisplayHandle)
    ensures
        match place_of(surfaces, handle) {
            Some(i) => 0 <= i < surfaces.len() && surfaces[i].handle == handle && forall|j: int|
                0 <= j < i ==> surfaces[j].handle != handle,
            None => forall|j: int| 0 <= j < surfaces.len() ==> surfaces[j].handle != handle,
        },
    decreases surfaces.len(),
{
    if surfaces.len() > 0 && surfaces[0].handle != handle {
        let rest = surfaces.drop_first();
        lemma_place_of(rest, handle);
        match place_of(rest, handle) {
            Some(i) => {
                assert forall|j: int| 0 <= j < i + 1 implies surfaces[j].handle != handle by {
                    if j > 0 {
                        assert(surfaces[j] == rest[j - 1]);
                    }
                }
            },
            None => {
                assert forall|j: int| 0 <= j < surfaces.len() implies surfaces[j].handle
                    != handle by {
                    if j > 0 {
                        assert(surfaces[j] == rest[j - 1]);
                    }
                }
            },
        }
    }
}

/// The handle that is issued after `issued` others: their count plus one,
/// and null once the handles are used up.
pub open spec fn next_handle(issued: nat) -> DisplayHandle {
    if issued < usize::MAX {
        DisplayHandle { raw: (issued + 1) as usize }
    } else {
        DisplayHandle { raw: 0 }
    }
}

/// The surfaces with one more, unless its handle is null.
pub open spec fn with_surface(surfaces: Seq<Surface>, surface: Surface) -> Seq<Surface> {
    if surface.handle.is_null() {
        surfaces
    } else {
        surfaces.push(surface)
    }
}

/// The surfaces without the sprite of a handle. A handle of no surface, or
/// of one that is no sprite, takes nothing away.
pub open spec fn without_sprite(surfaces: Seq<Surface>, handle: DisplayHandle) -> Seq<Surface> {
    match place_of(surfaces, handle) {
        Some(i) => if surfaces[i].sprite {
            surfaces.remove(i)
        } else {
            surfaces
        },
        None => surfaces,
    }
}

/// The metrics of a code unit: those of the first glyph in the table that
/// has it.
pub open spec fn glyph_of(glyphs: Seq<Glyph>, unit: u16) -> Option<GlyphMetrics>
    decreases glyphs.len(),
{
    if glyphs.len() == 0 {
        None
    } else if glyphs[0].unit == unit {
        Some(glyphs[0].metrics)
    } else {
        glyph_of(glyphs.drop_first(), unit)
    }
}

/// How many of the surfaces are sprites.
pub open spec fn sprite_count(surfaces: Seq<Surface>) -> nat
    decreases surfaces.len(),
{
    if surfaces.len() == 0 {
        0
    } else {
        sprite_count(surfaces.drop_last()) + if surfaces.last().sprite {
            1nat
        } else {
            0nat
        }
    }
}

/// The metrics of no glyph: all zero.
pub open spec fn zero_metrics() -> GlyphMetrics {
    GlyphMetrics {
        width: 0,
        x_advance: 0,
        x_offset: 0,
        height: 0,
        y_advance: 0,
        y_offset: 0,
        baseline: 0,
    }
}

/// What a layer in memory holds.
pub struct TraceState {
    /// The calls received.
    pub calls: Seq<Call>,
    /// The surfaces that are alive, in the order they were handed out.
    pub surfaces: Seq<Surface>,
    /// The font tables, in the order they were added. The font of the table
    /// at index `i` is `i + 1`.
    pub tables: Seq<FontTable>,
    /// How many handles were issued.
    pub issued: nat,
    /// Size of the panel that `setup` brings up.
    pub panel: (i32, i32),
    /// Whether the panel is of the slow-refresh class.
    pub epd: bool,
    /// The number the layer answers when asked for the refresh mode.
    pub epd_mode: u32,
}

/// A primitive layer in memory.
pub struct TraceLayer {
    trace: Vec<Call>,
    surfaces: Vec<Surface>,
    fonts: Vec<FontTable>,
    issued: usize,
    panel_width: i32,
    panel_height: i32,
    epd: bool,
    epd_mode: u32,
}

impl View for TraceLayer {
    type V = TraceState;

    closed spec fn view(&self) -> TraceState {
        TraceState {
            calls: self.trace@,
            surfaces: self.surfaces@,
            tables: self.fonts@,
            issued: self.issued as nat,
            panel: (self.panel_width, self.panel_height),
            epd: self.epd,
            epd_mode: self.epd_mode,
        }
    }
}

/// The table of a font, if the tables hold the font.
pub open spec fn table_of(tables: Seq<FontTable>, font: LgfxFont) -> Option<FontTable> {
    if 1 <= font.ptr <= tables.len() {
        Some(tables[font.ptr - 1])
    } else {
        None
    }
}

/// Whether `after` differs from `before` in nothing but the calls received.
pub open spec fn only_traced(before: TraceState, after: TraceState) -> bool {
    after == (TraceState { calls: after.calls, ..before })
}

impl TraceLayer {
    /// A layer with no surface and no font, for a panel of the given size
    /// and refresh class. It answers the first refresh mode until told
    /// otherwise.
    pub fn new(panel_width: i32, panel_height: i32, epd: bool) -> (layer: Self)
        ensures
            layer@ == (TraceState {
                calls: Seq::empty(),
                surfaces: Seq::empty(),
                tables: Seq::empty(),
                issued: 0,
                panel: (panel_width, panel_height),
                epd,
                epd_mode: 1,
            }),
    {
        Self {
            trace: Vec::new(),
            surfaces: Vec::new(),
            fonts: Vec::new(),
            issued: 0,
            panel_width,
            panel_height,
            epd,
            epd_mode: 1,
        }
    }

    /// Adds a font and gives its handle. Of two glyphs for one code unit the
    /// first counts.
    pub fn add_font(&mut self, base: GlyphMetrics, glyphs: Vec<Glyph>) -> (font: LgfxFont)
        ensures
            final(self)@ == (TraceState {
                tables: old(self)@.tables.push(FontTable { base, glyphs }),
                ..old(self)@
            }),
            font.ptr == old(self)@.tables.len() + 1,
            !font.is_null(),
    {
        self.fonts.push(FontTable { base, glyphs });
        LgfxFont { ptr: self.fonts.len() }
    }

    /// Makes the layer answer `mode` when asked for the refresh mode.
    pub fn report_epd_mode(&mut self, mode: u32)
        ensures
            final(self)@ == (TraceState { epd_mode: mode, ..old(self)@ }),
    {
        self.epd_mode = mode;
    }

    /// The calls received so far.
    pub fn trace(&self) -> (calls: &Vec<Call>)
        ensures
            calls@ == self@.calls,
    {
        &self.trace
    }

    /// How many sprites are alive.
    pub fn live_sprites(&self) -> (count: usize)
        ensures
            count == sprite_count(self@.surfaces),
    {
        let mut count: usize = 0;
        let mut i: usize = 0;
        while i < self.surfaces.len()
            invariant
                i <= self.surfaces.len(),
                count <= i,
                count == sprite_count(self.surfaces@.take(i as int)),
            decreases self.surfaces.len() - i,
        {
            proof {
                assert(self.surfaces@.take(i + 1).drop_last() =~= self.surfaces@.take(i as int));
            }
            if self.surfaces[i].sprite {
                count = count + 1;
            }
            i = i + 1;
        }
        proof {
            assert(self.surfaces@.take(i as int) =~= self.surfaces@);
        }
        count
    }

    /// The place of a handle's surface in the list.
    fn find(&self, handle: DisplayHandle) -> (place: Option<usize>)
        ensures
            match place {
                Some(i) => place_of(self@.surfaces, handle) == Some(i as int) && i
                    < self@.surfaces.len(),
                None => place_of(self@.surfaces, handle) is None,
            },
    {
        let mut i: usize = 0;
        while i < self.surfaces.len()
            invariant
                i <= self.surfaces.len(),
                forall|j: int| 0 <= j < i ==> self.surfaces@[j].handle != handle,
            decreases self.surfaces.len() - i,
        {
            if self.surfaces[i].handle == handle {
                proof {
                    lemma_place_of(self.surfaces@, handle);
                }
                return Some(i);
            }
            i = i + 1;
        }
        proof {
            lemma_place_of(self.surfaces@, handle);
        }
        None
    }

    /// Issues the next handle.
    fn issue(&mut self) -> (handle: DisplayHandle)
        ensures
            handle == next_handle(old(self)@.issued),
            final(self)@ == (TraceState {
                issued: if handle.is_null() {
                    old(self)@.issued
                } else {
                    old(self)@.issued + 1
                },
                ..old(self)@
            }),
    {
        if self.issued == usize::MAX {
            DisplayHandle { raw: 0 }
        } else {
            self.issued = self.issued + 1;
            DisplayHandle { raw: self.issued }
        }
    }
}

/// The metrics of a code unit in a glyph list.
fn find_glyph(glyphs: &Vec<Glyph>, unit: u16) -> (metrics: Option<GlyphMetrics>)
    ensures
        metrics == glyph_of(glyphs@, unit),
{
    let mut i: usize = 0;
    proof {
        assert(glyphs@.skip(0) =~= glyphs@);
    }
    while i < glyphs.len()
        invariant
            i <= glyphs.len(),
            glyph_of(glyphs@, unit) == glyph_of(glyphs@.skip(i as int), unit),
        decreases glyphs.len() - i,
    {
        if glyphs[i].unit == unit {
            return Some(glyphs[i].metrics);
        }
        proof {
            assert(glyphs@.skip(i as int).drop_first() =~= glyphs@.skip(i + 1));
        }
        i = i + 1;
    }
    None
}

impl PrimitiveLayer for TraceLayer {
    open spec fn calls(&self) -> Seq<Call> {
        self@.calls
    }

    open spec fn panel_is_epd(&self, target: DisplayHandle) -> bool {
        self@.epd
    }

    open spec fn panel_epd_mode(&self, target: DisplayHandle) -> u32 {
        self@.epd_mode
    }

    open spec fn extent(&self, target: DisplayHandle) -> (i32, i32) {
        match surface_of(self@.surfaces, target) {
            Some(surface) => (surface.width, surface.height),
            None => (0, 0),
        }
    }

    open spec fn line_height(&self, target: DisplayHandle) -> i32 {
        self.default_glyph(self.font_of(target)).height as i32
    }

    open spec fn font_of(&self, target: DisplayHandle) -> LgfxFont {
        match surface_of(self@.surfaces, target) {
            Some(surface) => surface.font,
            None => LgfxFont { ptr: 0 },
        }
    }

    open spec fn default_glyph(&self, font: LgfxFont) -> GlyphMetrics {
        match table_of(self@.tables, font) {
            Some(table) => table.base,
            None => zero_metrics(),
        }
    }

    open spec fn glyph(&self, font: LgfxFont, base: GlyphMetrics, unit: u16) -> Option<GlyphMetrics> {
        match table_of(self@.tables, font) {
            Some(table) => glyph_of(table.glyphs@, unit),
            None => None,
        }
    }

    /// The root gets the next handle and the size of the panel, and no font.
    fn setup(&mut self) -> (root: DisplayHandle)
        ensures
            root == next_handle(old(self)@.issued),
            final(self)@ == (TraceState {
                calls: final(self)@.calls,
                issued: if root.is_null() {
                    old(self)@.issued
                } else {
                    old(self)@.issued + 1
                },
                surfaces: with_surface(
                    old(self)@.surfaces,
                    Surface {
                        handle: root,
                        width: old(self)@.panel.0,
                        height: old(self)@.panel.1,
                        font: LgfxFont { ptr: 0 },
                        sprite: false,
                    },
                ),
                ..old(self)@
            }),
    {
        let root = self.issue();
        if !root.is_null() {
            self.surfaces.push(
                Surface {
                    handle: root,
                    width: self.panel_width,
                    height: self.panel_height,
                    font: LgfxFont { ptr: 0 },
                    sprite: false,
                },
            );
        }
        self.trace.push(Call::Setup { root });
        root
    }

    /// The root gets the next handle and the given size, and no font.
    fn setup_with_size(&mut self, width: i32, height: i32) -> (root: DisplayHandle)
        ensures
            root == next_handle(old(self)@.issued),
            final(self)@ == (TraceState {
                calls: final(self)@.calls,
                issued: if root.is_null() {
                    old(self)@.issued
                } else {
                    old(self)@.issued + 1
                },
                surfaces: with_surface(
                    old(self)@.surfaces,
                    Surface { handle: root, width, height, font: LgfxFont { ptr: 0 }, sprite: false },
                ),
                ..old(self)@
            }),
    {
        let root = self.issue();
        if !root.is_null() {
            self.surfaces.push(
                Surface { handle: root, width, height, font: LgfxFont { ptr: 0 }, sprite: false },
            );
        }
        self.trace.push(Call::SetupWithSize { width, height, root });
        root
    }

    fn pump_events(&mut self)
        ensures
            only_traced(old(self)@, final(self)@),
    {
        self.trace.push(Call::PumpEvents);
    }

    fn start_write(&mut self, target: DisplayHandle)
        ensures
            only_traced(old(self)@, final(self)@),
    {
        self.trace.push(Call::StartWrite { target });
    }

    fn end_write(&mut self, target: DisplayHandle)
        ensures
            only_traced(old(self)@, final(self)@),
    {
        self.trace.push(Call::EndWrite { target });
    }

    fn is_epd(&self, target: DisplayHandle) -> (epd: bool) {
        self.epd
    }

    fn epd_mode(&self, target: DisplayHandle) -> (mode: u32) {
        self.epd_mode
    }

    /// The mode set is the mode answered from then on.
    fn set_epd_mode(&mut self, target: DisplayHandle, mode: u32)
        ensures
            final(self)@ == (TraceState { calls: final(self)@.calls, epd_mode: mode, ..old(self)@ }),
    {
        self.epd_mode = mode;
        self.trace.push(Call::SetEpdMode { target, mode });
    }

    fn set_rotation(&mut self, target: DisplayHandle, rotation: u8)
        ensures
            only_traced(old(self)@, final(self)@),
    {
        self.trace.push(Call::SetRotation { target, rotation });
    }

    fn width(&self, target: DisplayHandle) -> (width: i32) {
        match self.find(target) {
            Some(i) => self.surfaces[i].width,
            None => 0,
        }
    }

    fn height(&self, target: DisplayHandle) -> (height: i32) {
        match self.find(target) {
            Some(i) => self.surfaces[i].height,
            None => 0,
        }
    }

    fn clear(&mut self, target: DisplayHandle, color: RawColor)
        ensures
            only_traced(old(self)@, final(self)@),
    {
        self.trace.push(Call::Clear { target, color });
    }

    fn fill_rect(&mut self, target: DisplayHandle, x: i32, y: i32, w: i32, h: i32, color: RawColor)
        ensures
            only_traced(old(self)@, final(self)@),
    {
        self.trace.push(Call::FillRect { target, x, y, w, h, color });
    }

    fn draw_rect(&mut self, target: DisplayHandle, x: i32, y: i32, w: i32, h: i32, color: RawColor)
        ensures
            only_traced(old(self)@, final(self)@),
    {
        self.trace.push(Call::DrawRect { target, x, y, w, h, color });
    }

    fn draw_line(&mut self, target: DisplayHandle, x0: i32, y0: i32, x1: i32, y1: i32, color: RawColor)
        ensures
            only_traced(old(self)@, final(self)@),
    {
        self.trace.push(Call::DrawLine { target, x0, y0, x1, y1, color });
    }

    /// The rendered width is the glyph's scaled advance, and zero where the
    /// surface has no font or the font no such glyph.
    fn draw_glyph(
        &mut self,
        target: DisplayHandle,
        x: i32,
        y: i32,
        unit: u16,
        fg: RawColor,
        bg: RawColor,
        scale_x: i32,
        scale_y: i32,
    ) -> (width: i32)
        ensures
            only_traced(old(self)@, final(self)@),
            width == match old(self).glyph(
                old(self).font_of(target),
                old(self).default_glyph(old(self).font_of(target)),
                unit,
            ) {
                Some(metrics) => scaled(metrics.x_advance as int, scale_x as int),
                None => 0,
            },
    {
        let font = self.get_font(target);
        let base = self.font_default_metrics(font);
        let width = match self.font_glyph_metrics(font, base, unit) {
            Some(metrics) => scale_metric(metrics.x_advance, scale_x),
            None => 0,
        };
        self.trace.push(Call::Glyph { target, x, y, unit, fg, bg, scale_x, scale_y, width });
        width
    }

    fn push_image_rgb888(&mut self, target: DisplayHandle, x: i32, y: i32, w: i32, h: i32, data: &[u8])
        ensures
            only_traced(old(self)@, final(self)@),
    {
        let copy = slice_to_vec(data);
        self.trace.push(Call::PushImage { target, x, y, w, h, data: copy });
        proof {
            assert(self.trace@.drop_last() =~= old(self).trace@);
        }
    }

    fn draw_png(&mut self, target: DisplayHandle, data: &[u8], placement: Placement)
        ensures
            only_traced(old(self)@, final(self)@),
    {
        let copy = slice_to_vec(data);
        self.trace.push(Call::DrawPng { target, data: copy, placement });
        proof {
            assert(self.trace@.drop_last() =~= old(self).trace@);
        }
    }

    /// A sprite of a positive width and height gets the next handle, and no
    /// font. Any other request is answered null.
    fn create_sprite(&mut self, parent: DisplayHandle, w: i32, h: i32) -> (sprite: DisplayHandle)
        ensures
            sprite == if w > 0 && h > 0 {
                next_handle(old(self)@.issued)
            } else {
                DisplayHandle { raw: 0 }
            },
            final(self)@ == (TraceState {
                calls: final(self)@.calls,
                issued: if sprite.is_null() {
                    old(self)@.issued
                } else {
                    old(self)@.issued + 1
                },
                surfaces: with_surface(
                    old(self)@.surfaces,
                    Surface { handle: sprite, width: w, height: h, font: LgfxFont { ptr: 0 }, sprite: true },
                ),
                ..old(self)@
            }),
    {
        let sprite = if w > 0 && h > 0 {
            self.issue()
        } else {
            DisplayHandle { raw: 0 }
        };
        if !sprite.is_null() {
            self.surfaces.push(
                Surface { handle: sprite, width: w, height: h, font: LgfxFont { ptr: 0 }, sprite: true },
            );
        }
        self.trace.push(Call::CreateSprite { parent, w, h, sprite });
        sprite
    }

    fn push_sprite(&mut self, sprite: DisplayHandle, x: i32, y: i32)
        ensures
            only_traced(old(self)@, final(self)@),
    {
        self.trace.push(Call::PushSprite { sprite, x, y });
    }

    /// Only a sprite that is alive is given back; the root never is.
    fn delete_sprite(&mut self, sprite: DisplayHandle)
        ensures
            final(self)@ == (TraceState {
                calls: final(self)@.calls,
                surfaces: without_sprite(old(self)@.surfaces, sprite),
                ..old(self)@
            }),
    {
        match self.find(sprite) {
            Some(i) => {
                if self.surfaces[i].sprite {
                    self.surfaces.remove(i);
                }
            },
            None => {},
        }
        self.trace.push(Call::DeleteSprite { sprite });
    }

    fn font_default_metrics(&self, font: LgfxFont) -> (metrics: GlyphMetrics) {
        if 1 <= font.ptr && font.ptr <= self.fonts.len() {
            self.fonts[font.ptr - 1].base
        } else {
            GlyphMetrics::default()
        }
    }

    fn font_glyph_metrics(&self, font: LgfxFont, base: GlyphMetrics, unit: u16) -> (metrics: Option<
        GlyphMetrics,
    >) {
        if 1 <= font.ptr && font.ptr <= self.fonts.len() {
            find_glyph(&self.fonts[font.ptr - 1].glyphs, unit)
        } else {
            None
        }
    }

    fn font_height(&self, target: DisplayHandle) -> (height: i32) {
        let font = self.get_font(target);
        self.font_default_metrics(font).height as i32
    }

    fn get_font(&self, target: DisplayHandle) -> (font: LgfxFont) {
        match self.find(target) {
            Some(i) => self.surfaces[i].font,
            None => LgfxFont { ptr: 0 },
        }
    }

    /// A font is taken where the layer holds both the font and the surface;
    /// it is then the font of that surface.
    fn set_font(&mut self, target: DisplayHandle, font: LgfxFont) -> (accepted: bool)
        ensures
            accepted == (table_of(old(self)@.tables, font) is Some && place_of(
                old(self)@.surfaces,
                target,
            ) is Some),
            final(self)@ == (TraceState {
                calls: final(self)@.calls,
                surfaces: if accepted {
                    old(self)@.surfaces.update(
                        place_of(old(self)@.surfaces, target)->0,
                        Surface { font, ..surface_of(old(self)@.surfaces, target)->0 },
                    )
                } else {
                    old(self)@.surfaces
                },
                ..old(self)@
            }),
    {
        let known = 1 <= font.ptr && font.ptr <= self.fonts.len();
        let accepted = match self.find(target) {
            Some(i) => {
                if known {
                    let surface = self.surfaces[i];
                    self.surfaces.set(i, Surface { font, ..surface });
                }
                known
            },
            None => false,
        };
        self.trace.push(Call::SetFont { target, font, accepted });
        accepted
    }

    fn set_text_size(&mut self, target: DisplayHandle, scale_x: i32, scale_y: i32)
        ensures
            only_traced(old(self)@, final(self)@),
    {
        self.trace.push(Call::SetTextSize { target, scale_x, scale_y });
    }

    fn set_text_datum(&mut self, target: DisplayHandle, datum: textdatum_t)
        ensures
            only_traced(old(self)@, final(self)@),
    {
        self.trace.push(Call::SetTextDatum { target, datum });
    }
}

} // verus!
