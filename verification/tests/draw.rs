use lgfx::color::{ColorRgb332, ColorRgb888};
use lgfx::datum::{textdatum_middle_center, textdatum_top_left};
use lgfx::draw::{DrawImage, DrawPrimitives, FontManupulation, Screen};
use lgfx::layer::{Call, DisplayHandle, LgfxFont, Placement, PrimitiveLayer, RawColor};
use lgfx::metrics::GlyphMetrics;
use lgfx::trace::TraceLayer;

fn layer_and_root() -> (TraceLayer, DisplayHandle) {
    let mut layer = TraceLayer::new(320, 240, false);
    let root = layer.setup();
    (layer, root)
}

#[test]
fn size_is_what_the_layer_holds() {
    let (mut layer, root) = layer_and_root();
    assert_eq!(root.size(&layer), (320, 240));
    let sprite = layer.create_sprite(root, 16, 8);
    assert_eq!(sprite.size(&layer), (16, 8));
    assert_eq!(DisplayHandle { raw: 999 }.size(&layer), (0, 0));
}

#[test]
fn primitives_pass_colours_in_their_own_encoding() {
    let (mut layer, mut root) = layer_and_root();
    root.clear(&mut layer, ColorRgb332::new(0x1c));
    root.clear(&mut layer, ColorRgb888::new(0xff00_00ff));
    root.draw_rect(&mut layer, 1, 2, 3, 4, ColorRgb332::new(5));
    root.fill_rect(&mut layer, -1, -2, 30, 40, ColorRgb888::new(6));
    root.draw_line(&mut layer, 0, 1, 2, 3, ColorRgb332::new(7));
    root.draw_line(&mut layer, 9, 8, 7, 6, ColorRgb888::new(8));
    assert_eq!(
        layer.trace()[1..].to_vec(),
        vec![
            Call::Clear { target: root, color: RawColor::Rgb332(0x1c) },
            Call::Clear { target: root, color: RawColor::Rgb888(0xff00_00ff) },
            Call::DrawRect { target: root, x: 1, y: 2, w: 3, h: 4, color: RawColor::Rgb332(5) },
            Call::FillRect { target: root, x: -1, y: -2, w: 30, h: 40, color: RawColor::Rgb888(6) },
            Call::DrawLine { target: root, x0: 0, y0: 1, x1: 2, y1: 3, color: RawColor::Rgb332(7) },
            Call::DrawLine { target: root, x0: 9, y0: 8, x1: 7, y1: 6, color: RawColor::Rgb888(8) },
        ]
    );
}

#[test]
fn png_request_starts_from_the_defaults() {
    let (mut layer, mut root) = layer_and_root();
    let data = [0x89u8, 0x50, 0x4e, 0x47];
    root.draw_png(&data).execute(&mut layer);
    assert_eq!(
        layer.trace().last(),
        Some(&Call::DrawPng {
            target: root,
            data: data.to_vec(),
            placement: Placement {
                x: 0,
                y: 0,
                max_width: 0,
                max_height: 0,
                offset_x: 0,
                offset_y: 0,
                scale_x: 0x1_0000,
                scale_y: 0,
                datum: textdatum_top_left,
            },
        })
    );
}

#[test]
fn png_request_keeps_what_it_is_told() {
    let (mut layer, mut root) = layer_and_root();
    let data = [1u8, 2, 3];
    root.draw_png(&data)
        .postion(10, 20)
        .max_size(30, 40)
        .offset(5, 6)
        .scale(0x2_0000, 0x8000)
        .datum(textdatum_middle_center)
        .execute(&mut layer);
    assert_eq!(
        layer.trace().last(),
        Some(&Call::DrawPng {
            target: root,
            data: vec![1, 2, 3],
            placement: Placement {
                x: 10,
                y: 20,
                max_width: 30,
                max_height: 40,
                offset_x: 5,
                offset_y: 6,
                scale_x: 0x2_0000,
                scale_y: 0x8000,
                datum: textdatum_middle_center,
            },
        })
    );
    root.draw_png(&data).postion(1, 2).postion(3, 4).execute(&mut layer);
    match layer.trace().last() {
        Some(Call::DrawPng { placement, .. }) => {
            assert_eq!((placement.x, placement.y), (3, 4));
            assert_eq!(placement.scale_x, 0x1_0000);
        }
        other => panic!("unexpected call {:?}", other),
    }
}

#[test]
fn raw_image_is_handed_on() {
    let (mut layer, mut root) = layer_and_root();
    let data = [9u8, 8, 7, 6, 5, 4];
    root.push_image_rgb888(&mut layer, 3, 4, 2, 1, &data);
    assert_eq!(
        layer.trace().last(),
        Some(&Call::PushImage { target: root, x: 3, y: 4, w: 2, h: 1, data: data.to_vec() })
    );
}

#[test]
fn font_settings() {
    let (mut layer, mut root) = layer_and_root();
    assert_eq!(root.get_font(&layer), Err(()));
    assert_eq!(root.font_height(&layer), 0);
    let base = GlyphMetrics { height: 16, ..GlyphMetrics::default() };
    let font = layer.add_font(base, vec![]);
    assert_eq!(root.set_font(&mut layer, font), Ok(()));
    assert_eq!(layer.trace().last(), Some(&Call::SetFont { target: root, font, accepted: true }));
    assert_eq!(root.get_font(&layer), Ok(font));
    assert_eq!(root.font_height(&layer), 16);
    let unknown = LgfxFont { ptr: 42 };
    assert_eq!(root.set_font(&mut layer, unknown), Err(()));
    assert_eq!(
        layer.trace().last(),
        Some(&Call::SetFont { target: root, font: unknown, accepted: false })
    );
    assert_eq!(root.get_font(&layer), Ok(font));
    assert_eq!(root.set_font(&mut layer, LgfxFont { ptr: 0 }), Err(()));
    root.set_text_size(&mut layer, 0x1_8000, 0x2_0000);
    assert_eq!(
        layer.trace().last(),
        Some(&Call::SetTextSize { target: root, scale_x: 0x1_8000, scale_y: 0x2_0000 })
    );
    root.set_text_datum(&mut layer, textdatum_middle_center);
    assert_eq!(
        layer.trace().last(),
        Some(&Call::SetTextDatum { target: root, datum: textdatum_middle_center })
    );
}
