use lgfx::display::{LgfxDisplay, Pixel};
use lgfx::layer::{Call, DisplayHandle, PrimitiveLayer, RawColor};
use lgfx::target::LgfxTarget;
use lgfx::trace::TraceLayer;

fn display_layer() -> (TraceLayer, DisplayHandle) {
    let mut layer = TraceLayer::new(320, 240, false);
    let root = layer.setup();
    (layer, root)
}

#[test]
fn display_names_its_target() {
    let (layer, mut root) = display_layer();
    let handle = root;
    let display = LgfxDisplay::new(&mut root);
    assert_eq!(display.target(), handle);
    assert_eq!(display.size(&layer), (320, 240));
}

#[test]
fn negative_size_wraps() {
    let mut layer = TraceLayer::new(0, 0, false);
    let mut root = layer.setup_with_size(-1, 7);
    let display = LgfxDisplay::new(&mut root);
    assert_eq!(display.size(&layer), (u32::MAX, 7));
}

#[test]
fn pixels_become_lines_to_themselves() {
    let (mut layer, mut root) = display_layer();
    let handle = root;
    let mut display = LgfxDisplay::new(&mut root);
    let pixels = [
        Pixel { x: 1, y: 2, red: 0x12, green: 0x34, blue: 0x56 },
        Pixel { x: -3, y: 4, red: 0xff, green: 0, blue: 0 },
        Pixel { x: 5, y: 6, red: 0, green: 0, blue: 1 },
    ];
    display.draw_iter(&mut layer, &pixels);
    display.draw_iter(&mut layer, &[]);
    assert_eq!(
        layer.trace()[1..].to_vec(),
        vec![
            Call::DrawLine { target: handle, x0: 1, y0: 2, x1: 1, y1: 2, color: RawColor::Rgb888(0x12_3456) },
            Call::DrawLine { target: handle, x0: -3, y0: 4, x1: -3, y1: 4, color: RawColor::Rgb888(0xff_0000) },
            Call::DrawLine { target: handle, x0: 5, y0: 6, x1: 5, y1: 6, color: RawColor::Rgb888(0x00_0001) },
        ]
    );
}

#[test]
fn solid_fill_is_one_rectangle() {
    let (mut layer, mut root) = display_layer();
    let handle = root;
    let mut display = LgfxDisplay::new(&mut root);
    display.fill_solid(&mut layer, 10, 20, 30, 40, 0xaa, 0xbb, 0xcc);
    display.fill_solid(&mut layer, 0, 0, u32::MAX, 0x8000_0000, 0, 0, 0);
    assert_eq!(
        layer.trace()[1..].to_vec(),
        vec![
            Call::FillRect { target: handle, x: 10, y: 20, w: 30, h: 40, color: RawColor::Rgb888(0xaa_bbcc) },
            Call::FillRect { target: handle, x: 0, y: 0, w: -1, h: i32::MIN, color: RawColor::Rgb888(0) },
        ]
    );
}
