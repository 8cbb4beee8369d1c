use lgfx::color::{ColorRgb332, ColorRgb888};
use lgfx::draw::DrawPrimitives;
use lgfx::epd::EpdMode;
use lgfx::layer::{Call, DisplayHandle, PrimitiveLayer, RawColor};
use lgfx::target::{Gfx, LgfxTarget, SharedLgfxTarget, Sprite};
use lgfx::trace::TraceLayer;

fn commits(layer: &TraceLayer, target: DisplayHandle) -> usize {
    layer.trace().iter().filter(|call| **call == Call::EndWrite { target }).count()
}

fn root_of(gfx: &mut Gfx) -> DisplayHandle {
    let mut layer = TraceLayer::new(0, 0, false);
    let mut shared = gfx.as_shared();
    let guard = shared.lock();
    let root = guard.target();
    guard.release(&mut shared, &mut layer);
    assert!(layer.trace().is_empty());
    root
}

#[test]
fn setup_makes_the_root_once() {
    let mut layer = TraceLayer::new(320, 240, false);
    let mut initialized = false;
    let mut gfx = Gfx::setup(&mut initialized, &mut layer).expect("first setup");
    assert!(initialized);
    let root = root_of(&mut gfx);
    assert!(!root.is_null());
    assert_eq!(layer.trace(), &vec![Call::Setup { root }]);
    assert!(Gfx::setup(&mut initialized, &mut layer).is_none());
    assert!(Gfx::setup_with_size(&mut initialized, &mut layer, 10, 10).is_none());
    assert!(initialized);
    assert_eq!(layer.trace().len(), 1);
}

#[test]
fn setup_with_size_makes_the_root_once() {
    let mut layer = TraceLayer::new(0, 0, false);
    let mut initialized = false;
    let mut gfx = Gfx::setup_with_size(&mut initialized, &mut layer, 640, 480).expect("first setup");
    let root = root_of(&mut gfx);
    assert_eq!(layer.trace(), &vec![Call::SetupWithSize { width: 640, height: 480, root }]);
    assert_eq!(layer.width(root), 640);
    assert_eq!(layer.height(root), 480);
    assert!(Gfx::setup_with_size(&mut initialized, &mut layer, 640, 480).is_none());
    assert!(Gfx::setup(&mut initialized, &mut layer).is_none());
}

#[test]
fn immediate_guard_sends_no_write_signals() {
    let mut layer = TraceLayer::new(320, 240, false);
    let mut initialized = false;
    let mut gfx = Gfx::setup(&mut initialized, &mut layer).unwrap();
    let root = root_of(&mut gfx);
    let mut shared = SharedLgfxTarget::new(&mut gfx);
    assert!(!shared.is_locked());
    let mut guard = shared.lock();
    assert!(shared.is_locked());
    assert_eq!(guard.target(), root);
    guard.clear(&mut layer, ColorRgb332::new(7));
    guard.fill_rect(&mut layer, 1, 2, 3, 4, ColorRgb888::new(0x123456));
    guard.release(&mut shared, &mut layer);
    assert!(!shared.is_locked());
    assert!(!gfx.is_locked());
    assert_eq!(
        layer.trace()[1..].to_vec(),
        vec![
            Call::Clear { target: root, color: RawColor::Rgb332(7) },
            Call::FillRect { target: root, x: 1, y: 2, w: 3, h: 4, color: RawColor::Rgb888(0x123456) },
        ]
    );
    assert_eq!(commits(&layer, root), 0);
}

#[test]
fn batched_guard_commits_once_on_release() {
    let mut layer = TraceLayer::new(320, 240, true);
    let mut initialized = false;
    let mut gfx = Gfx::setup(&mut initialized, &mut layer).unwrap();
    let root = root_of(&mut gfx);
    let mut shared = gfx.as_shared();
    let mut guard = shared.lock_without_auto_update(&mut layer);
    assert_eq!(layer.trace().last(), Some(&Call::StartWrite { target: root }));
    for i in 0..5 {
        guard.draw_line(&mut layer, i, 0, i, 10, ColorRgb332::new(0xff));
        guard.draw_rect(&mut layer, i, i, 2, 2, ColorRgb888::new(0xff));
        assert_eq!(commits(&layer, root), 0);
    }
    assert!(shared.is_locked());
    guard.release(&mut shared, &mut layer);
    assert!(!shared.is_locked());
    assert_eq!(commits(&layer, root), 1);
    assert_eq!(layer.trace().last(), Some(&Call::EndWrite { target: root }));
    assert_eq!(layer.trace().len(), 1 + 1 + 10 + 1);

    let guard = shared.lock_without_auto_update(&mut layer);
    guard.release(&mut shared, &mut layer);
    assert_eq!(commits(&layer, root), 2);
}

#[test]
fn guard_reads_and_sets_the_panel_mode() {
    let mut layer = TraceLayer::new(320, 240, true);
    let mut initialized = false;
    let mut gfx = Gfx::setup(&mut initialized, &mut layer).unwrap();
    let root = root_of(&mut gfx);
    let mut shared = gfx.as_shared();
    let mut guard = shared.lock();
    assert!(guard.is_epd(&layer));
    assert_eq!(guard.get_epd_mode(&layer), Ok(EpdMode::Quality));
    guard.set_epd_mode(&mut layer, EpdMode::Fast);
    assert_eq!(layer.trace().last(), Some(&Call::SetEpdMode { target: root, mode: 3 }));
    assert_eq!(guard.get_epd_mode(&layer), Ok(EpdMode::Fast));
    guard.set_epd_mode(&mut layer, EpdMode::Fastest);
    assert_eq!(guard.get_epd_mode(&layer), Ok(EpdMode::Fastest));
    guard.set_epd_mode(&mut layer, EpdMode::Text);
    assert_eq!(guard.get_epd_mode(&layer), Ok(EpdMode::Text));
    guard.set_rotation(&mut layer, 3);
    assert_eq!(layer.trace().last(), Some(&Call::SetRotation { target: root, rotation: 3 }));
    guard.release(&mut shared, &mut layer);
}

#[test]
fn unknown_panel_mode_is_not_coerced() {
    let mut layer = TraceLayer::new(320, 240, false);
    let mut initialized = false;
    let mut gfx = Gfx::setup(&mut initialized, &mut layer).unwrap();
    layer.report_epd_mode(9);
    let mut shared = gfx.as_shared();
    let mut guard = shared.lock();
    assert!(!guard.is_epd(&layer));
    assert_eq!(guard.get_epd_mode(&layer), Err(9));
    layer.report_epd_mode(0);
    assert_eq!(guard.get_epd_mode(&layer), Err(0));
    guard.release(&mut shared, &mut layer);
}

#[test]
fn sprite_is_created_pushed_and_given_back() {
    let mut layer = TraceLayer::new(320, 240, false);
    let mut initialized = false;
    let mut gfx = Gfx::setup(&mut initialized, &mut layer).unwrap();
    let root = root_of(&mut gfx);
    assert_eq!(layer.live_sprites(), 0);
    assert!(!gfx.is_locked());
    let mut sprite = gfx.create_sprite(&mut layer, 32, 16).expect("sprite");
    assert!(!gfx.is_locked());
    let handle = sprite.target();
    assert!(!handle.is_null());
    assert!(handle != root);
    assert_eq!(layer.live_sprites(), 1);
    assert_eq!(layer.width(handle), 32);
    assert_eq!(layer.height(handle), 16);
    sprite.clear(&mut layer, ColorRgb332::new(0));
    sprite.push_sprite(&mut gfx, &mut layer, 5, 6);
    assert!(!gfx.is_locked());
    sprite.destroy(&mut layer);
    assert_eq!(layer.live_sprites(), 0);
    assert_eq!(
        layer.trace()[1..].to_vec(),
        vec![
            Call::CreateSprite { parent: root, w: 32, h: 16, sprite: handle },
            Call::Clear { target: handle, color: RawColor::Rgb332(0) },
            Call::PushSprite { sprite: handle, x: 5, y: 6 },
            Call::DeleteSprite { sprite: handle },
        ]
    );
}

#[test]
fn sprite_created_and_destroyed_leaves_none_alive() {
    let mut layer = TraceLayer::new(320, 240, false);
    let mut initialized = false;
    let mut gfx = Gfx::setup(&mut initialized, &mut layer).unwrap();
    for _ in 0..10 {
        let sprite = Sprite::new(&mut gfx, &mut layer, 8, 8).unwrap();
        assert_eq!(layer.live_sprites(), 1);
        sprite.destroy(&mut layer);
        assert_eq!(layer.live_sprites(), 0);
    }
    let a = gfx.create_sprite(&mut layer, 1, 1).unwrap();
    let b = gfx.create_sprite(&mut layer, 1, 1).unwrap();
    assert!(a.target() != b.target());
    assert_eq!(layer.live_sprites(), 2);
    a.destroy(&mut layer);
    assert_eq!(layer.live_sprites(), 1);
    b.destroy(&mut layer);
    assert_eq!(layer.live_sprites(), 0);
}

#[test]
fn sprite_that_the_layer_refuses_is_an_error() {
    let mut layer = TraceLayer::new(320, 240, false);
    let mut initialized = false;
    let mut gfx = Gfx::setup(&mut initialized, &mut layer).unwrap();
    let root = root_of(&mut gfx);
    assert!(gfx.create_sprite(&mut layer, 0, 16).is_err());
    assert!(gfx.create_sprite(&mut layer, 16, -1).is_err());
    assert_eq!(layer.live_sprites(), 0);
    assert_eq!(
        layer.trace().last(),
        Some(&Call::CreateSprite { parent: root, w: 16, h: -1, sprite: DisplayHandle { raw: 0 } })
    );
}

#[test]
fn host_events_are_handed_on() {
    let mut layer = TraceLayer::new(320, 240, false);
    Gfx::handle_sdl_event(&mut layer);
    assert_eq!(layer.trace(), &vec![Call::PumpEvents]);
}
