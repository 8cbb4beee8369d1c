use lgfx::color::{Color, ColorRgb332, ColorRgb888};

#[test]
fn rgb888_keeps_low_24_bits() {
    assert_eq!(ColorRgb888::new(0x12_3456).as_u32(), 0x12_3456);
    assert_eq!(ColorRgb888::new(0xff12_3456).as_u32(), 0x12_3456);
    assert_eq!(ColorRgb888::new(0xff12_3456).raw(), 0xff12_3456);
}

#[test]
fn rgb332_fills_low_bits_with_top_bit() {
    assert_eq!(ColorRgb332::new(0x00).as_u32(), 0x00_0000);
    assert_eq!(ColorRgb332::new(0xff).as_u32(), 0xff_ffff);
    assert_eq!(ColorRgb332::new(0b100_000_00).as_u32(), 0x9f_0000);
    assert_eq!(ColorRgb332::new(0b001_000_00).as_u32(), 0x20_0000);
    assert_eq!(ColorRgb332::new(0b000_100_00).as_u32(), 0x00_9f00);
    assert_eq!(ColorRgb332::new(0b000_001_00).as_u32(), 0x00_2000);
    assert_eq!(ColorRgb332::new(0b000_000_10).as_u32(), 0x00_00bf);
    assert_eq!(ColorRgb332::new(0b000_000_01).as_u32(), 0x00_0040);
    assert_eq!(ColorRgb332::new(0b101_110_11).as_u32(), 0xbf_dfff);
}

#[test]
fn rgb332_round_trip_for_every_value() {
    for raw in 0..=255u8 {
        let wide = ColorRgb332::new(raw).as_u32();
        assert!(wide <= 0xff_ffff);
        let back = ColorRgb332::downsample(wide);
        assert_eq!(back.raw(), raw);
        assert_eq!(back.as_u32(), wide);
    }
}

#[test]
fn downsample_keeps_top_bits() {
    assert_eq!(ColorRgb332::downsample(0xff_ffff).raw(), 0xff);
    assert_eq!(ColorRgb332::downsample(0x00_0000).raw(), 0x00);
    assert_eq!(ColorRgb332::downsample(0xe0_0000).raw(), 0b111_000_00);
    assert_eq!(ColorRgb332::downsample(0x1f_1f3f).raw(), 0x00);
    assert_eq!(ColorRgb332::downsample(0x20_4080).raw(), 0b001_010_10);
    assert_eq!(ColorRgb332::downsample(0xff20_4080).raw(), 0b001_010_10);
}

#[test]
fn channels_pack_into_one_word() {
    assert_eq!(ColorRgb888::from_channels(0x12, 0x34, 0x56).raw(), 0x12_3456);
    assert_eq!(ColorRgb888::from_channels(0xff, 0x00, 0x01).raw(), 0xff_0001);
    assert_eq!(ColorRgb888::from_channels(0, 0, 0).raw(), 0);
    assert_eq!(ColorRgb888::from_channels(0, 0x80, 0).as_u32(), 0x00_8000);
}
