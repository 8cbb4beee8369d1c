use lgfx::metrics::{encode_units, narrow_unit, GlyphMetrics, LgfxError};

#[test]
fn default_metrics_are_zero() {
    let m = GlyphMetrics::default();
    assert_eq!(
        m,
        GlyphMetrics {
            width: 0,
            x_advance: 0,
            x_offset: 0,
            height: 0,
            y_advance: 0,
            y_offset: 0,
            baseline: 0
        }
    );
}

#[test]
fn basic_characters_take_one_unit() {
    assert_eq!(encode_units('A'), (0x41, None));
    assert_eq!(encode_units('\u{0}'), (0, None));
    assert_eq!(encode_units('\u{d7ff}'), (0xd7ff, None));
    assert_eq!(encode_units('\u{e000}'), (0xe000, None));
    assert_eq!(encode_units('\u{ffff}'), (0xffff, None));
    assert_eq!(encode_units('あ'), (0x3042, None));
}

#[test]
fn other_characters_take_a_surrogate_pair() {
    assert_eq!(encode_units('\u{10000}'), (0xd800, Some(0xdc00)));
    assert_eq!(encode_units('\u{10ffff}'), (0xdbff, Some(0xdfff)));
    assert_eq!(encode_units('😀'), (0xd83d, Some(0xde00)));
}

#[test]
fn encoding_agrees_with_the_standard_library() {
    let samples = [
        '\u{0}', 'a', '\u{7f}', '\u{80}', '\u{7ff}', '\u{800}', '\u{d7ff}', '\u{e000}',
        '\u{fffd}', '\u{ffff}', '\u{10000}', '\u{10001}', '\u{103ff}', '\u{10400}', '\u{1f600}',
        '\u{fffff}', '\u{100000}', '\u{10ffff}',
    ];
    for c in samples {
        let mut buf = [0u16; 2];
        let expected = c.encode_utf16(&mut buf);
        let (first, second) = encode_units(c);
        assert_eq!(first, expected[0]);
        match second {
            None => assert_eq!(expected.len(), 1),
            Some(low) => {
                assert_eq!(expected.len(), 2);
                assert_eq!(low, expected[1]);
            }
        }
    }
}

#[test]
fn narrow_unit_refuses_two_unit_characters() {
    assert_eq!(narrow_unit('A'), Ok(0x41));
    assert_eq!(narrow_unit('\u{ffff}'), Ok(0xffff));
    assert_eq!(narrow_unit('\u{10000}'), Err(LgfxError::Unicode));
    assert_eq!(narrow_unit('😀'), Err(LgfxError::Unicode));
}
