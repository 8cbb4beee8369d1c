use lgfx::epd::EpdMode;

#[test]
fn known_mode_numbers_are_read() {
    assert_eq!(EpdMode::try_from(1), Ok(EpdMode::Quality));
    assert_eq!(EpdMode::try_from(2), Ok(EpdMode::Text));
    assert_eq!(EpdMode::try_from(3), Ok(EpdMode::Fast));
    assert_eq!(EpdMode::try_from(4), Ok(EpdMode::Fastest));
}

#[test]
fn unknown_mode_numbers_are_refused() {
    assert_eq!(EpdMode::try_from(0), Err(()));
    assert_eq!(EpdMode::try_from(5), Err(()));
    assert_eq!(EpdMode::try_from(u32::MAX), Err(()));
}

#[test]
fn mode_numbers_round_trip() {
    for mode in [EpdMode::Quality, EpdMode::Text, EpdMode::Fast, EpdMode::Fastest] {
        assert_eq!(EpdMode::try_from(mode.code()), Ok(mode));
    }
    assert_eq!(EpdMode::Quality.code(), 1);
    assert_eq!(EpdMode::Fastest.code(), 4);
}

#[test]
fn mode_converts_into_its_number() {
    assert_eq!(u32::from(EpdMode::Quality), 1);
    assert_eq!(u32::from(EpdMode::Text), 2);
    let fast: u32 = EpdMode::Fast.into();
    assert_eq!(fast, 3);
    assert_eq!(u32::from(EpdMode::Fastest), 4);
}
