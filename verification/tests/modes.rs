use fvad::Mode;

#[test]
fn mode_ordinals() {
    assert_eq!(Mode::Quality.ordinal(), 0);
    assert_eq!(Mode::LowBitrate.ordinal(), 1);
    assert_eq!(Mode::Aggressive.ordinal(), 2);
    assert_eq!(Mode::VeryAggressive.ordinal(), 3);
}

#[test]
fn mode_from_its_ordinal() {
    assert_eq!(Mode::try_from(0), Ok(Mode::Quality));
    assert_eq!(Mode::try_from(1), Ok(Mode::LowBitrate));
    assert_eq!(Mode::try_from(2), Ok(Mode::Aggressive));
    assert_eq!(Mode::try_from(3), Ok(Mode::VeryAggressive));
}

#[test]
fn mode_round_trip() {
    for mode in [Mode::Quality, Mode::LowBitrate, Mode::Aggressive, Mode::VeryAggressive] {
        assert_eq!(Mode::try_from(mode.ordinal()), Ok(mode));
    }
    for n in 0..=3 {
        assert_eq!(Mode::try_from(n).unwrap().ordinal(), n);
    }
}

#[test]
fn mode_from_a_number_that_names_none() {
    for n in [4, 5, 255, 256, -1, -2, i32::MAX, i32::MIN] {
        assert_eq!(Mode::try_from(n), Err(()));
    }
}

#[test]
fn default_mode_is_quality() {
    assert_eq!(Mode::default(), Mode::Quality);
}
