use em2rs::codec::{
    inductance_word, input_config_word, home_mode_word, join_split_words, path_ctrl_word,
    peak_current_word, split_words, with_bit,
};
use em2rs::types::{Direction, DigitalInputFunction, HomingMethod, PathMotionType};

#[test]
fn peak_current_is_truncated_phase_current_times_14() {
    // Word is floor(amps * 14) with the phase current carried in milliamps.
    assert_eq!(peak_current_word(1000), 14); // 1.0 A
    assert_eq!(peak_current_word(1500), 21); // 1.5 A
    assert_eq!(peak_current_word(2000), 28); // 2.0 A
    assert_eq!(peak_current_word(0), 0);
    assert_eq!(peak_current_word(65535), 917); // 65.535 A -> floor(917.49)
}

#[test]
fn peak_current_truncates_instead_of_rounding() {
    // 1.999 A * 14 = 27.986: truncation gives 27 where rounding would give 28.
    assert_eq!(peak_current_word(1999), 27);
    // 1.234 A * 14 = 17.276 -> 17.
    assert_eq!(peak_current_word(1234), 17);
    // 0.071 A * 14 = 0.994 -> 0.
    assert_eq!(peak_current_word(71), 0);
}

#[test]
fn inductance_above_10000_is_clamped() {
    assert_eq!(inductance_word(10001), 10000);
    assert_eq!(inductance_word(20000), 10000);
    assert_eq!(inductance_word(65535), 10000);
}

#[test]
fn inductance_up_to_10000_is_unchanged() {
    assert_eq!(inductance_word(0), 0);
    assert_eq!(inductance_word(1), 1);
    assert_eq!(inductance_word(9999), 9999);
    assert_eq!(inductance_word(10000), 10000);
}

#[test]
fn split_words_separates_high_and_low() {
    assert_eq!(split_words(0), (0, 0));
    assert_eq!(split_words(0x12345678), (0x1234, 0x5678));
    assert_eq!(split_words(0xFFFF_FFFF), (0xFFFF, 0xFFFF));
    assert_eq!(split_words(5000), (0, 5000));
    assert_eq!(split_words(0x0001_0000), (1, 0));
}

#[test]
fn split_then_join_reconstructs_every_position() {
    for &value in &[
        0u32,
        1,
        5000,
        0xFFFF,
        0x0001_0000,
        0x12345678,
        0x8000_0000,
        0xFFFF_FFFF,
    ] {
        let (high, low) = split_words(value);
        assert_eq!(join_split_words(high, low), value);
    }
}

#[test]
fn input_config_word_adds_normally_closed_increment() {
    assert_eq!(input_config_word(DigitalInputFunction::Org, false), 0x27);
    assert_eq!(input_config_word(DigitalInputFunction::Org, true), 0xA7);
    assert_eq!(input_config_word(DigitalInputFunction::Invalid, false), 0x00);
    assert_eq!(input_config_word(DigitalInputFunction::Invalid, true), 0x80);
    assert_eq!(input_config_word(DigitalInputFunction::JogVelocity, true), 0xAC);
}

#[test]
fn home_mode_word_packs_direction_move_flag_and_method() {
    assert_eq!(
        home_mode_word(Direction::Clockwise, false, HomingMethod::LimitSwitch),
        0x0000
    );
    assert_eq!(
        home_mode_word(Direction::CounterClockwise, false, HomingMethod::LimitSwitch),
        0x0001
    );
    assert_eq!(
        home_mode_word(Direction::Clockwise, true, HomingMethod::LimitSwitch),
        0x0002
    );
    assert_eq!(
        home_mode_word(Direction::Clockwise, false, HomingMethod::HomeSwitch),
        0x0004
    );
    assert_eq!(
        home_mode_word(Direction::CounterClockwise, true, HomingMethod::HomeSwitch),
        0x0007
    );
}

#[test]
fn path_ctrl_word_packs_flags_at_fixed_positions() {
    let base = path_ctrl_word(PathMotionType::PositionPositioning, false, false, true, false, 0);
    assert_eq!(base, 0x0001);
    assert_eq!(
        path_ctrl_word(PathMotionType::PositionPositioning, true, false, true, false, 0),
        0x0011
    );
    assert_eq!(
        path_ctrl_word(PathMotionType::PositionPositioning, false, true, true, false, 0),
        0x0021
    );
    // Relative positioning sets the 0x40 flag.
    assert_eq!(
        path_ctrl_word(PathMotionType::PositionPositioning, false, false, false, false, 0),
        0x0041
    );
    assert_eq!(
        path_ctrl_word(PathMotionType::VelocityMovement, false, false, true, false, 0),
        0x0002
    );
}

#[test]
fn path_ctrl_word_encodes_jump_target_nibble() {
    assert_eq!(
        path_ctrl_word(PathMotionType::PositionPositioning, false, false, true, true, 3),
        0x4301
    );
    assert_eq!(
        path_ctrl_word(PathMotionType::PositionPositioning, true, true, false, true, 8),
        0x4871
    );
    // Only the low nibble of the jump target is used.
    assert_eq!(
        path_ctrl_word(PathMotionType::PositionPositioning, false, false, true, true, 0x13),
        0x4301
    );
}

#[test]
fn with_bit_sets_and_clears_only_the_named_bit() {
    assert_eq!(with_bit(0b0000, 0, true), 0b0001);
    assert_eq!(with_bit(0b1111, 0, false), 0b1110);
    assert_eq!(with_bit(0b0101, 1, true), 0b0111);
    assert_eq!(with_bit(0b0101, 2, false), 0b0001);
    assert_eq!(with_bit(0xFFFF, 15, false), 0x7FFF);
    assert_eq!(with_bit(0x0000, 15, true), 0x8000);
    // Forcing a bit to its current value is the identity.
    assert_eq!(with_bit(0x1234, 4, true), 0x1234 | 0x0010);
    assert_eq!(with_bit(0x1234, 2, true), 0x1234 | 0x0004);
}
