use em2rs::types::{
    ControlWord, CurrentAlarm, Direction, DigitalInputFunction, DigitalOutputFunction, Em2rsError,
    HomingConfig, HomingMethod, MotionStatus, PathConfig, PathMotionType, PrControlCommand,
    SaveParameterStatus, StepperConfig,
};

#[test]
fn direction_encodings_round_trip() {
    for v in [Direction::Clockwise, Direction::CounterClockwise] {
        assert_eq!(Direction::decode(v.encode()), Some(v));
    }
    assert_eq!(Direction::Clockwise.encode(), 0x00);
    assert_eq!(Direction::CounterClockwise.encode(), 0x01);
    assert_eq!(Direction::decode(0x02), None);
}

#[test]
fn digital_input_function_encodings_round_trip() {
    let all = [
        (DigitalInputFunction::Invalid, 0x00),
        (DigitalInputFunction::AlarmClearing, 0x07),
        (DigitalInputFunction::Enable, 0x08),
        (DigitalInputFunction::TriggerCmd, 0x20),
        (DigitalInputFunction::TriggerHoming, 0x21),
        (DigitalInputFunction::Emergency, 0x22),
        (DigitalInputFunction::JogPositive, 0x23),
        (DigitalInputFunction::JogNegative, 0x24),
        (DigitalInputFunction::Pot, 0x25),
        (DigitalInputFunction::Not, 0x26),
        (DigitalInputFunction::Org, 0x27),
        (DigitalInputFunction::Add0, 0x28),
        (DigitalInputFunction::Add1, 0x29),
        (DigitalInputFunction::Add2, 0x2A),
        (DigitalInputFunction::Add3, 0x2B),
        (DigitalInputFunction::JogVelocity, 0x2C),
    ];
    for (v, word) in all {
        assert_eq!(v.encode(), word);
        assert_eq!(DigitalInputFunction::decode(word), Some(v));
    }
    assert_eq!(DigitalInputFunction::decode(0x01), None);
    assert_eq!(DigitalInputFunction::decode(0x2D), None);
}

#[test]
fn digital_output_function_encodings_round_trip() {
    let all = [
        (DigitalOutputFunction::Invalid, 0x00),
        (DigitalOutputFunction::CmdCompleted, 0x20),
        (DigitalOutputFunction::PathCompleted, 0x21),
        (DigitalOutputFunction::HomingCompleted, 0x22),
        (DigitalOutputFunction::InPosCompleted, 0x23),
        (DigitalOutputFunction::BrakeOutput, 0x24),
        (DigitalOutputFunction::AlarmOutput, 0x25),
    ];
    for (v, word) in all {
        assert_eq!(v.encode(), word);
        assert_eq!(DigitalOutputFunction::decode(word), Some(v));
    }
    assert_eq!(DigitalOutputFunction::decode(0x26), None);
}

#[test]
fn control_word_encodings_round_trip() {
    let all = [
        (ControlWord::ResetCurrentAlarm, 0x1111),
        (ControlWord::ResetHistoryAlarm, 0x1122),
        (ControlWord::SaveParamEeprom, 0x2211),
        (ControlWord::ParamReset, 0x2222),
        (ControlWord::FactoryReset, 0x2233),
        (ControlWord::SaveMappingEeprom, 0x2244),
        (ControlWord::JogClockwise, 0x4001),
        (ControlWord::JogCounterClockwise, 0x4002),
    ];
    for (v, word) in all {
        assert_eq!(v.encode(), word);
        assert_eq!(ControlWord::decode(word), Some(v));
    }
    assert_eq!(ControlWord::decode(0x0000), None);
}

#[test]
fn save_parameter_status_encodings_round_trip() {
    assert_eq!(SaveParameterStatus::SaveSuccessfully.encode(), 0x5555);
    assert_eq!(SaveParameterStatus::FailedToSave.encode(), 0xAAAA);
    assert_eq!(
        SaveParameterStatus::decode(0x5555),
        Some(SaveParameterStatus::SaveSuccessfully)
    );
    assert_eq!(
        SaveParameterStatus::decode(0xAAAA),
        Some(SaveParameterStatus::FailedToSave)
    );
    assert_eq!(SaveParameterStatus::decode(0x1234), None);
}

#[test]
fn homing_method_encodings_round_trip() {
    assert_eq!(HomingMethod::LimitSwitch.encode(), 0x00);
    assert_eq!(HomingMethod::HomeSwitch.encode(), 0x04);
    assert_eq!(HomingMethod::decode(0x00), Some(HomingMethod::LimitSwitch));
    assert_eq!(HomingMethod::decode(0x04), Some(HomingMethod::HomeSwitch));
    assert_eq!(HomingMethod::decode(0x01), None);
}

#[test]
fn pr_control_command_encodings_round_trip() {
    let all = [
        (PrControlCommand::RunThePath, 0x10),
        (PrControlCommand::Homing, 0x20),
        (PrControlCommand::ManualZero, 0x21),
        (PrControlCommand::QuickStop, 0x40),
    ];
    for (v, word) in all {
        assert_eq!(v.encode(), word);
        assert_eq!(PrControlCommand::decode(word), Some(v));
    }
    assert_eq!(PrControlCommand::decode(0x11), None);
}

#[test]
fn path_motion_type_encodings_round_trip() {
    let all = [
        (PathMotionType::NoAction, 0x00),
        (PathMotionType::PositionPositioning, 0x01),
        (PathMotionType::VelocityMovement, 0x02),
        (PathMotionType::Homing, 0x03),
    ];
    for (v, word) in all {
        assert_eq!(v.encode(), word);
        assert_eq!(PathMotionType::decode(word), Some(v));
    }
    assert_eq!(PathMotionType::decode(0x04), None);
}

#[test]
fn motion_status_predicates_read_their_own_bit() {
    let s = MotionStatus(0x0001 | 0x0004 | 0x0020);
    assert!(s.is_fault());
    assert!(!s.is_enabled());
    assert!(s.is_running());
    assert!(!s.is_cmd_complete());
    assert!(s.is_path_complete());
    assert!(!s.is_homing_complete());
    let all = MotionStatus(0xFFFF);
    assert!(all.is_fault() && all.is_enabled() && all.is_running());
    assert!(all.is_cmd_complete() && all.is_path_complete() && all.is_homing_complete());
    let none = MotionStatus(0x0000);
    assert!(!none.is_fault() && !none.is_enabled() && !none.is_running());
    assert!(!none.is_cmd_complete() && !none.is_path_complete() && !none.is_homing_complete());
}

#[test]
fn motion_status_predicates_are_independent_per_bit() {
    let masks = [0x0001u16, 0x0002, 0x0004, 0x0010, 0x0020, 0x0040];
    let words = [0x0000u16, 0xFFFF, 0x0035, 0x1042];
    for &word in &words {
        for &mask in &masks {
            let set = MotionStatus(word | mask);
            let cleared = MotionStatus(word & !mask);
            let original = MotionStatus(word);
            for &other in &masks {
                if other == mask {
                    continue;
                }
                let read = |s: MotionStatus| match other {
                    0x0001 => s.is_fault(),
                    0x0002 => s.is_enabled(),
                    0x0004 => s.is_running(),
                    0x0010 => s.is_cmd_complete(),
                    0x0020 => s.is_path_complete(),
                    _ => s.is_homing_complete(),
                };
                assert_eq!(read(set), read(original));
                assert_eq!(read(cleared), read(original));
            }
        }
    }
}

#[test]
fn current_alarm_predicates_read_their_own_bit() {
    let a = CurrentAlarm(0x01 | 0x40 | 0x200);
    assert!(a.has_over_current());
    assert!(!a.has_over_voltage());
    assert!(a.has_current_sampling_fault());
    assert!(!a.has_failed_lock_shaft());
    assert!(a.has_eeprom_fault());
    assert!(!a.has_autotuning_fault());
    let none = CurrentAlarm(0);
    assert!(!none.has_over_current() && !none.has_over_voltage());
    assert!(!none.has_current_sampling_fault() && !none.has_failed_lock_shaft());
    assert!(!none.has_eeprom_fault() && !none.has_autotuning_fault());
}

#[test]
fn current_alarm_predicates_are_independent_per_bit() {
    let masks = [0x01u16, 0x02, 0x40, 0x80, 0x200, 0x100];
    let words = [0x0000u16, 0xFFFF, 0x00C3, 0x0141];
    for &word in &words {
        for &mask in &masks {
            let set = CurrentAlarm(word | mask);
            let cleared = CurrentAlarm(word & !mask);
            let original = CurrentAlarm(word);
            for &other in &masks {
                if other == mask {
                    continue;
                }
                let read = |a: CurrentAlarm| match other {
                    0x01 => a.has_over_current(),
                    0x02 => a.has_over_voltage(),
                    0x40 => a.has_current_sampling_fault(),
                    0x80 => a.has_failed_lock_shaft(),
                    0x200 => a.has_eeprom_fault(),
                    _ => a.has_autotuning_fault(),
                };
                assert_eq!(read(set), read(original));
                assert_eq!(read(cleared), read(original));
            }
        }
    }
}

#[test]
fn path_config_new_rejects_ids_above_8_before_any_io() {
    assert!(matches!(
        PathConfig::new(9),
        Err(Em2rsError::InvalidPath(9))
    ));
    assert!(matches!(
        PathConfig::new(255),
        Err(Em2rsError::InvalidPath(255))
    ));
}

#[test]
fn path_config_new_accepts_ids_0_to_8_with_defaults() {
    for id in 0..=8u8 {
        let c = PathConfig::new(id).unwrap();
        assert_eq!(c.path_id, id);
        assert!(c.absolute_position);
        assert_eq!(c.position, 0);
        assert_eq!(c.velocity, 100);
        assert_eq!(c.acceleration, 100);
        assert_eq!(c.deceleration, 100);
        assert_eq!(c.pause_time, 0);
    }
}

#[test]
fn homing_config_default_matches_documented_values() {
    let c = HomingConfig::default();
    assert_eq!(c.input_no, 1);
    assert_eq!(c.function, DigitalInputFunction::Org);
    assert!(!c.normally_closed);
    assert_eq!(c.direction, Direction::Clockwise);
    assert!(c.move_to_pos_after);
    assert_eq!(c.method, HomingMethod::HomeSwitch);
    assert_eq!(c.position, 0);
    assert_eq!(c.position_stop, 0);
    assert_eq!(c.high_velocity, 100);
    assert_eq!(c.low_velocity, 50);
    assert_eq!(c.acceleration, 100);
    assert_eq!(c.deceleration, 100);
}

#[test]
fn stepper_config_builders_derive_new_configurations() {
    let c = StepperConfig::new(1, 10000);
    assert_eq!(c.slave_id, 1);
    assert_eq!(c.pulse_per_rev, 10000);
    assert_eq!(c.direction, Direction::Clockwise);
    assert_eq!(c.phase_current_ma, 1000);
    assert_eq!(c.inductance, 1000);

    let c = StepperConfig::new(2, 3200)
        .with_phase_current(2000)
        .with_inductance(12000)
        .with_direction(Direction::CounterClockwise);
    assert_eq!(c.slave_id, 2);
    assert_eq!(c.pulse_per_rev, 3200);
    assert_eq!(c.phase_current_ma, 2000);
    assert_eq!(c.inductance, 12000);
    assert_eq!(c.direction, Direction::CounterClockwise);
}
