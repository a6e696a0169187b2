use em2rs::sequence::RegWrite;
use em2rs::session::MotorSession;
use em2rs::types::{Direction, StepperConfig};

#[test]
fn session_binds_the_device_identity_from_the_configuration() {
    let session = MotorSession::new(StepperConfig::new(7, 3200));
    assert_eq!(session.slave_id, 7);
    assert_eq!(session.config.slave_id, 7);
    assert_eq!(session.config.pulse_per_rev, 3200);
}

#[test]
fn session_init_writes_follow_the_stored_defaults() {
    let config = StepperConfig::new(1, 10000)
        .with_phase_current(1500)
        .with_direction(Direction::CounterClockwise);
    let session = MotorSession::new(config);
    assert_eq!(
        session.init_writes(),
        vec![
            RegWrite { addr: 0x0001, value: 10000 },
            RegWrite { addr: 0x0007, value: 1 },
            RegWrite { addr: 0x0191, value: 21 },
            RegWrite { addr: 0x0009, value: 1000 },
        ]
    );
}
